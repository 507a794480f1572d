//! The calls into the HTTP engine and the URL parser that the client makes.

use reqwest::Client as HttpClient;
use vstd::prelude::*;

verus! {

#[verifier::external_type_specification]
#[verifier::external_body]
pub struct ExUrl(url::Url);

#[verifier::external_type_specification]
#[verifier::external_body]
pub struct ExParseError(url::ParseError);

#[verifier::external_type_specification]
#[verifier::external_body]
pub struct ExHttpClient(HttpClient);

/// Relies on `Clone for reqwest::Client`: a second handle on the same engine.
pub assume_specification[ <HttpClient as std::clone::Clone>::clone ](
    c: &HttpClient,
) -> HttpClient;

#[verifier::external_type_specification]
#[verifier::external_body]
pub struct ExRequestBuilder(reqwest::RequestBuilder);

#[verifier::external_type_specification]
#[verifier::external_body]
pub struct ExMethod(reqwest::Method);

#[verifier::external_type_specification]
#[verifier::external_body]
pub struct ExHttpError(reqwest::Error);

/// The serialization of the URL that parsing `s` as an absolute URL gives,
/// or `None` where `s` is not an absolute URL.
pub uninterp spec fn parsed_url(s: Seq<char>) -> Option<Seq<char>>;

/// Relies on `url::Url::parse`, whose outcome depends on the input alone, and
/// on `From<Url> for String`, which hands out the serialization of the URL.
#[verifier::external_body]
pub(crate) fn parse_url(input: &str) -> (r: Result<String, url::ParseError>)
    ensures
        r is Ok <==> parsed_url(input@) is Some,
        r is Ok ==> parsed_url(input@) == Some(r->Ok_0@),
{
    url::Url::parse(input).map(String::from)
}

/// Whether an HTTP header may hold `s`: every character is a tab, or at
/// least a space and other than DEL.
pub open spec fn valid_header_value(s: Seq<char>) -> bool {
    forall|i: int|
        0 <= i < s.len() ==> (s[i] == '\t' || (s[i] as u32 >= 32 && s[i] as u32 != 127))
}

/// `"authorization"`: the name of the `Authorization` header.
pub open spec fn authorization_name() -> Seq<char> {
    seq!['a', 'u', 't', 'h', 'o', 'r', 'i', 'z', 'a', 't', 'i', 'o', 'n']
}

/// The `User-Agent` that the HTTP engine `c` sends with each request.
pub uninterp spec fn agent_of(c: HttpClient) -> Seq<char>;

/// The `Authorization` values that the request under construction `r` holds,
/// in order; `None` once it holds an error instead of a request.
pub uninterp spec fn authorization_values(r: reqwest::RequestBuilder) -> Option<Seq<Seq<char>>>;

/// The method of the request that `r` holds.
pub uninterp spec fn request_method(r: reqwest::RequestBuilder) -> reqwest::Method;

/// The URL that the request that `r` holds is sent to.
pub uninterp spec fn request_target(r: reqwest::RequestBuilder) -> url::Url;

/// Whether the request that `r` holds has a body.
pub uninterp spec fn request_has_body(r: reqwest::RequestBuilder) -> bool;

/// The names, in lower case, of the headers that the request that `r` holds
/// sets itself.
pub uninterp spec fn request_header_names(r: reqwest::RequestBuilder) -> Set<Seq<char>>;

/// The `User-Agent` of the HTTP engine that `r` is sent on; the engine adds
/// it to a request that sets no `User-Agent` itself.
pub uninterp spec fn request_agent(r: reqwest::RequestBuilder) -> Seq<char>;

/// `u` without its user name and password.
pub uninterp spec fn without_credentials(u: url::Url) -> url::Url;

/// Whether a request may be sent to `u`: the URL has a host.
pub uninterp spec fn target_accepted(u: url::Url) -> bool;

/// The user name and password, percent-decoded, that a request takes from
/// `u`: `None` where `u` carries neither, or where its user name does not
/// decode as UTF-8; a password that does not decode counts as absent.
pub uninterp spec fn url_credentials(u: url::Url) -> Option<(Seq<char>, Option<Seq<char>>)>;

/// The `Authorization` value for basic credentials: `"Basic "` followed by
/// the base64 encoding of `user + ":" + password`.
pub uninterp spec fn basic_value(user: Seq<char>, password: Option<Seq<char>>) -> Seq<char>;

/// Relies on `reqwest::ClientBuilder::user_agent` and `build`: without a TLS
/// backend, building fails only where the agent is not a valid header value.
#[verifier::external_body]
pub(crate) fn build_http_client(agent: &str) -> (r: Result<HttpClient, reqwest::Error>)
    ensures
        valid_header_value(agent@) ==> r is Ok && agent_of(r->Ok_0) == agent@,
{
    HttpClient::builder().user_agent(agent).build()
}

/// Relies on `reqwest::Client::request`: a request of `method` to `url` on
/// the engine `http`, with no body and no header but the basic credentials
/// that the URL carries, which are taken out of the URL; or an error where
/// the URL has no host.
#[verifier::external_body]
pub(crate) fn start_request(
    http: &HttpClient,
    method: reqwest::Method,
    url: url::Url,
) -> (r: reqwest::RequestBuilder)
    ensures
        request_agent(r) == agent_of(*http),
        target_accepted(url) ==> {
            &&& request_method(r) == method
            &&& request_target(r) == if url_credentials(url) is Some {
                without_credentials(url)
            } else {
                url
            }
            &&& !request_has_body(r)
            &&& request_header_names(r) == if url_credentials(url) is Some {
                set![authorization_name()]
            } else {
                Set::empty()
            }
        },
        authorization_values(r) == if !target_accepted(url) {
            None
        } else {
            match url_credentials(url) {
                Some(cred) => Some(seq![basic_value(cred.0, cred.1)]),
                None => Some(Seq::empty()),
            }
        },
{
    http.request(method, url)
}

/// Relies on `reqwest::RequestBuilder::header`: appends an `Authorization`
/// header holding `value`, or records an error where `value` is not a valid
/// header value.
#[verifier::external_body]
pub(crate) fn with_authorization(request: reqwest::RequestBuilder, value: &str) -> (r:
    reqwest::RequestBuilder)
    ensures
        request_agent(r) == request_agent(request),
        request_method(r) == request_method(request),
        request_target(r) == request_target(request),
        request_has_body(r) == request_has_body(request),
        authorization_values(r) is Some ==> request_header_names(r) == request_header_names(
            request,
        ).insert(authorization_name()),
        authorization_values(r) == match authorization_values(request) {
            Some(vs) => if valid_header_value(value@) {
                Some(vs.push(value@))
            } else {
                None
            },
            None => None,
        },
{
    request.header(reqwest::header::AUTHORIZATION, value)
}

/// Relies on `reqwest::RequestBuilder::basic_auth`: appends an `Authorization`
/// header with the basic credentials `user` and `password`.
#[verifier::external_body]
pub(crate) fn with_basic_auth(request: reqwest::RequestBuilder, user: &str, password: &str) -> (r:
    reqwest::RequestBuilder)
    ensures
        request_agent(r) == request_agent(request),
        request_method(r) == request_method(request),
        request_target(r) == request_target(request),
        request_has_body(r) == request_has_body(request),
        authorization_values(r) is Some ==> request_header_names(r) == request_header_names(
            request,
        ).insert(authorization_name()),
        authorization_values(r) == match authorization_values(request) {
            Some(vs) => Some(vs.push(basic_value(user@, Some(password@)))),
            None => None,
        },
{
    request.basic_auth(user, Some(password))
}

} // verus!
