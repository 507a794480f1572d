//! The client configuration and the construction of authenticated requests.

use vstd::prelude::*;

use crate::transport::{
    agent_of, authorization_name, authorization_values, basic_value, build_http_client, parse_url,
    parsed_url, request_agent, request_has_body, request_header_names, request_method,
    request_target, start_request, target_accepted, url_credentials, valid_header_value,
    with_authorization, with_basic_auth, without_credentials,
};
use crate::write_precision::WritePrecision;
use reqwest::Client as HttpClient;

verus! {

/// The `User-Agent` that every request of a client carries.
pub const USER_AGENT: &'static str = "influxdb-client-rust/1.0.0-alpha";

/// The user name sent as basic credentials when no authorization is configured.
pub const PLACEHOLDER_USER: &'static str = "r";

/// The password sent as basic credentials when no authorization is configured.
pub const PLACEHOLDER_PASSWORD: &'static str = "d";

/// `"Token " + token`: the `Authorization` value of a token.
pub open spec fn token_header(token: Seq<char>) -> Seq<char> {
    "Token "@ + token
}

/// `"Token " + username + ":" + password`: the `Authorization` value of a
/// pair of legacy credentials.
pub open spec fn legacy_header(username: Seq<char>, password: Seq<char>) -> Seq<char> {
    "Token "@ + username + ":"@ + password
}

/// `database + "/" + retention_policy`: the bucket that a legacy database
/// and retention policy address.
pub open spec fn legacy_bucket(database: Seq<char>, retention_policy: Seq<char>) -> Seq<char> {
    database + "/"@ + retention_policy
}

/// The organization that stands for "no organization" in legacy mode.
pub open spec fn legacy_org() -> Seq<char> {
    "-"@
}

/// The `Authorization` values that a fresh request to `u` starts with: basic
/// credentials where the URL carries some, none otherwise.
pub open spec fn initial_authorization(u: url::Url) -> Seq<Seq<char>> {
    match url_credentials(u) {
        Some(cred) => seq![basic_value(cred.0, cred.1)],
        None => Seq::empty(),
    }
}

/// How requests are authorized: by an `Authorization` value prepared in
/// advance, or, where there is none, by placeholder basic credentials.
#[derive(Clone, Debug)]
pub struct Auth {
    pub authorization_header: Option<String>,
}

/// The authorization that a request is given.
#[derive(Clone, Debug, PartialEq, Eq)]
pub enum RequestAuth {
    /// An `Authorization` header with this value.
    Header(String),
    /// Basic credentials.
    Basic { user: String, password: String },
}

/// Why a client could not be made.
#[derive(Debug)]
pub enum ClientError {
    /// The base URL is not an absolute URL.
    InvalidUrl(url::ParseError),
    /// The HTTP engine could not be set up; with the fixed `User-Agent`
    /// this does not come about.
    Transport(reqwest::Error),
}

/// What a client is, as far as its users can tell.
pub struct ClientView {
    /// The base URL, as parsing normalised it.
    pub url: Seq<char>,
    pub authorization_header: Option<Seq<char>>,
    pub org: Option<Seq<char>>,
    pub bucket: Option<Seq<char>>,
    pub precision: Option<WritePrecision>,
    /// The `User-Agent` that the HTTP engine sends with each request.
    pub user_agent: Seq<char>,
}

impl ClientView {
    /// A fresh configuration: no default organization or bucket, nanosecond
    /// precision, and an engine that sends the fixed `User-Agent`.
    pub open spec fn fresh(url: Seq<char>, authorization_header: Option<Seq<char>>) -> ClientView {
        ClientView {
            url,
            authorization_header,
            org: None,
            bucket: None,
            precision: Some(WritePrecision::Ns),
            user_agent: USER_AGENT@,
        }
    }

    pub open spec fn set_org(self, org: Seq<char>) -> ClientView {
        ClientView { org: Some(org), ..self }
    }

    pub open spec fn set_bucket(self, bucket: Seq<char>) -> ClientView {
        ClientView { bucket: Some(bucket), ..self }
    }

    pub open spec fn set_precision(self, precision: WritePrecision) -> ClientView {
        ClientView { precision: Some(precision), ..self }
    }
}

/// A connection to a database server: its base URL, its authorization, the
/// defaults for writes, and the HTTP engine that sends requests.
#[derive(Clone, Debug)]
pub struct Client {
    url: String,
    auth: Auth,
    org: Option<String>,
    bucket: Option<String>,
    precision: Option<WritePrecision>,
    http_client: HttpClient,
}

impl View for Client {
    type V = ClientView;

    closed spec fn view(&self) -> ClientView {
        ClientView {
            url: self.url@,
            authorization_header: self.auth.authorization_header.deep_view(),
            org: self.org.deep_view(),
            bucket: self.bucket.deep_view(),
            precision: self.precision,
            user_agent: agent_of(self.http_client),
        }
    }
}

impl Client {
    /// A client that authorizes with `token`, sending `"Token " + token`.
    pub fn new(url: &str, token: &str) -> (r: Result<Client, ClientError>)
        ensures
            r is Ok <==> parsed_url(url@) is Some,
            r is Err ==> r->Err_0 is InvalidUrl,
            r is Ok ==> r->Ok_0@ == ClientView::fresh(
                parsed_url(url@)->Some_0,
                Some(token_header(token@)),
            ),
    {
        let mut header = String::from_str("Token ");
        header.append(token);
        proof {
            reveal_strlit("Token ");
        }
        Client::build_client(url, Auth { authorization_header: Some(header) })
    }

    /// A client for the legacy compatibility API: it authorizes with
    /// `username` and `password`, writes to no organization, and to the
    /// bucket `database + "/" + retention_policy`.
    pub fn new_v1(
        url: &str,
        username: &str,
        password: &str,
        database: &str,
        retention_policy: &str,
    ) -> (r: Result<Client, ClientError>)
        ensures
            r is Ok <==> parsed_url(url@) is Some,
            r is Err ==> r->Err_0 is InvalidUrl,
            r is Ok ==> r->Ok_0@ == ClientView::fresh(
                parsed_url(url@)->Some_0,
                Some(legacy_header(username@, password@)),
            ).set_org(legacy_org()).set_bucket(legacy_bucket(database@, retention_policy@)),
    {
        let mut header = String::from_str("Token ");
        header.append(username);
        header.append(":");
        header.append(password);
        let mut bucket = String::from_str(database);
        bucket.append("/");
        bucket.append(retention_policy);
        proof {
            reveal_strlit("Token ");
            reveal_strlit(":");
            reveal_strlit("/");
            reveal_strlit("-");
        }
        match Client::build_client(url, Auth { authorization_header: Some(header) }) {
            Ok(client) => Ok(client.with_org("-").with_bucket(bucket.as_str())),
            Err(e) => Err(e),
        }
    }

    /// Parses `url` and sets up the HTTP engine; the URL is parsed first.
    fn build_client(url: &str, auth: Auth) -> (r: Result<Client, ClientError>)
        ensures
            r is Ok <==> parsed_url(url@) is Some,
            r is Err ==> r->Err_0 is InvalidUrl,
            r is Ok ==> r->Ok_0@ == ClientView::fresh(
                parsed_url(url@)->Some_0,
                auth.authorization_header.deep_view(),
            ),
    {
        proof {
            lemma_user_agent_is_valid();
        }
        match parse_url(url) {
            Ok(parsed) => match build_http_client(USER_AGENT) {
                Ok(http_client) => Ok(
                    Client {
                        url: parsed,
                        auth,
                        org: None,
                        bucket: None,
                        precision: Some(WritePrecision::Ns),
                        http_client,
                    },
                ),
                Err(e) => Err(ClientError::Transport(e)),
            },
            Err(e) => Err(ClientError::InvalidUrl(e)),
        }
    }

    /// The same client with `org` as its default organization.
    pub fn with_org(self, org: &str) -> (r: Client)
        ensures
            r@ == self@.set_org(org@),
    {
        let mut c = self;
        c.org = Some(String::from_str(org));
        c
    }

    /// The same client with `bucket` as its default bucket.
    pub fn with_bucket(self, bucket: &str) -> (r: Client)
        ensures
            r@ == self@.set_bucket(bucket@),
    {
        let mut c = self;
        c.bucket = Some(String::from_str(bucket));
        c
    }

    /// The same client with `precision` as its default precision.
    pub fn with_precision(self, precision: WritePrecision) -> (r: Client)
        ensures
            r@ == self@.set_precision(precision),
    {
        let mut c = self;
        c.precision = Some(precision);
        c
    }

    /// The authorization that requests of this client are given: the
    /// prepared `Authorization` value where there is one, else the
    /// placeholder basic credentials.
    pub fn request_auth(&self) -> (r: RequestAuth)
        ensures
            match self@.authorization_header {
                Some(h) => r is Header && r->Header_0@ == h,
                None => r is Basic && r->user@ == PLACEHOLDER_USER@ && r->password@
                    == PLACEHOLDER_PASSWORD@,
            },
    {
        match &self.auth.authorization_header {
            Some(h) => RequestAuth::Header(h.clone()),
            None => RequestAuth::Basic {
                user: String::from_str(PLACEHOLDER_USER),
                password: String::from_str(PLACEHOLDER_PASSWORD),
            },
        }
    }

    /// An unsent request of `method` to `url` on this client's HTTP engine,
    /// which sends it with the client's `User-Agent`. It has no body and no
    /// header but `Authorization`, which holds, after whatever credentials
    /// the URL itself carries (they are taken out of the URL), one value: the
    /// prepared one, or the placeholder basic credentials where there is
    /// none. A URL without a host, or a prepared value that no header may
    /// hold, leaves an error in the request.
    pub fn build_request(&self, url: url::Url, method: reqwest::Method) -> (r:
        reqwest::RequestBuilder)
        ensures
            request_agent(r) == self@.user_agent,
            target_accepted(url) ==> {
                &&& request_method(r) == method
                &&& request_target(r) == if url_credentials(url) is Some {
                    without_credentials(url)
                } else {
                    url
                }
                &&& !request_has_body(r)
            },
            authorization_values(r) is Some ==> request_header_names(r) == set![
                authorization_name(),
            ],
            !target_accepted(url) ==> authorization_values(r) is None,
            target_accepted(url) ==> authorization_values(r) == match self@.authorization_header {
                Some(h) => if valid_header_value(h) {
                    Some(initial_authorization(url).push(h))
                } else {
                    None
                },
                None => Some(
                    initial_authorization(url).push(
                        basic_value(PLACEHOLDER_USER@, Some(PLACEHOLDER_PASSWORD@)),
                    ),
                ),
            },
    {
        let request = start_request(&self.http_client, method, url);
        match self.request_auth() {
            RequestAuth::Header(value) => with_authorization(request, value.as_str()),
            RequestAuth::Basic { user, password } => with_basic_auth(
                request,
                user.as_str(),
                password.as_str(),
            ),
        }
    }

    /// The base URL, as parsing normalised it.
    pub fn url(&self) -> (r: &str)
        ensures
            r@ == self@.url,
    {
        self.url.as_str()
    }

    /// The `Authorization` value prepared at construction, if any.
    pub fn authorization_header(&self) -> (r: &Option<String>)
        ensures
            r.deep_view() == self@.authorization_header,
    {
        &self.auth.authorization_header
    }

    /// The default organization for writes.
    pub fn org(&self) -> (r: &Option<String>)
        ensures
            r.deep_view() == self@.org,
    {
        &self.org
    }

    /// The default bucket for writes.
    pub fn bucket(&self) -> (r: &Option<String>)
        ensures
            r.deep_view() == self@.bucket,
    {
        &self.bucket
    }

    /// The default precision of timestamps.
    pub fn precision(&self) -> (r: Option<WritePrecision>)
        ensures
            r == self@.precision,
    {
        self.precision
    }
}

/// Setting the default organization, bucket and precision, in any order,
/// gives the same configuration: the one that holds exactly those three
/// values and is otherwise unchanged.
pub proof fn lemma_setters_commute(
    c: ClientView,
    org: Seq<char>,
    bucket: Seq<char>,
    precision: WritePrecision,
)
    ensures
        c.set_org(org).set_bucket(bucket).set_precision(precision) == (ClientView {
            org: Some(org),
            bucket: Some(bucket),
            precision: Some(precision),
            ..c
        }),
        c.set_org(org).set_precision(precision).set_bucket(bucket) == c.set_org(org).set_bucket(
            bucket,
        ).set_precision(precision),
        c.set_bucket(bucket).set_org(org).set_precision(precision) == c.set_org(org).set_bucket(
            bucket,
        ).set_precision(precision),
        c.set_bucket(bucket).set_precision(precision).set_org(org) == c.set_org(org).set_bucket(
            bucket,
        ).set_precision(precision),
        c.set_precision(precision).set_org(org).set_bucket(bucket) == c.set_org(org).set_bucket(
            bucket,
        ).set_precision(precision),
        c.set_precision(precision).set_bucket(bucket).set_org(org) == c.set_org(org).set_bucket(
            bucket,
        ).set_precision(precision),
{
}

/// The fixed `User-Agent` may stand in an HTTP header.
proof fn lemma_user_agent_is_valid()
    ensures
        valid_header_value(USER_AGENT@),
{
    reveal_strlit("influxdb-client-rust/1.0.0-alpha");
}

/// The legacy authorization is the token authorization of the pair
/// `username + ":" + password`.
pub proof fn lemma_legacy_header_is_token_of_pair(username: Seq<char>, password: Seq<char>)
    ensures
        legacy_header(username, password) == token_header(username + ":"@ + password),
{
    assert(legacy_header(username, password) =~= token_header(username + ":"@ + password));
}

} // verus!
