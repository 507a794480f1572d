use vstd::prelude::*;

verus! {

/// The outcome of a health check.
#[derive(Clone, Copy, Debug, PartialEq, Eq, Structural, PartialOrd, Ord, Hash)]
pub enum Status {
    Pass,
    Fail,
}

/// The token that stands for a status on the wire.
pub open spec fn status_token(s: Status) -> Seq<char> {
    match s {
        Status::Pass => seq!['p', 'a', 's', 's'],
        Status::Fail => seq!['f', 'a', 'i', 'l'],
    }
}

/// The status that a wire token denotes, if any.
pub open spec fn status_of_token(t: Seq<char>) -> Option<Status> {
    if t == status_token(Status::Pass) {
        Some(Status::Pass)
    } else if t == status_token(Status::Fail) {
        Some(Status::Fail)
    } else {
        None
    }
}

impl Status {
    /// The wire token of this status: `"pass"` or `"fail"`.
    pub fn as_token(&self) -> (r: &'static str)
        ensures
            r@ == status_token(*self),
    {
        match self {
            Status::Pass => {
                proof {
                    reveal_strlit("pass");
                    assert("pass"@ =~= status_token(Status::Pass));
                }
                "pass"
            },
            Status::Fail => {
                proof {
                    reveal_strlit("fail");
                    assert("fail"@ =~= status_token(Status::Fail));
                }
                "fail"
            },
        }
    }

    /// Reads a wire token; any token but `"pass"` and `"fail"` is refused.
    pub fn from_token(t: &str) -> (r: Option<Status>)
        ensures
            r == status_of_token(t@),
    {
        proof {
            reveal_strlit("pass");
            reveal_strlit("fail");
            assert("pass"@ =~= status_token(Status::Pass));
            assert("fail"@ =~= status_token(Status::Fail));
        }
        if equal_text(t, "pass") {
            Some(Status::Pass)
        } else if equal_text(t, "fail") {
            Some(Status::Fail)
        } else {
            None
        }
    }
}

/// Character-wise equality of two strings.
fn equal_text(a: &str, b: &str) -> (r: bool)
    ensures
        r == (a@ == b@),
{
    let n = a.unicode_len();
    if n != b.unicode_len() {
        return false;
    }
    let mut i: usize = 0;
    while i < n
        invariant
            n == a@.len(),
            n == b@.len(),
            i <= n,
            a@.subrange(0, i as int) == b@.subrange(0, i as int),
        decreases n - i,
    {
        if a.get_char(i) != b.get_char(i) {
            assert(a@[i as int] != b@[i as int]);
            return false;
        }
        assert(a@.subrange(0, i + 1) =~= a@.subrange(0, i as int).push(a@[i as int]));
        assert(b@.subrange(0, i + 1) =~= b@.subrange(0, i as int).push(b@[i as int]));
        i = i + 1;
    }
    assert(a@ =~= a@.subrange(0, n as int));
    assert(b@ =~= b@.subrange(0, n as int));
    true
}

/// Decoding the token of a status gives that status back, and a token that
/// decodes to a status is that status's token.
pub proof fn lemma_status_token_round_trip(s: Status, t: Seq<char>)
    ensures
        status_of_token(status_token(s)) == Some(s),
        status_of_token(t) == Some(s) ==> t == status_token(s),
{
    assert(status_token(Status::Pass) != status_token(Status::Fail)) by {
        assert(status_token(Status::Pass)[0] != status_token(Status::Fail)[0]);
    }
}

/// A report on the health of a service, possibly with nested reports on
/// the services it depends on.
#[derive(Debug, PartialEq)]
pub struct HealthCheck {
    pub name: String,
    pub message: Option<String>,
    pub checks: Option<Vec<HealthCheck>>,
    pub status: Status,
    pub version: Option<String>,
    pub commit: Option<String>,
}

/// `a` and `b` hold the same text where both are present, and both are
/// absent otherwise.
pub open spec fn same_text(a: Option<String>, b: Option<String>) -> bool {
    a.deep_view() == b.deep_view()
}

/// `a` and `b` are the same report: the same name, status and optional
/// texts, and nested reports that are pairwise the same.
pub open spec fn same_report(a: HealthCheck, b: HealthCheck) -> bool
    decreases a,
{
    &&& a.name@ == b.name@
    &&& a.status == b.status
    &&& same_text(a.message, b.message)
    &&& same_text(a.version, b.version)
    &&& same_text(a.commit, b.commit)
    &&& (a.checks is Some <==> b.checks is Some)
    &&& a.checks is Some ==> {
        &&& a.checks->Some_0.len() == b.checks->Some_0.len()
        &&& forall|i: int|
            0 <= i < a.checks->Some_0.len() ==> #[trigger] same_report(
                a.checks->Some_0[i],
                b.checks->Some_0[i],
            )
    }
}

impl Clone for HealthCheck {
    /// A copy of the report and of every nested report.
    fn clone(&self) -> (r: Self)
        ensures
            same_report(*self, r),
        decreases self,
    {
        let checks = match &self.checks {
            Some(cs) => {
                let mut out: Vec<HealthCheck> = Vec::new();
                let mut i: usize = 0;
                while i < cs.len()
                    invariant
                        self.checks == Some(*cs),
                        i <= cs.len(),
                        out.len() == i,
                        forall|j: int| 0 <= j < i ==> #[trigger] same_report(cs[j], out[j]),
                    decreases cs.len() - i,
                {
                    proof {
                        assert(decreases_to!(*self => self.checks));
                        assert(decreases_to!(self.checks => self.checks->Some_0));
                        assert(decreases_to!(*cs => cs[i as int]));
                    }
                    out.push(cs[i].clone());
                    i = i + 1;
                }
                assert(forall|j: int|
                    0 <= j < out.len() ==> same_report(self.checks->Some_0[j], out[j]));
                Some(out)
            },
            None => None,
        };
        HealthCheck {
            name: self.name.clone(),
            message: copy_text(&self.message),
            checks,
            status: self.status,
            version: copy_text(&self.version),
            commit: copy_text(&self.commit),
        }
    }
}

fn copy_text(t: &Option<String>) -> (r: Option<String>)
    ensures
        same_text(r, *t),
{
    match t {
        Some(s) => Some(s.clone()),
        None => None,
    }
}

impl HealthCheck {
    /// A report with the given name and status and no optional parts.
    pub fn new(name: String, status: Status) -> (r: HealthCheck)
        ensures
            r.name@ == name@,
            r.status == status,
            r.message is None,
            r.checks is None,
            r.version is None,
            r.commit is None,
    {
        HealthCheck { name, message: None, checks: None, status, version: None, commit: None }
    }
}

} // verus!
