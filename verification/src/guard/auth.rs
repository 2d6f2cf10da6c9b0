//! The authorization gate: classifies a request's credentials against the
//! configuration, once per request, with no state kept across requests.
//!
//! Order of trust: an upload-token header is checked first and must equal
//! the configured secret exactly. Otherwise a session cookie, whose value
//! is the unpadded URL-safe base64 of `username:password`, must decode,
//! split on its first `:`, and match one configured user exactly. A request
//! with no credentials at all is its own outcome, left for the route to
//! judge; malformed or mismatched credentials are rejected outright.

use vstd::prelude::*;
use vstd::utf8::decode_utf8;
use vstd::utf8::valid_utf8;

use crate::codec;
use crate::config::Config;
use crate::user::User;

verus! {

/// A method of authentication.
#[derive(Debug, Clone, PartialEq)]
pub enum Auth {
    /// A user account used for authentication.
    User(User),
    /// An upload token used for authentication.
    UploadToken(String),
}

/// How a request's credentials were judged.
#[derive(Debug, Clone, PartialEq)]
pub enum AuthOutcome {
    /// Credentials were presented and match.
    Authenticated(Auth),
    /// No credentials at all; the route decides whether that is acceptable.
    Anonymous,
    /// Credentials were presented but are malformed or do not match.
    Reject,
}

/// The same judgement in ghost form, over plain values.
pub enum AuthDecision {
    /// The upload-token header equalled the configured secret.
    Token,
    /// The session cookie named this configured user: username, password.
    User(Seq<char>, Seq<char>),
    /// No credentials were supplied.
    Anonymous,
    /// Credentials were supplied but are malformed or do not match.
    Reject,
}

/// The position of the first `:` byte at or after `i`, or -1.
pub open spec fn colon_pos(b: Seq<u8>, i: int) -> int
    recommends
        0 <= i <= b.len(),
    decreases b.len() - i
        when 0 <= i <= b.len()
{
    if i >= b.len() {
        -1
    } else if b[i] == 58 {
        i
    } else {
        colon_pos(b, i + 1)
    }
}

/// Whether some configured user carries exactly this name and password.
pub open spec fn user_match(users: Seq<User>, name: Seq<char>, pwd: Seq<char>) -> bool {
    exists|k: int|
        0 <= k < users.len() && (#[trigger] users[k]).username@ == name && users[k].password@
            == pwd
}

/// What the session cookie alone yields: the named user when it decodes,
/// splits on its first `:` and matches a configured user; `Reject` on
/// anything malformed or mismatched.
pub open spec fn cookie_decision(cookie: Seq<char>, users: Seq<User>) -> AuthDecision {
    match codec::decode_result(cookie) {
        Err(_) => AuthDecision::Reject,
        Ok(bytes) => {
            let k = colon_pos(bytes, 0);
            if k < 0 {
                AuthDecision::Reject
            } else {
                let ub = bytes.subrange(0, k);
                let pb = bytes.subrange(k + 1, bytes.len() as int);
                if !valid_utf8(ub) || !valid_utf8(pb) {
                    AuthDecision::Reject
                } else if user_match(users, decode_utf8(ub), decode_utf8(pb)) {
                    AuthDecision::User(decode_utf8(ub), decode_utf8(pb))
                } else {
                    AuthDecision::Reject
                }
            }
        },
    }
}

/// The complete decision rule on one request's credentials.
pub open spec fn gate_decision(
    header: Option<Seq<char>>,
    cookie: Option<Seq<char>>,
    token: Seq<char>,
    users: Seq<User>,
) -> AuthDecision {
    match header {
        Some(h) => if h == token {
            AuthDecision::Token
        } else {
            AuthDecision::Reject
        },
        None => match cookie {
            Some(c) => cookie_decision(c, users),
            None => AuthDecision::Anonymous,
        },
    }
}

/// The ghost form of an exec classification.
pub open spec fn decision_of(r: AuthOutcome) -> AuthDecision {
    match r {
        AuthOutcome::Authenticated(Auth::User(u)) => AuthDecision::User(u.username@, u.password@),
        AuthOutcome::Authenticated(Auth::UploadToken(_)) => AuthDecision::Token,
        AuthOutcome::Anonymous => AuthDecision::Anonymous,
        AuthOutcome::Reject => AuthDecision::Reject,
    }
}

/// Find the first `:` byte, the seam between username and password.
fn find_colon(b: &Vec<u8>) -> (r: Option<usize>)
    ensures
        match r {
            Some(k) => k < b@.len() && colon_pos(b@, 0) == k as int,
            None => colon_pos(b@, 0) == -1,
        },
{
    let n = b.len();
    let mut k: usize = 0;
    while k < n
        invariant
            k <= n,
            n == b@.len(),
            colon_pos(b@, 0) == colon_pos(b@, k as int),
        decreases n - k,
    {
        if b[k] == 58 {
            return Some(k);
        }
        k += 1;
    }
    None
}

/// Copy a byte range out of a vector.
fn subvec(b: &Vec<u8>, from: usize, to: usize) -> (r: Vec<u8>)
    requires
        from <= to <= b@.len(),
    ensures
        r@ == b@.subrange(from as int, to as int),
{
    let mut v: Vec<u8> = Vec::new();
    let mut i: usize = from;
    while i < to
        invariant
            from <= i <= to <= b@.len(),
            v@.len() == i - from,
            forall|j: int| 0 <= j < v@.len() ==> #[trigger] v@[j] == b@[from + j],
        decreases to - i,
    {
        v.push(b[i]);
        i += 1;
    }
    proof {
        assert(v@ =~= b@.subrange(from as int, to as int));
    }
    v
}

/// Relies on `String::from_utf8`: succeeds exactly on valid UTF-8 input and
/// decodes it per the UTF-8 specification, which vstd's model mirrors.
#[verifier::external_body]
fn bytes_to_string(v: Vec<u8>) -> (r: Option<String>)
    ensures
        r is Some <==> valid_utf8(v@),
        r is Some ==> r->0@ == decode_utf8(v@),
{
    String::from_utf8(v).ok()
}

/// Judge a session cookie's value against the configured users.
fn cookie_auth(cookie: &String, config: &Config) -> (r: AuthOutcome)
    ensures
        decision_of(r) == cookie_decision(cookie@, config.users@),
{
    let bytes = match codec::decode(cookie.as_str()) {
        Err(_) => {
            return AuthOutcome::Reject;
        },
        Ok(b) => b,
    };
    let k = match find_colon(&bytes) {
        None => {
            return AuthOutcome::Reject;
        },
        Some(k) => k,
    };
    let nb = bytes.len();
    let ub = subvec(&bytes, 0, k);
    let pb = subvec(&bytes, k + 1, nb);
    let ghost ubv = ub@;
    let ghost pbv = pb@;
    let uname = match bytes_to_string(ub) {
        None => {
            return AuthOutcome::Reject;
        },
        Some(s) => s,
    };
    let pwd = match bytes_to_string(pb) {
        None => {
            return AuthOutcome::Reject;
        },
        Some(s) => s,
    };
    let n = config.users.len();
    let mut i: usize = 0;
    while i < n
        invariant
            i <= n,
            n == config.users@.len(),
            codec::decode_result(cookie@) == Ok::<Seq<u8>, codec::DecodeError>(bytes@),
            colon_pos(bytes@, 0) == k as int,
            k < bytes@.len(),
            ubv == bytes@.subrange(0, k as int),
            pbv == bytes@.subrange(k as int + 1, bytes@.len() as int),
            valid_utf8(ubv) && valid_utf8(pbv),
            uname@ == decode_utf8(ubv),
            pwd@ == decode_utf8(pbv),
            forall|j: int|
                0 <= j < i ==> !((#[trigger] config.users@[j]).username@ == uname@
                    && config.users@[j].password@ == pwd@),
        decreases n - i,
    {
        if config.users[i].username == uname && config.users[i].password == pwd {
            proof {
                assert(user_match(config.users@, uname@, pwd@));
            }
            return AuthOutcome::Authenticated(Auth::User(User { username: uname, password: pwd }));
        }
        i += 1;
    }
    AuthOutcome::Reject
}

/// Classify one request's credentials. The upload-token header, when
/// present, decides alone; otherwise the session cookie; otherwise the
/// request is anonymous.
pub fn authorize(header: Option<&String>, cookie: Option<&String>, config: &Config) -> (r:
    AuthOutcome)
    ensures
        decision_of(r) == gate_decision(
            match header {
                Some(h) => Some(h@),
                None => None,
            },
            match cookie {
                Some(c) => Some(c@),
                None => None,
            },
            config.upload_token@,
            config.users@,
        ),
        r matches AuthOutcome::Authenticated(Auth::UploadToken(t)) ==> t@ == config.upload_token@,
{
    match header {
        Some(h) => {
            if *h == config.upload_token {
                AuthOutcome::Authenticated(Auth::UploadToken(h.clone()))
            } else {
                AuthOutcome::Reject
            }
        },
        None => match cookie {
            Some(c) => cookie_auth(c, config),
            None => AuthOutcome::Anonymous,
        },
    }
}

} // verus!
