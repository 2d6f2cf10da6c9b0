//! Handling of login submissions: minting the session cookie value that
//! the authorization gate accepts.

use vstd::prelude::*;
use vstd::string::*;
use vstd::utf8::encode_utf8;

use crate::codec;
use crate::config::Config;
use crate::guard::auth::{colon_pos, cookie_decision, user_match, AuthDecision};
use crate::user::User;

verus! {

/// The session cookie's payload: the UTF-8 bytes of `username:password`.
pub open spec fn cookie_payload(name: Seq<char>, pwd: Seq<char>) -> Seq<u8> {
    encode_utf8(name) + seq![58u8] + encode_utf8(pwd)
}

/// Handle a login submission: when the submitted user exactly matches a
/// configured one, mint the session cookie value; otherwise refuse.
pub fn login_submit(config: &Config, user: &User) -> (r: Option<String>)
    ensures
        r is Some <==> user_match(config.users@, user.username@, user.password@),
        r is Some ==> r->0@ == codec::encode_b64(cookie_payload(user.username@, user.password@)),
{
    let n = config.users.len();
    let mut matched = false;
    let mut i: usize = 0;
    while i < n
        invariant
            i <= n,
            n == config.users@.len(),
            matched ==> user_match(config.users@, user.username@, user.password@),
            !matched ==> forall|j: int|
                0 <= j < i ==> !((#[trigger] config.users@[j]).username@ == user.username@
                    && config.users@[j].password@ == user.password@),
        decreases n - i,
    {
        if config.users[i].username == user.username && config.users[i].password == user.password {
            matched = true;
        }
        i += 1;
    }
    if !matched {
        return None;
    }
    let mut bytes = user.username.as_str().as_bytes_vec();
    bytes.push(58);
    let mut pwd_bytes = user.password.as_str().as_bytes_vec();
    bytes.append(&mut pwd_bytes);
    proof {
        assert(bytes@ =~= cookie_payload(user.username@, user.password@));
    }
    Some(codec::encode(bytes.as_slice()))
}

/// The first `:` byte of a sequence sits where the first `:` sits.
proof fn lemma_colon_pos_at(b: Seq<u8>, k: int, i: int)
    requires
        0 <= i <= k < b.len(),
        b[k] == 58,
        forall|j: int| 0 <= j < k ==> b[j] != 58,
    ensures
        colon_pos(b, i) == k,
    decreases k - i,
{
    if i < k {
        lemma_colon_pos_at(b, k, i + 1);
    }
}

/// Law: session round trip — the cookie minted for a configured user is
/// accepted by the authorization gate and names exactly that user,
/// provided the username's UTF-8 form contains no `:` byte, the one
/// separator the cookie format reserves. A username containing `:` cannot
/// come back out whole, because the payload is split at its first `:`.
pub proof fn lemma_login_cookie_round_trip(users: Seq<User>, name: Seq<char>, pwd: Seq<char>)
    requires
        user_match(users, name, pwd),
        forall|j: int| 0 <= j < encode_utf8(name).len() ==> encode_utf8(name)[j] != 58,
    ensures
        cookie_decision(codec::encode_b64(cookie_payload(name, pwd)), users) == AuthDecision::User(
            name,
            pwd,
        ),
{
    let ub = encode_utf8(name);
    let pb = encode_utf8(pwd);
    let bytes = cookie_payload(name, pwd);
    codec::lemma_decode_encode(bytes);
    assert(bytes[ub.len() as int] == 58);
    lemma_colon_pos_at(bytes, ub.len() as int, 0);
    assert(bytes.subrange(0, ub.len() as int) =~= ub);
    assert(bytes.subrange(ub.len() as int + 1, bytes.len() as int) =~= pb);
    vstd::utf8::encode_utf8_valid_utf8(name);
    vstd::utf8::encode_utf8_valid_utf8(pwd);
    vstd::utf8::encode_utf8_decode_utf8(name);
    vstd::utf8::encode_utf8_decode_utf8(pwd);
}

} // verus!
