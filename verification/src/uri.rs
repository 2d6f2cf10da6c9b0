//! Syntactic validation of URI references: the check a uri must pass before
//! a shortened link is recorded for it.
//!
//! A text is accepted when every character may appear in a URI reference,
//! every `%` begins a complete two-digit hexadecimal escape, and, if its
//! first `:` comes before any `/`, `?` or `#`, the part before that colon is
//! a well-formed scheme.

use vstd::prelude::*;

verus! {

/// A letter.
pub open spec fn is_alpha(c: char) -> bool {
    let u = c as u32;
    (65 <= u && u <= 90) || (97 <= u && u <= 122)
}

/// A decimal digit.
pub open spec fn is_digit(c: char) -> bool {
    let u = c as u32;
    48 <= u && u <= 57
}

/// A hexadecimal digit.
pub open spec fn is_hex_digit(c: char) -> bool {
    let u = c as u32;
    is_digit(c) || (65 <= u && u <= 70) || (97 <= u && u <= 102)
}

/// An unreserved character: letter, digit, `-`, `.`, `_` or `~`.
pub open spec fn is_unreserved(c: char) -> bool {
    let u = c as u32;
    is_alpha(c) || is_digit(c) || u == 45 || u == 46 || u == 95 || u == 126
}

/// A reserved character: one of `: / ? # [ ] @ ! $ & ' ( ) * + , ; =`.
pub open spec fn is_reserved(c: char) -> bool {
    let u = c as u32;
    u == 58 || u == 47 || u == 63 || u == 35 || u == 91 || u == 93 || u == 64 || u == 33 || u == 36
        || u == 38 || u == 39 || u == 40 || u == 41 || u == 42 || u == 43 || u == 44 || u == 59
        || u == 61
}

/// A character that may appear in a URI reference at all.
pub open spec fn is_uri_char(c: char) -> bool {
    is_unreserved(c) || is_reserved(c) || c as u32 == 37
}

/// Every character may appear in a URI reference.
pub open spec fn all_uri_chars(s: Seq<char>) -> bool {
    forall|i: int| 0 <= i < s.len() ==> is_uri_char(#[trigger] s[i])
}

/// Every `%` begins a complete `%XX` escape.
pub open spec fn pct_escapes_ok(s: Seq<char>) -> bool {
    forall|i: int|
        0 <= i < s.len() && (#[trigger] s[i]) as u32 == 37 ==> i + 2 < s.len() && is_hex_digit(
            s[i + 1],
        ) && is_hex_digit(s[i + 2])
}

/// A character a scheme may contain after its first letter.
pub open spec fn is_scheme_char(c: char) -> bool {
    let u = c as u32;
    is_alpha(c) || is_digit(c) || u == 43 || u == 45 || u == 46
}

/// A character past which a colon no longer introduces a scheme.
pub open spec fn is_scheme_stop(c: char) -> bool {
    let u = c as u32;
    u == 47 || u == 63 || u == 35
}

/// The position of the first `:` of the text if it comes before any `/`,
/// `?` or `#`, else -1.
pub open spec fn scheme_colon(s: Seq<char>, i: int) -> int
    recommends
        0 <= i <= s.len(),
    decreases s.len() - i
        when 0 <= i <= s.len()
{
    if i >= s.len() {
        -1
    } else if s[i] as u32 == 58 {
        i
    } else if is_scheme_stop(s[i]) {
        -1
    } else {
        scheme_colon(s, i + 1)
    }
}

/// If the text starts with `scheme:`, the scheme is one letter followed by
/// letters, digits, `+`, `-` or `.`.
pub open spec fn scheme_ok(s: Seq<char>) -> bool {
    let k = scheme_colon(s, 0);
    k == -1 || (k >= 1 && is_alpha(s[0]) && (forall|j: int|
        0 <= j < k ==> is_scheme_char(#[trigger] s[j])))
}

/// A syntactically well-formed URI reference.
pub open spec fn is_uri_reference(s: Seq<char>) -> bool {
    all_uri_chars(s) && pct_escapes_ok(s) && scheme_ok(s)
}

/// Exec check of `is_uri_char`.
fn uri_char(c: char) -> (r: bool)
    ensures
        r == is_uri_char(c),
{
    let u = c as u32;
    (65 <= u && u <= 90) || (97 <= u && u <= 122) || (48 <= u && u <= 57) || u == 45 || u == 46
        || u == 95 || u == 126 || u == 58 || u == 47 || u == 63 || u == 35 || u == 91 || u == 93
        || u == 64 || u == 33 || u == 36 || u == 38 || u == 39 || u == 40 || u == 41 || u == 42
        || u == 43 || u == 44 || u == 59 || u == 61 || u == 37
}

/// Exec check of `is_hex_digit`.
fn hex_digit(c: char) -> (r: bool)
    ensures
        r == is_hex_digit(c),
{
    let u = c as u32;
    (48 <= u && u <= 57) || (65 <= u && u <= 70) || (97 <= u && u <= 102)
}

/// Exec check of `is_scheme_char`.
fn scheme_char(c: char) -> (r: bool)
    ensures
        r == is_scheme_char(c),
{
    let u = c as u32;
    (65 <= u && u <= 90) || (97 <= u && u <= 122) || (48 <= u && u <= 57) || u == 43 || u == 45
        || u == 46
}

/// The characters of a text, one by one.
fn chars_vec(s: &str) -> (r: Vec<char>)
    ensures
        r@ == s@,
{
    let n = s.unicode_len();
    let mut v: Vec<char> = Vec::new();
    let mut i: usize = 0;
    while i < n
        invariant
            i <= n,
            n == s@.len(),
            v@.len() == i,
            forall|j: int| 0 <= j < i ==> #[trigger] v@[j] == s@[j],
        decreases n - i,
    {
        v.push(s.get_char(i));
        i += 1;
    }
    proof {
        assert(v@ =~= s@);
    }
    v
}

/// Find the colon that would end a scheme: the first `:`, provided no `/`,
/// `?` or `#` comes before it.
fn find_scheme_colon(cs: &Vec<char>) -> (r: Option<usize>)
    ensures
        match r {
            Some(k) => k < cs@.len() && scheme_colon(cs@, 0) == k as int,
            None => scheme_colon(cs@, 0) == -1,
        },
{
    let n = cs.len();
    let mut k: usize = 0;
    while k < n
        invariant
            k <= n,
            n == cs@.len(),
            scheme_colon(cs@, 0) == scheme_colon(cs@, k as int),
        decreases n - k,
    {
        let c = cs[k];
        if c as u32 == 58 {
            return Some(k);
        }
        if c as u32 == 47 || c as u32 == 63 || c as u32 == 35 {
            return None;
        }
        k += 1;
    }
    None
}

/// Decide whether a text is a syntactically well-formed URI reference.
pub fn is_valid_uri_reference(s: &str) -> (r: bool)
    ensures
        r == is_uri_reference(s@),
{
    let cs = chars_vec(s);
    let n = cs.len();
    let mut i: usize = 0;
    while i < n
        invariant
            i <= n,
            n == cs@.len(),
            cs@ == s@,
            forall|j: int| 0 <= j < i ==> is_uri_char(#[trigger] s@[j]),
            forall|j: int|
                0 <= j < i && (#[trigger] s@[j]) as u32 == 37 ==> j + 2 < s@.len() && is_hex_digit(
                    s@[j + 1],
                ) && is_hex_digit(s@[j + 2]),
        decreases n - i,
    {
        let c = cs[i];
        if !uri_char(c) {
            return false;
        }
        if c as u32 == 37 {
            if n - i <= 2 {
                return false;
            }
            if !hex_digit(cs[i + 1]) || !hex_digit(cs[i + 2]) {
                return false;
            }
        }
        i += 1;
    }
    proof {
        assert(all_uri_chars(s@) && pct_escapes_ok(s@));
    }
    let k: usize = match find_scheme_colon(&cs) {
        None => {
            return true;
        },
        Some(k) => k,
    };
    if k == 0 {
        return false;
    }
    let c0 = cs[0];
    let u0 = c0 as u32;
    if !((65 <= u0 && u0 <= 90) || (97 <= u0 && u0 <= 122)) {
        return false;
    }
    let mut j: usize = 0;
    while j < k
        invariant
            j <= k,
            k < n,
            n == cs@.len(),
            cs@ == s@,
            scheme_colon(s@, 0) == k as int,
            1 <= k,
            is_alpha(s@[0]),
            all_uri_chars(s@),
            pct_escapes_ok(s@),
            forall|m: int| 0 <= m < j ==> is_scheme_char(#[trigger] s@[m]),
        decreases k - j,
    {
        if !scheme_char(cs[j]) {
            return false;
        }
        j += 1;
    }
    true
}

} // verus!
