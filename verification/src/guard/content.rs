//! Guard for reading the content-length header of a request.

use vstd::prelude::*;

verus! {

/// The content length a request announced, in bytes.
#[derive(Debug, Clone, Copy, PartialEq, Eq, Structural)]
pub struct ContentLength(pub usize);

/// The numeric value of a digit string, most significant digit first.
pub open spec fn dec_value(s: Seq<char>) -> int
    decreases s.len(),
{
    if s.len() == 0 {
        0
    } else {
        dec_value(s.drop_last()) * 10 + (s.last() as int - 48)
    }
}

/// A non-empty string of decimal digits.
pub open spec fn is_dec_digits(s: Seq<char>) -> bool {
    s.len() > 0 && forall|i: int| 0 <= i < s.len() ==> 48 <= (#[trigger] s[i]) as int <= 57
}

/// A digit string's value never shrinks as digits are appended.
proof fn lemma_dec_value_grows(s: Seq<char>, i: int)
    requires
        0 <= i <= s.len(),
        forall|j: int| 0 <= j < s.len() ==> 48 <= (#[trigger] s[j]) as int <= 57,
    ensures
        0 <= dec_value(s.subrange(0, i)) <= dec_value(s),
    decreases s.len() - i,
{
    if i == s.len() {
        assert(s.subrange(0, i) =~= s);
        lemma_dec_value_nonneg(s);
    } else {
        lemma_dec_value_grows(s, i + 1);
        let t = s.subrange(0, i + 1);
        assert(t.drop_last() =~= s.subrange(0, i));
        lemma_dec_value_nonneg(s.subrange(0, i));
    }
}

/// A digit string's value is never negative.
proof fn lemma_dec_value_nonneg(s: Seq<char>)
    requires
        forall|j: int| 0 <= j < s.len() ==> 48 <= (#[trigger] s[j]) as int <= 57,
    ensures
        dec_value(s) >= 0,
    decreases s.len(),
{
    if s.len() > 0 {
        lemma_dec_value_nonneg(s.drop_last());
    }
}

/// Parse a content-length header value: decimal digits only, rejecting the
/// empty string, other characters, and values that do not fit the
/// machine's size type.
pub fn parse_content_length(s: &str) -> (r: Option<ContentLength>)
    ensures
        match r {
            Some(c) => is_dec_digits(s@) && c.0 as int == dec_value(s@),
            None => !is_dec_digits(s@) || dec_value(s@) > usize::MAX,
        },
{
    let n = s.unicode_len();
    if n == 0 {
        return None;
    }
    let mut acc: usize = 0;
    let mut i: usize = 0;
    while i < n
        invariant
            i <= n,
            n == s@.len(),
            n > 0,
            forall|j: int| 0 <= j < i ==> 48 <= (#[trigger] s@[j]) as int <= 57,
            acc as int == dec_value(s@.subrange(0, i as int)),
        decreases n - i,
    {
        let c = s.get_char(i);
        let u = c as u32;
        if !(48 <= u && u <= 57) {
            return None;
        }
        let d: usize = (u - 48) as usize;
        proof {
            assert(s@.subrange(0, i + 1).drop_last() =~= s@.subrange(0, i as int));
        }
        if acc > (usize::MAX - d) / 10 {
            proof {
                assert(10 * ((usize::MAX - d) / 10) <= usize::MAX - d);
                assert(10 * (acc as int) >= 10 * ((usize::MAX - d) / 10 + 1)) by (nonlinear_arith)
                    requires
                        acc as int >= (usize::MAX - d) / 10 + 1,
                ;
                assert(s@.subrange(0, i + 1).last() == s@[i as int]);
                assert(dec_value(s@.subrange(0, i + 1)) == 10 * (acc as int) + d);
                assert(dec_value(s@.subrange(0, i + 1)) > usize::MAX);
                if is_dec_digits(s@) {
                    lemma_dec_value_grows(s@, i + 1);
                }
            }
            return None;
        }
        proof {
            assert(10 * (acc as int) <= 10 * ((usize::MAX - d) / 10)) by (nonlinear_arith)
                requires
                    acc as int <= (usize::MAX - d) / 10,
            ;
            assert(10 * ((usize::MAX - d) / 10) <= usize::MAX - d);
        }
        acc = acc * 10 + d;
        i += 1;
    }
    proof {
        assert(s@.subrange(0, n as int) =~= s@);
    }
    Some(ContentLength(acc))
}

} // verus!
