//! Tools for generating ad hoc values: fresh secrets and passwords.

use vstd::prelude::*;

use rand::Rng;

use crate::codec;

verus! {

/// Fill a fresh buffer with random bytes.
///
/// Relies on `rand::rng` and `Rng::fill_bytes`: fills the whole buffer
/// from the thread-local cryptographically secure generator. Nothing can be
/// promised of the bytes' values.
#[verifier::external_body]
fn random_bytes(count: usize) -> (r: Vec<u8>)
    ensures
        r@.len() == count,
{
    let mut data = vec![0_u8; count];
    rand::rng().fill_bytes(&mut data);
    data
}

/// Generate an `chars`-character URL-safe base64 string from random bytes,
/// truncated to a multiple of 4 characters.
pub fn generate_base64(chars: usize) -> (r: String)
    ensures
        r@.len() == 4 * (chars / 4),
        codec::valid_b64(r@),
{
    let groups = chars / 4;
    proof {
        assert(groups * 3 <= usize::MAX) by (nonlinear_arith)
            requires
                groups <= usize::MAX / 4,
        ;
    }
    let bytes = random_bytes(groups * 3);
    proof {
        codec::lemma_decode_encode(bytes@);
        assert(3 * groups as int / 3 == groups as int && 3 * groups as int % 3 == 0)
            by (nonlinear_arith);
        assert(codec::encoded_len(bytes@.len()) == 4 * groups);
    }
    codec::encode(bytes.as_slice())
}

} // verus!
