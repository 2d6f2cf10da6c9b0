//! System-wide identifier.

use vstd::prelude::*;

use crate::codec;
use crate::codec::DecodeError;

verus! {

/// An identifier for a unit in the system: 16 raw bytes from a
/// cryptographically strong random source. In URLs and API responses it
/// travels as its 22-character unpadded URL-safe base64 encoding.
#[derive(Debug, Clone, Copy)]
pub struct ID {
    bytes: [u8; 16],
}

impl View for ID {
    type V = Seq<u8>;

    closed spec fn view(&self) -> Seq<u8> {
        self.bytes@
    }
}

/// The 16 bytes of a UUID, a function of the UUID value alone.
pub uninterp spec fn uuid_bytes(u: uuid::Uuid) -> Seq<u8>;

#[verifier::external_type_specification]
#[verifier::external_body]
pub struct ExUuid(uuid::Uuid);

impl ID {
    /// Create a new random id.
    ///
    /// Relies on `uuid::Uuid::new_v4`: 16 bytes drawn from the operating
    /// system's cryptographically secure random source. Nothing can be
    /// promised of their values.
    #[verifier::external_body]
    pub fn new() -> (r: ID)
        ensures
            r@.len() == 16,
    {
        ID { bytes: *uuid::Uuid::new_v4().as_bytes() }
    }

    /// Create an id from an existing UUID.
    ///
    /// Relies on `uuid::Uuid::as_bytes`: returns the UUID's 16 bytes in
    /// big-endian field order, a function of the UUID value alone.
    #[verifier::external_body]
    pub fn from(uuid: uuid::Uuid) -> (r: ID)
        ensures
            r@ == uuid_bytes(uuid),
            r@.len() == 16,
    {
        ID { bytes: *uuid.as_bytes() }
    }

    /// Create an id from 16 raw bytes.
    pub fn from_bytes(bytes: [u8; 16]) -> (r: ID)
        ensures
            r@ == bytes@,
    {
        ID { bytes }
    }

    /// The raw 16 bytes of this id.
    pub fn as_bytes(&self) -> (r: &[u8; 16])
        ensures
            r@ == self@,
    {
        &self.bytes
    }

    /// The fixed 22-character URL-safe text form of this id.
    pub fn encode(&self) -> (r: String)
        ensures
            r@ == codec::encode_b64(self@),
            r@.len() == 22,
            codec::valid_b64(r@),
    {
        proof {
            codec::lemma_decode_encode(self@);
        }
        codec::encode(self.bytes.as_slice())
    }

    /// Parse an id back out of its text form.
    pub fn decode(s: &str) -> (r: Result<ID, DecodeError>)
        ensures
            match r {
                Ok(id) => id_decode_result(s@) == Ok::<Seq<u8>, DecodeError>(id@),
                Err(e) => id_decode_result(s@) == Err::<Seq<u8>, DecodeError>(e),
            },
    {
        let v = match codec::decode(s) {
            Ok(v) => v,
            Err(e) => {
                return Err(e);
            },
        };
        if v.len() != 16 {
            return Err(DecodeError::InvalidLength);
        }
        let mut bytes = [0u8; 16];
        let mut i: usize = 0;
        while i < 16
            invariant
                i <= 16,
                v@.len() == 16,
                forall|j: int| 0 <= j < i ==> bytes@[j] == v@[j],
            decreases 16 - i,
        {
            bytes[i] = v[i];
            i += 1;
        }
        proof {
            assert(bytes@ =~= v@);
        }
        Ok(ID { bytes })
    }
}

/// What `ID::decode` returns on a given text: the decoded bytes when they
/// are exactly 16, the codec's error otherwise.
pub open spec fn id_decode_result(s: Seq<char>) -> Result<Seq<u8>, DecodeError> {
    match codec::decode_result(s) {
        Ok(b) => if b.len() == 16 {
            Ok(b)
        } else {
            Err(DecodeError::InvalidLength)
        },
        Err(e) => Err(e),
    }
}

impl PartialEq for ID {
    fn eq(&self, other: &ID) -> (r: bool) {
        let mut i: usize = 0;
        while i < 16
            invariant
                i <= 16,
                forall|j: int| 0 <= j < i ==> self.bytes@[j] == other.bytes@[j],
            decreases 16 - i,
        {
            if self.bytes[i] != other.bytes[i] {
                return false;
            }
            i += 1;
        }
        proof {
            assert(self.bytes@ =~= other.bytes@);
        }
        true
    }
}

impl vstd::std_specs::cmp::PartialEqSpecImpl for ID {
    open spec fn obeys_eq_spec() -> bool {
        true
    }

    open spec fn eq_spec(&self, other: &ID) -> bool {
        self@ == other@
    }
}

impl Default for ID {
    /// The all-zero id.
    fn default() -> (r: ID)
        ensures
            r@ =~= Seq::new(16, |i: int| 0u8),
    {
        ID { bytes: [0u8;16] }
    }
}

/// Law: decoding inverts encoding — every 16-byte id's text form decodes to
/// exactly the id.
pub proof fn lemma_id_round_trip(b: Seq<u8>)
    requires
        b.len() == 16,
    ensures
        id_decode_result(codec::encode_b64(b)) == Ok::<Seq<u8>, DecodeError>(b),
{
    codec::lemma_decode_encode(b);
}

/// Law: appending any character to an id's text form makes decoding fail —
/// with `Malformed` if the character falls outside the alphabet or breaks
/// the trailing-bits rule, and with `InvalidLength` otherwise, since the
/// text then decodes to 17 bytes.
pub proof fn lemma_id_decode_rejects_appended(b: Seq<u8>, c: char)
    requires
        b.len() == 16,
    ensures
        id_decode_result(codec::encode_b64(b).push(c)) is Err,
{
    let e = codec::encode_b64(b);
    let t = e.push(c);
    codec::lemma_decode_encode(b);
    assert(e.len() == 22 && t.len() == 23);
    if codec::all_b64_chars(t) && codec::padding_bits_zero(t) {
        assert(codec::decode_result(t) == Ok::<Seq<u8>, DecodeError>(codec::decode_b64(t)));
        assert(codec::decode_b64(t).len() == 17);
    }
}

} // verus!
