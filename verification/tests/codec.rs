//! Tests for the URL-safe base64 codec and the identifier text form.

use base64::Engine;
use sxfs::codec::{decode, encode, DecodeError};
use sxfs::id::ID;

#[test]
fn encode_known_values() {
    assert_eq!(encode(b""), "");
    assert_eq!(encode(b"Man"), "TWFu");
    assert_eq!(encode(b"Ma"), "TWE");
    assert_eq!(encode(b"M"), "TQ");
    assert_eq!(encode(&[0u8]), "AA");
    assert_eq!(encode(&[255u8, 255, 255]), "____");
    assert_eq!(encode(&[251u8, 239]), "--8");
}

#[test]
fn decode_known_values() {
    assert_eq!(decode("TWFu").unwrap(), b"Man".to_vec());
    assert_eq!(decode("TWE").unwrap(), b"Ma".to_vec());
    assert_eq!(decode("TQ").unwrap(), b"M".to_vec());
    assert_eq!(decode("").unwrap(), Vec::<u8>::new());
}

#[test]
fn decode_rejects_bad_characters() {
    assert_eq!(decode("not-base64!!"), Err(DecodeError::Malformed));
    assert_eq!(decode("TW=u"), Err(DecodeError::Malformed));
    assert_eq!(decode("a b"), Err(DecodeError::Malformed));
}

#[test]
fn decode_rejects_bad_lengths() {
    assert_eq!(decode("A"), Err(DecodeError::InvalidLength));
    assert_eq!(decode("AAAAB"), Err(DecodeError::InvalidLength));
}

#[test]
fn decode_rejects_nonzero_padding_bits() {
    // "TR": the trailing group leaves 4 bits that must be zero; 'R' sets one.
    assert_eq!(decode("TR"), Err(DecodeError::Malformed));
    assert_eq!(decode("TWF5x"), Err(DecodeError::InvalidLength));
}

#[test]
fn encode_matches_reference_implementation() {
    let reference = base64::engine::general_purpose::URL_SAFE_NO_PAD;
    let mut data: Vec<u8> = Vec::new();
    let mut x: u8 = 7;
    for len in 0..60usize {
        data.truncate(0);
        for i in 0..len {
            x = x.wrapping_mul(31).wrapping_add(i as u8).wrapping_add(13);
            data.push(x);
        }
        let ours = encode(&data);
        let theirs = reference.encode(&data);
        assert_eq!(ours, theirs);
        assert_eq!(decode(&ours).unwrap(), data);
        assert_eq!(reference.decode(&ours).unwrap(), data);
    }
}

#[test]
fn valid_text_reencodes_to_itself() {
    for text in ["", "TQ", "TWE", "TWFu", "AA", "--8", "____", "a-zA-Z0-9_w"] {
        let bytes = decode(text).unwrap();
        assert_eq!(encode(&bytes), text);
    }
}

#[test]
fn id_round_trip() {
    for _ in 0..200 {
        let id = ID::new();
        let text = id.encode();
        assert_eq!(text.len(), 22);
        let back = ID::decode(&text).unwrap();
        assert_eq!(back, id);
    }
}

#[test]
fn id_decode_rejects_garbage() {
    assert_eq!(ID::decode("not-base64!!"), Err(DecodeError::Malformed));
    let id = ID::new();
    let mut text = id.encode();
    text.push('A');
    assert_eq!(ID::decode(&text), Err(DecodeError::InvalidLength));
}

#[test]
fn id_decode_rejects_wrong_decoded_length() {
    // 23 valid characters decode to 17 bytes, one too many.
    assert_eq!(
        ID::decode("AAAAAAAAAAAAAAAAAAAAAAA"),
        Err(DecodeError::InvalidLength)
    );
    // 21 characters can never be an unpadded encoding.
    assert_eq!(
        ID::decode("AAAAAAAAAAAAAAAAAAAAA"),
        Err(DecodeError::InvalidLength)
    );
    // 20 valid characters decode to 15 bytes, one too few.
    assert_eq!(
        ID::decode("AAAAAAAAAAAAAAAAAAAA"),
        Err(DecodeError::InvalidLength)
    );
}

#[test]
fn id_from_bytes_encodes_exactly() {
    let id = ID::from_bytes([0u8; 16]);
    assert_eq!(id.encode(), "AAAAAAAAAAAAAAAAAAAAAA");
    let id = ID::from_bytes([0xffu8; 16]);
    assert_eq!(id.encode(), "_____________________w");
    let back = ID::decode("_____________________w").unwrap();
    assert_eq!(back, id);
}
