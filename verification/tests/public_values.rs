use ivc_step::codec::{Buffer, DecodeError};
use ivc_step::values::PublicValues;

fn sample() -> PublicValues {
    PublicValues {
        vkey_hash: vec![1; 32],
        genesis_hash: vec![2; 32],
        head_hash: vec![3; 32],
        ok: true,
    }
}

#[test]
fn encode_decode_round_trip() {
    let pv = sample();
    let mut buf = Buffer::from(&pv.encode());
    let back = PublicValues::decode(&mut buf).unwrap();
    assert_eq!(back.vkey_hash, pv.vkey_hash);
    assert_eq!(back.genesis_hash, pv.genesis_hash);
    assert_eq!(back.head_hash, pv.head_hash);
    assert_eq!(back.ok, pv.ok);
    assert_eq!(buf.ptr, buf.data.len());
}

#[test]
fn decode_ignores_trailing_bytes() {
    let pv = sample();
    let mut data = pv.encode();
    let expected_end = data.len();
    data.extend_from_slice(&[9, 9, 9]);
    let mut buf = Buffer::from(&data);
    let back = PublicValues::decode(&mut buf).unwrap();
    assert_eq!(back.head_hash, pv.head_hash);
    assert_eq!(buf.ptr, expected_end);
}

#[test]
fn decode_truncated_fails() {
    let pv = sample();
    let mut data = pv.encode();
    data.pop();
    let mut buf = Buffer::from(&data);
    assert!(matches!(
        PublicValues::decode(&mut buf),
        Err(DecodeError::Truncated)
    ));
}

#[test]
fn decode_empty_fails() {
    let mut buf = Buffer::new();
    assert!(matches!(
        PublicValues::decode(&mut buf),
        Err(DecodeError::Truncated)
    ));
}

#[test]
fn decode_invalid_verdict_byte_fails() {
    let pv = sample();
    let mut data = pv.encode();
    let last = data.len() - 1;
    data[last] = 7;
    let mut buf = Buffer::from(&data);
    assert!(matches!(
        PublicValues::decode(&mut buf),
        Err(DecodeError::InvalidBool)
    ));
}

#[test]
fn layout_matches_a_field_by_field_bincode_stream() {
    let pv = sample();
    let mut stream = Vec::new();
    stream.extend_from_slice(&bincode::serialize(&pv.vkey_hash).unwrap());
    stream.extend_from_slice(&bincode::serialize(&pv.genesis_hash).unwrap());
    stream.extend_from_slice(&bincode::serialize(&pv.head_hash).unwrap());
    stream.extend_from_slice(&bincode::serialize(&pv.ok).unwrap());
    assert_eq!(pv.encode(), stream);
}

#[test]
fn duplicate_preserves_fields() {
    let pv = sample();
    let copy = pv.duplicate();
    assert_eq!(copy.vkey_hash, pv.vkey_hash);
    assert_eq!(copy.genesis_hash, pv.genesis_hash);
    assert_eq!(copy.head_hash, pv.head_hash);
    assert_eq!(copy.ok, pv.ok);
}
