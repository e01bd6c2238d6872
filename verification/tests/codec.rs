use ivc_step::codec::{Buffer, DecodeError};

/// The length-prefixed encoding of a byte string, written by hand.
fn enc_bytes(v: &[u8]) -> Vec<u8> {
    let mut out = (v.len() as u64).to_le_bytes().to_vec();
    out.extend_from_slice(v);
    out
}

#[test]
fn new_buffer_is_empty() {
    let buf = Buffer::new();
    assert_eq!(buf.data, Vec::<u8>::new());
    assert_eq!(buf.ptr, 0);
    let buf = Buffer::default();
    assert_eq!(buf.data, Vec::<u8>::new());
    assert_eq!(buf.ptr, 0);
}

#[test]
fn from_wraps_bytes_with_cursor_at_start() {
    let buf = Buffer::from(&[1, 2, 3]);
    assert_eq!(buf.data, vec![1, 2, 3]);
    assert_eq!(buf.ptr, 0);
}

#[test]
fn read_bytes_round_trip() {
    let v: Vec<u8> = vec![10, 20, 30, 40];
    let mut buf = Buffer::from(&enc_bytes(&v));
    assert_eq!(buf.read_bytes(), Ok(v));
    assert_eq!(buf.ptr, buf.data.len());
}

#[test]
fn read_bytes_empty_string() {
    let mut buf = Buffer::from(&enc_bytes(&[]));
    assert_eq!(buf.read_bytes(), Ok(vec![]));
    assert_eq!(buf.ptr, 8);
}

#[test]
fn reads_concatenated_values_in_order() {
    let v1: Vec<u8> = vec![1, 2, 3];
    let v2: Vec<u8> = vec![];
    let v3: Vec<u8> = vec![255, 0, 128];
    let mut data = enc_bytes(&v1);
    data.extend_from_slice(&enc_bytes(&v2));
    data.extend_from_slice(&enc_bytes(&v3));
    data.push(1);
    let mut buf = Buffer::from(&data);
    assert_eq!(buf.read_bytes(), Ok(v1));
    assert_eq!(buf.read_bytes(), Ok(v2));
    assert_eq!(buf.read_bytes(), Ok(v3));
    assert_eq!(buf.read_bool(), Ok(true));
    assert_eq!(buf.ptr, buf.data.len());
}

#[test]
fn read_bytes_truncated_prefix() {
    let mut buf = Buffer::from(&[0, 0, 0]);
    assert_eq!(buf.read_bytes(), Err(DecodeError::Truncated));
    assert_eq!(buf.ptr, 0);
}

#[test]
fn read_bytes_truncated_payload() {
    let mut data = enc_bytes(&[1, 2, 3, 4]);
    data.pop();
    let mut buf = Buffer::from(&data);
    assert_eq!(buf.read_bytes(), Err(DecodeError::Truncated));
    assert_eq!(buf.ptr, 0);
}

#[test]
fn read_bool_truncated() {
    let mut buf = Buffer::new();
    assert_eq!(buf.read_bool(), Err(DecodeError::Truncated));
}

#[test]
fn read_bool_values() {
    let mut buf = Buffer::from(&[0, 1]);
    assert_eq!(buf.read_bool(), Ok(false));
    assert_eq!(buf.read_bool(), Ok(true));
    assert_eq!(buf.ptr, 2);
}

#[test]
fn read_bool_invalid_byte() {
    let mut buf = Buffer::from(&[2]);
    assert_eq!(buf.read_bool(), Err(DecodeError::InvalidBool));
    assert_eq!(buf.ptr, 0);
}

#[test]
fn agrees_with_bincode_byte_string_layout() {
    let v: Vec<u8> = vec![7, 0, 9, 200];
    let encoded = bincode::serialize(&v).unwrap();
    assert_eq!(encoded, enc_bytes(&v));
    let mut buf = Buffer::from(&encoded);
    assert_eq!(buf.read_bytes(), Ok(v.clone()));
    let consumed = bincode::serialized_size(&v).unwrap();
    assert_eq!(buf.ptr as u64, consumed);
}

#[test]
fn agrees_with_bincode_bool_layout() {
    let encoded_true = bincode::serialize(&true).unwrap();
    let encoded_false = bincode::serialize(&false).unwrap();
    let mut buf = Buffer::from(&encoded_true);
    assert_eq!(buf.read_bool(), Ok(true));
    let mut buf = Buffer::from(&encoded_false);
    assert_eq!(buf.read_bool(), Ok(false));
}
