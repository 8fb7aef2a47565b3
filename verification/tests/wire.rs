use protos::message::ProtoMessage;
use protos::messages::{CreateCartItemRequest, GetUserRequest};
use protos::wire::{i64_of_u64, put_fixed64, read_fixed64, u64_of_i64};

#[test]
fn varint_bytes() {
    let m = CreateCartItemRequest { user_id: 1, product_id: 300, quantity: i64::MAX };
    assert_eq!(
        m.encode_to_vec(),
        vec![0x08, 0x01, 0x10, 0xac, 0x02, 0x18, 0xff, 0xff, 0xff, 0xff, 0xff, 0xff, 0xff, 0xff, 0x7f]
    );
    assert_eq!(m.encoded_len(), 15);
}

#[test]
fn largest_field_number_key_is_rejected_for_unknown_wire_type() {
    // key with wire type 7
    assert!(GetUserRequest::decode(&[0x0f, 0x00]).is_err());
}

#[test]
fn five_byte_key_of_unknown_field_is_skipped() {
    // field number 2^29 - 1, wire type varint, value 0, then field 1 = 3
    let bytes = [0xf8, 0xff, 0xff, 0xff, 0x0f, 0x00, 0x08, 0x03];
    assert_eq!(GetUserRequest::decode(&bytes).unwrap().user_id, 3);
}

#[test]
fn key_above_32_bits_is_an_error() {
    let bytes = [0x80, 0x80, 0x80, 0x80, 0x10, 0x00];
    assert!(GetUserRequest::decode(&bytes).is_err());
}

#[test]
fn fixed64_little_endian() {
    let mut buf = Vec::new();
    put_fixed64(0x0102_0304_0506_0708, &mut buf);
    assert_eq!(buf, vec![8, 7, 6, 5, 4, 3, 2, 1]);
    assert_eq!(read_fixed64(&buf), 0x0102_0304_0506_0708);
    buf.extend([0xaa, 0xbb]);
    assert_eq!(read_fixed64(&buf), 0x0102_0304_0506_0708);
}

#[test]
fn twos_complement() {
    assert_eq!(u64_of_i64(-1), u64::MAX);
    assert_eq!(u64_of_i64(5), 5);
    assert_eq!(u64_of_i64(i64::MIN), 1 << 63);
    assert_eq!(i64_of_u64(u64::MAX), -1);
    assert_eq!(i64_of_u64(1 << 63), i64::MIN);
    assert_eq!(i64_of_u64(7), 7);
}

#[test]
fn group_with_other_end_tag_is_an_error() {
    // field 3 group, holding field 1, closed by end-group of field 4
    assert!(GetUserRequest::decode(&[0x1b, 0x08, 0x01, 0x24]).is_err());
}

#[test]
fn fixed32_and_fixed64_unknown_fields_need_their_bytes() {
    assert!(GetUserRequest::decode(&[0x15, 1, 2, 3]).is_err());
    assert!(GetUserRequest::decode(&[0x11, 1, 2, 3, 4, 5, 6, 7]).is_err());
    assert_eq!(GetUserRequest::decode(&[0x15, 1, 2, 3, 4]).unwrap().user_id, 0);
}
