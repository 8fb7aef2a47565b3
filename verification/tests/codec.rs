use protos::message::{ProtoList, ProtoMessage};
use protos::messages::{
    CartItemResponse, CartItemsResponse, CreateCartItemRequest, CreateProductRequest,
    GetUserRequest, ProductResponse, ProductsResponse, UpdateUserRequest,
};
use protos::record::WireError;

fn product() -> CreateProductRequest {
    CreateProductRequest {
        name: "Mug".to_string(),
        description: Some("blue".to_string()),
        price: 1.5f64.to_bits(),
        stock_quantity: Some(0),
        category_id: None,
    }
}

#[test]
fn cart_item_request_encodes_each_field_as_varint() {
    let m = CreateCartItemRequest { user_id: 1, product_id: 2, quantity: 3 };
    assert_eq!(m.encode_to_vec(), vec![0x08, 0x01, 0x10, 0x02, 0x18, 0x03]);
    assert_eq!(m.encoded_len(), 6);
}

#[test]
fn zero_plain_fields_are_not_sent() {
    let m = CreateCartItemRequest { user_id: 0, product_id: 150, quantity: 0 };
    assert_eq!(m.encode_to_vec(), vec![0x10, 0x96, 0x01]);
    let d = CreateCartItemRequest::default();
    assert!(d.encode_to_vec().is_empty());
    assert_eq!(d.encoded_len(), 0);
}

#[test]
fn negative_int64_takes_ten_bytes() {
    let m = GetUserRequest { user_id: -1 };
    assert_eq!(
        m.encode_to_vec(),
        vec![0x08, 0xff, 0xff, 0xff, 0xff, 0xff, 0xff, 0xff, 0xff, 0xff, 0x01]
    );
    let back = GetUserRequest::decode(&m.encode_to_vec()).unwrap();
    assert_eq!(back.user_id, -1);
}

#[test]
fn product_request_exact_bytes() {
    let bytes = product().encode_to_vec();
    let expected: Vec<u8> = vec![
        0x0a, 0x03, b'M', b'u', b'g', // name
        0x12, 0x04, b'b', b'l', b'u', b'e', // description
        0x19, 0, 0, 0, 0, 0, 0, 0xf8, 0x3f, // price 1.5
        0x20, 0x00, // stock_quantity Some(0)
    ];
    assert_eq!(bytes, expected);
    assert_eq!(product().encoded_len(), expected.len());
}

#[test]
fn product_request_roundtrip() {
    let m = product();
    let back = CreateProductRequest::decode(&m.encode_to_vec()).unwrap();
    assert_eq!(back.name, "Mug");
    assert_eq!(back.description.as_deref(), Some("blue"));
    assert_eq!(f64::from_bits(back.price), 1.5);
    assert_eq!(back.stock_quantity, Some(0));
    assert_eq!(back.category_id, None);
}

#[test]
fn negative_zero_price_is_not_sent_and_comes_back_positive() {
    let mut m = product();
    m.price = (-0.0f64).to_bits();
    let bytes = m.encode_to_vec();
    assert_eq!(bytes.len(), 5 + 6 + 2);
    let back = CreateProductRequest::decode(&bytes).unwrap();
    assert_eq!(back.price, 0);
}

#[test]
fn optional_empty_string_is_sent() {
    let m = UpdateUserRequest {
        user_id: 7,
        username: Some(String::new()),
        password: None,
        email: None,
        full_name: None,
        address: None,
        phone: None,
    };
    assert_eq!(m.encode_to_vec(), vec![0x08, 0x07, 0x12, 0x00]);
    let back = UpdateUserRequest::decode(&m.encode_to_vec()).unwrap();
    assert_eq!(back.username.as_deref(), Some(""));
    assert_eq!(back.password, None);
}

#[test]
fn unicode_string_roundtrip() {
    let mut m = product();
    m.name = "Tasse für Kaffee ☕".to_string();
    let bytes = m.encode_to_vec();
    assert_eq!(bytes[1] as usize, "Tasse für Kaffee ☕".len());
    assert_eq!(CreateProductRequest::decode(&bytes).unwrap().name, "Tasse für Kaffee ☕");
}

#[test]
fn later_field_replaces_earlier() {
    let bytes = [0x08, 0x05, 0x08, 0x09];
    assert_eq!(GetUserRequest::decode(&bytes).unwrap().user_id, 9);
}

#[test]
fn fields_in_any_order() {
    let bytes = [0x18, 0x03, 0x08, 0x01];
    let m = CreateCartItemRequest::decode(&bytes).unwrap();
    assert_eq!((m.user_id, m.product_id, m.quantity), (1, 0, 3));
}

#[test]
fn unknown_fields_are_skipped() {
    // field 9 varint, field 10 length-delimited, field 11 fixed32, field 12 fixed64,
    // field 13 group holding field 1 varint, then field 1.
    let bytes = [
        0x48, 0x96, 0x01, 0x52, 0x02, 0xaa, 0xbb, 0x5d, 1, 2, 3, 4, 0x61, 1, 2, 3, 4, 5, 6, 7, 8,
        0x6b, 0x08, 0x01, 0x6c, 0x08, 0x2a,
    ];
    assert_eq!(GetUserRequest::decode(&bytes).unwrap().user_id, 42);
}

#[test]
fn empty_input_gives_defaults() {
    let m = CreateProductRequest::decode(&[]).unwrap();
    assert_eq!(m.name, "");
    assert_eq!(m.description, None);
    assert_eq!(m.price, 0);
}

#[test]
fn truncated_varint_is_an_error() {
    assert_eq!(GetUserRequest::decode(&[0x08, 0x96]).unwrap_err(), WireError);
}

#[test]
fn wrong_wire_type_is_an_error() {
    // field 1 of GetUserRequest sent as length-delimited
    assert!(GetUserRequest::decode(&[0x0a, 0x00]).is_err());
    // field 3 of CreateProductRequest (double) sent as varint
    assert!(CreateProductRequest::decode(&[0x18, 0x01]).is_err());
}

#[test]
fn short_double_is_an_error() {
    assert!(CreateProductRequest::decode(&[0x19, 0, 0, 0]).is_err());
}

#[test]
fn invalid_utf8_is_an_error() {
    assert!(CreateProductRequest::decode(&[0x0a, 0x02, 0xc3, 0x28]).is_err());
}

#[test]
fn string_longer_than_input_is_an_error() {
    assert!(CreateProductRequest::decode(&[0x0a, 0x05, b'a']).is_err());
}

#[test]
fn field_number_zero_is_an_error() {
    assert!(GetUserRequest::decode(&[0x00, 0x01]).is_err());
}

#[test]
fn invalid_wire_type_is_an_error() {
    assert!(GetUserRequest::decode(&[0x0e, 0x01]).is_err());
}

#[test]
fn lone_end_group_is_an_error() {
    assert!(GetUserRequest::decode(&[0x4c]).is_err());
}

#[test]
fn eleven_byte_varint_is_an_error() {
    let bytes = [0x08, 0xff, 0xff, 0xff, 0xff, 0xff, 0xff, 0xff, 0xff, 0xff, 0x02];
    assert!(GetUserRequest::decode(&bytes).is_err());
}

#[test]
fn non_minimal_varint_is_accepted() {
    assert_eq!(GetUserRequest::decode(&[0x08, 0x81, 0x00]).unwrap().user_id, 1);
}

#[test]
fn list_encodes_each_entry_length_delimited() {
    let list = CartItemsResponse {
        items: vec![
            CartItemResponse { cart_id: 1, user_id: 2, product_id: 3, quantity: 4 },
            CartItemResponse::default(),
        ],
    };
    let bytes = list.encode_to_vec();
    assert_eq!(bytes, vec![0x0a, 0x08, 0x08, 1, 0x10, 2, 0x18, 3, 0x20, 4, 0x0a, 0x00]);
    assert_eq!(list.encoded_len(), bytes.len());
    let back = CartItemsResponse::decode(&bytes).unwrap();
    assert_eq!(back.items.len(), 2);
    assert_eq!(back.items[0].quantity, 4);
    assert_eq!(back.items[1].cart_id, 0);
}

#[test]
fn list_roundtrip_with_strings() {
    let item = ProductResponse {
        name: "Pen".to_string(),
        description: None,
        price: 2.25f64.to_bits(),
        stock_quantity: Some(10),
        category_id: Some(-3),
        product_id: 77,
    };
    let list = ProductsResponse { items: vec![item.clone(), item] };
    let back = ProductsResponse::decode(&list.encode_to_vec()).unwrap();
    assert_eq!(back.items.len(), 2);
    assert_eq!(back.items[1].name, "Pen");
    assert_eq!(back.items[1].category_id, Some(-3));
    assert_eq!(f64::from_bits(back.items[0].price), 2.25);
}

#[test]
fn empty_list_has_no_bytes() {
    let list = CartItemsResponse::default();
    assert!(list.encode_to_vec().is_empty());
    assert_eq!(CartItemsResponse::decode(&[]).unwrap().items.len(), 0);
}

#[test]
fn list_entry_with_wrong_wire_type_is_an_error() {
    assert!(CartItemsResponse::decode(&[0x08, 0x01]).is_err());
}

#[test]
fn list_entry_longer_than_input_is_an_error() {
    assert!(CartItemsResponse::decode(&[0x0a, 0x05, 0x08, 0x01]).is_err());
}

#[test]
fn list_entry_whose_field_crosses_its_end_is_an_error() {
    // entry of length 2 whose second field would need 2 more bytes
    assert!(CartItemsResponse::decode(&[0x0a, 0x02, 0x08, 0x96, 0x01]).is_err());
}

#[test]
fn list_skips_unknown_fields() {
    let bytes = [0x10, 0x05, 0x0a, 0x02, 0x08, 0x07];
    let back = CartItemsResponse::decode(&bytes).unwrap();
    assert_eq!(back.items.len(), 1);
    assert_eq!(back.items[0].cart_id, 7);
}

#[test]
fn concatenated_encodings_merge() {
    let a = CreateCartItemRequest { user_id: 1, product_id: 2, quantity: 3 };
    let b = CreateCartItemRequest { user_id: 0, product_id: 5, quantity: 0 };
    let mut bytes = a.encode_to_vec();
    bytes.extend(b.encode_to_vec());
    let m = CreateCartItemRequest::decode(&bytes).unwrap();
    assert_eq!((m.user_id, m.product_id, m.quantity), (1, 5, 3));
}

#[test]
fn merge_keeps_fields_the_second_does_not_carry() {
    let a = product();
    let b = CreateProductRequest {
        name: String::new(),
        description: None,
        price: 0,
        stock_quantity: Some(9),
        category_id: Some(4),
    };
    let mut bytes = a.encode_to_vec();
    bytes.extend(b.encode_to_vec());
    let m = CreateProductRequest::decode(&bytes).unwrap();
    assert_eq!(m.name, "Mug");
    assert_eq!(m.description.as_deref(), Some("blue"));
    assert_eq!(f64::from_bits(m.price), 1.5);
    assert_eq!(m.stock_quantity, Some(9));
    assert_eq!(m.category_id, Some(4));
}

#[test]
fn default_values_of_messages() {
    let p = CreateProductRequest::default();
    assert_eq!(p.name, "");
    assert_eq!(p.description, None);
    assert_eq!(p.price, 0);
    assert_eq!(p.stock_quantity, None);
    assert!(ProductsResponse::default().items.is_empty());
}

#[test]
fn concatenated_lists_append() {
    let a = CartItemsResponse {
        items: vec![CartItemResponse { cart_id: 1, user_id: 0, product_id: 0, quantity: 1 }],
    };
    let b = CartItemsResponse {
        items: vec![
            CartItemResponse { cart_id: 2, user_id: 0, product_id: 0, quantity: 2 },
            CartItemResponse { cart_id: 3, user_id: 0, product_id: 0, quantity: 3 },
        ],
    };
    let mut bytes = a.encode_to_vec();
    bytes.extend(b.encode_to_vec());
    let m = CartItemsResponse::decode(&bytes).unwrap();
    let ids: Vec<i64> = m.items.iter().map(|i| i.cart_id).collect();
    assert_eq!(ids, vec![1, 2, 3]);
}

/// An unknown field (number 100) holding `depth` groups, each inside the last.
fn nested_groups(depth: usize) -> Vec<u8> {
    let mut bytes = Vec::new();
    for _ in 0..depth {
        bytes.extend_from_slice(&[0xa3, 0x06]);
    }
    for _ in 0..depth {
        bytes.extend_from_slice(&[0xa4, 0x06]);
    }
    bytes
}

/// A list message whose one entry is `body`.
fn list_of_one(body: &[u8]) -> Vec<u8> {
    let mut bytes = vec![0x0a];
    let mut len = body.len();
    while len >= 0x80 {
        bytes.push((len as u8 & 0x7f) | 0x80);
        len >>= 7;
    }
    bytes.push(len as u8);
    bytes.extend_from_slice(body);
    bytes
}

#[test]
fn unknown_groups_nest_up_to_the_recursion_limit() {
    assert!(CartItemResponse::decode(&nested_groups(100)).is_ok());
    assert!(CartItemResponse::decode(&nested_groups(101)).is_err());
}

#[test]
fn unknown_groups_in_an_entry_nest_one_level_less() {
    let l = CartItemsResponse::decode(&list_of_one(&nested_groups(99))).unwrap();
    assert_eq!(l.items().len(), 1);
    let e = &l.items()[0];
    assert_eq!((e.cart_id, e.user_id, e.product_id, e.quantity), (0, 0, 0, 0));
    assert!(CartItemsResponse::decode(&list_of_one(&nested_groups(100))).is_err());
}
