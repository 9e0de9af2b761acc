use ebe_nuka::message::{chat_publication, decimal_text, message_id};
use std::collections::hash_map::DefaultHasher;
use std::hash::{Hash, Hasher};

fn expected_id(data: &Vec<u8>) -> String {
    let mut hasher = DefaultHasher::new();
    data.hash(&mut hasher);
    hasher.finish().to_string()
}

#[test]
fn decimal_of_numbers() {
    assert_eq!(decimal_text(0), "0");
    assert_eq!(decimal_text(7), "7");
    assert_eq!(decimal_text(9), "9");
    assert_eq!(decimal_text(10), "10");
    assert_eq!(decimal_text(1_234_567_890), "1234567890");
    assert_eq!(decimal_text(u64::MAX), "18446744073709551615");
}

#[test]
fn message_id_is_the_hash_in_decimal() {
    for data in [Vec::new(), b"Handshake".to_vec(), vec![0], vec![0xff, 0xfe], vec![7; 1000]] {
        assert_eq!(message_id(&data), expected_id(&data));
    }
}

#[test]
fn same_data_is_the_same_message() {
    let first = b"hello".to_vec();
    let second = "hello".as_bytes().to_vec();
    assert_eq!(message_id(&first), message_id(&second));
    assert_ne!(message_id(&first), message_id(&b"hello!".to_vec()));
    assert_ne!(message_id(&vec![0]), message_id(&vec![0, 0]));
}

#[test]
fn chat_message_on_the_wire() {
    let publication = chat_publication("h\u{e9}, \u{1f600}");
    assert_eq!(publication.topic, "ebe-nuka");
    assert_eq!(publication.data, [0x68, 0xc3, 0xa9, 0x2c, 0x20, 0xf0, 0x9f, 0x98, 0x80]);
}

#[test]
fn empty_chat_message_on_the_wire() {
    let publication = chat_publication("");
    assert_eq!(publication.topic, "ebe-nuka");
    assert!(publication.data.is_empty());
}
