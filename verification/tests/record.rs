use enclave::enclave::hello_string;
use enclave::record::{Item, RandDataSerializable, RAND_DATA_KEY};

#[test]
fn item_new_keeps_the_name() {
    let item = Item::new(String::from("confidential"));
    assert_eq!(item.name, "confidential");
    assert_eq!(Item::default().name, "");
}

#[test]
fn random_record_holds_the_bytes_twice() {
    let bytes: [u8; 16] = [1, 2, 3, 4, 5, 6, 7, 8, 9, 10, 11, 12, 13, 14, 15, 16];
    let data = RandDataSerializable::from_random(bytes);
    assert_eq!(data.key, 0x1234);
    assert_eq!(RAND_DATA_KEY, 0x1234);
    assert_eq!(data.rand, bytes);
    assert_eq!(data.vec, bytes.to_vec());
}

#[test]
fn default_random_record_is_zero() {
    let data = RandDataSerializable::default();
    assert_eq!(data.key, 0);
    assert_eq!(data.rand, [0u8; 16]);
    assert!(data.vec.is_empty());
}

#[test]
fn greeting_text() {
    assert_eq!(hello_string(), "This is a in-Enclave Rust string!");
}
