use silamoney::address::checksum;
use sha3::Digest;
use silamoney::hash::hash_message;

#[test]
fn hash_of_empty_message_is_keccak256() {
    assert_eq!(
        hex::encode(hash_message("")),
        "c5d2460186f7233c927e7db2dcc703c0e500b653ca82273b7bfad8045d85a470"
    );
}

#[test]
fn hash_of_abc_is_keccak256() {
    assert_eq!(
        hex::encode(hash_message("abc")),
        "4e03657aea45a94fc7d47ba826c8d667c0d1e6e33a64a036ec44f58fa12d6c45"
    );
}

#[test]
fn hash_is_not_standard_sha3() {
    assert_ne!(
        hex::encode(hash_message("")),
        "a7ffc6f8bf1ed76651c14756a061d662f580ff4de43b49fa82d80a4b80f8434a"
    );
}

#[test]
fn hash_is_of_the_utf8_bytes() {
    let message = "{\"name\":\"Zoë\",\"note\":\"日本\"}";
    let mut hasher = sha3::Keccak256::new();
    hasher.update(message.as_bytes());
    let expected: [u8; 32] = hasher.finalize().into();
    assert_eq!(hash_message(message), expected);
}

#[test]
fn hashing_twice_gives_the_same_digest() {
    let message = "{\"header\":{\"reference\":\"x\"},\"amount\":100}";
    assert_eq!(hash_message(message), hash_message(message));
    let copy = message.to_string();
    assert_eq!(hash_message(message), hash_message(&copy));
}

#[test]
fn different_messages_have_different_digests() {
    assert_ne!(hash_message("{\"amount\":100}"), hash_message("{\"amount\":101}"));
}

#[test]
fn checksum_gives_mixed_case_form() {
    assert_eq!(
        checksum("0xe0fc04fa2d34a66b779fd5cee748268032a146c0"),
        "0xe0FC04FA2d34a66B779fd5CEe748268032a146c0"
    );
    assert_eq!(
        checksum("0xE0FC04FA2D34A66B779FD5CEE748268032A146C0"),
        "0xe0FC04FA2d34a66B779fd5CEe748268032a146c0"
    );
}

#[test]
fn checksum_takes_an_address_without_prefix() {
    assert_eq!(
        checksum("e0fc04fa2d34a66b779fd5cee748268032a146c0"),
        "0xe0FC04FA2d34a66B779fd5CEe748268032a146c0"
    );
}
