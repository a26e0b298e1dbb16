use attest_gate::errors::Error;
use attest_gate::payload::derive_payload;
use attest_gate::payload::format_erc191;
use attest_gate::payload::generate_payload;

#[test]
fn framing_of_hello() {
    let framed = format_erc191(&b"hello".to_vec());
    assert_eq!(framed, b"\x19Ethereum Signed Message:\n5hello".to_vec());
}

#[test]
fn framing_of_longer_message() {
    let message: Vec<u8> = vec![7u8; 123];
    let framed = format_erc191(&message);
    let mut expected = b"\x19Ethereum Signed Message:\n123".to_vec();
    expected.extend_from_slice(&message);
    assert_eq!(framed, expected);
}

#[test]
fn keccak_of_empty_input() {
    let digest = generate_payload(&Vec::new());
    let expected =
        "c5d2460186f7233c927e7db2dcc703c0e500b653ca82273b7bfad8045d85a470";
    assert_eq!(hex::encode(digest), expected);
}

#[test]
fn keccak_of_abc() {
    let digest = generate_payload(&b"abc".to_vec());
    let expected =
        "4e03657aea45a94fc7d47ba826c8d667c0d1e6e33a64a036ec44f58fa12d6c45";
    assert_eq!(hex::encode(digest), expected);
}

#[test]
fn keccak_does_not_echo_its_input() {
    let input: Vec<u8> = vec![0u8; 32];
    let digest = generate_payload(&input);
    assert_ne!(digest.to_vec(), input);
}

#[test]
fn payload_of_abc_is_deterministic() {
    let first = derive_payload(&b"abc".to_vec()).ok().unwrap();
    let second = derive_payload(&b"abc".to_vec()).ok().unwrap();
    assert_eq!(first, second);
    assert_eq!(first.len(), 32);
}

#[test]
fn payload_matches_framed_digest() {
    let payload = derive_payload(&b"hello".to_vec()).ok().unwrap();
    let by_hand = generate_payload(&b"\x19Ethereum Signed Message:\n5hello".to_vec());
    assert_eq!(payload, by_hand);
}

#[test]
fn payload_of_empty_message_is_refused() {
    let r = derive_payload(&Vec::new());
    assert_eq!(r.err(), Some(Error::InvalidArgument));
}
