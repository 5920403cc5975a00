use cross_chain_messaging::hash::{bytes_equal, hash_message};

fn digest(text: &str) -> [u8; 32] {
    let bytes = hex::decode(text).unwrap();
    let mut out = [0u8; 32];
    out.copy_from_slice(&bytes);
    out
}

#[test]
fn hash_of_hello_is_the_sha256_digest() {
    assert_eq!(
        hash_message(b"hello"),
        digest("2cf24dba5fb0a30e26e83b2ac5b9e29e1b161e5c1fa7425e73043362938b9824")
    );
}

#[test]
fn hash_of_abc_is_the_sha256_digest() {
    assert_eq!(
        hash_message(b"abc"),
        digest("ba7816bf8f01cfea414140de5dae2223b00361a396177a9cb410ff61f20015ad")
    );
}

#[test]
fn hash_of_the_empty_message_is_well_defined() {
    assert_eq!(
        hash_message(b""),
        digest("e3b0c44298fc1c149afbf4c8996fb92427ae41e4649b934ca495991b7852b855")
    );
}

#[test]
fn hash_of_a_message_longer_than_one_block() {
    let message = [0x61u8; 1000];
    assert_eq!(
        hash_message(&message),
        digest("41edece42d63e8d9bf515a9ba6932e1c20cbc9f5a5d134645adb5db1b9737ea3")
    );
}

#[test]
fn hashing_is_deterministic() {
    let messages: [&[u8]; 4] = [b"", b"hello", b"hello world", &[0u8; 64]];
    for message in messages {
        assert_eq!(hash_message(message), hash_message(message));
        let copy = message.to_vec();
        assert_eq!(hash_message(message), hash_message(&copy));
    }
}

#[test]
fn distinct_test_vectors_have_distinct_hashes() {
    let messages: [&[u8]; 7] =
        [b"", b"a", b"b", b"hello", b"hello ", b"Hello", b"hello world"];
    for (i, first) in messages.iter().enumerate() {
        for (j, second) in messages.iter().enumerate() {
            if i != j {
                assert_ne!(hash_message(first), hash_message(second));
            }
        }
    }
}

#[test]
fn hash_is_not_the_message_itself() {
    let message = [3u8; 32];
    assert_ne!(hash_message(&message), message);
}

#[test]
fn bytes_equal_tells_equal_from_different() {
    assert!(bytes_equal(b"", b""));
    assert!(bytes_equal(b"abc", b"abc"));
    assert!(!bytes_equal(b"abc", b"abd"));
    assert!(!bytes_equal(b"abc", b"ab"));
    assert!(!bytes_equal(b"ab", b"abc"));
    assert!(!bytes_equal(b"xbc", b"abc"));
}
