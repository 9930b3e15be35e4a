use fskit::{content_hash, to_hex_lower};

#[test]
fn hex_of_nothing_is_empty() {
    assert_eq!(to_hex_lower(&[]), "");
}

#[test]
fn hex_writes_two_lowercase_digits_per_byte() {
    assert_eq!(to_hex_lower(&[0x00]), "00");
    assert_eq!(to_hex_lower(&[0x0a, 0x14, 0x1e]), "0a141e");
    assert_eq!(to_hex_lower(&[0xff, 0xa0, 0x0b, 0x99]), "ffa00b99");
    assert_eq!(
        to_hex_lower(&[0x01, 0x23, 0x45, 0x67, 0x89, 0xab, 0xcd, 0xef]),
        "0123456789abcdef"
    );
}

#[test]
fn hex_covers_every_byte_value() {
    let all: Vec<u8> = (0..=255).collect();
    let text = to_hex_lower(&all);
    assert_eq!(text.len(), 512);
    for (i, byte) in all.iter().enumerate() {
        assert_eq!(&text[2 * i..2 * i + 2], format!("{:02x}", byte));
    }
}

#[test]
fn content_hash_of_empty_input() {
    assert_eq!(
        content_hash(b""),
        "e3b0c44298fc1c149afbf4c8996fb92427ae41e4649b934ca495991b7852b855"
    );
}

#[test]
fn content_hash_of_abc() {
    assert_eq!(
        content_hash(b"abc"),
        "ba7816bf8f01cfea414140de5dae2223b00361a396177a9cb410ff61f20015ad"
    );
}

#[test]
fn content_hash_of_hello_world() {
    assert_eq!(
        content_hash(b"hello world"),
        "b94d27b9934d3e08a52e52d7da7dabfac484efe37a5380ee9088f7ace2efcde9"
    );
}

#[test]
fn content_hash_is_not_the_hex_of_the_input() {
    let data = [7u8; 32];
    let hash = content_hash(&data);
    assert_eq!(hash.len(), 64);
    assert_ne!(hash, to_hex_lower(&data));
}
