use cargo_aur::checksum::{hex_encode, sha256sum};

#[test]
fn hexadecimal_digits() {
    assert_eq!(hex_encode(&[]), "");
    assert_eq!(hex_encode(&[0]), "00");
    assert_eq!(hex_encode(&[0x0f, 0xf0]), "0ff0");
    assert_eq!(hex_encode(&[0x01, 0x23, 0x45, 0x67, 0x89, 0xab, 0xcd, 0xef]), "0123456789abcdef");
    assert_eq!(hex_encode(&[255, 16, 9, 10]), "ff10090a");
}

#[test]
fn hexadecimal_digits_of_every_byte() {
    for byte in 0..=255u8 {
        assert_eq!(hex_encode(&[byte]), format!("{:02x}", byte));
    }
}

#[test]
fn checksum_of_nothing() {
    assert_eq!(sha256sum(b""), "e3b0c44298fc1c149afbf4c8996fb92427ae41e4649b934ca495991b7852b855");
}

#[test]
fn checksum_of_abc() {
    assert_eq!(sha256sum(b"abc"), "ba7816bf8f01cfea414140de5dae2223b00361a396177a9cb410ff61f20015ad");
}

#[test]
fn checksum_of_more_than_one_block() {
    assert_eq!(
        sha256sum(b"abcdbcdecdefdefgefghfghighijhijkijkljklmklmnlmnomnopnopq"),
        "248d6a61d20638b8e5c026930c3e6039a33ce45964ff2167f6ecedd419db06c1"
    );
    let input = vec![b'a'; 1000];
    assert_eq!(sha256sum(&input).len(), 64);
    assert_ne!(sha256sum(&input), sha256sum(&input[1..]));
}
