use mule::digest::{hash_url, to_hex};

#[test]
fn hash_is_deterministic() {
    let a = hash_url("https://example.com/a.txt");
    let b = hash_url("https://example.com/a.txt");
    assert_eq!(a, b);
}

#[test]
fn hash_known_url() {
    assert_eq!(
        hash_url("https://example.com/a.txt"),
        "e23a1e463a3d07a258a5fcdf4e5e30cd80eaa0b10aeaf7cae3ceeb4727ec598a"
    );
}

#[test]
fn hash_known_short_text() {
    assert_eq!(
        hash_url("abc"),
        "ba7816bf8f01cfea414140de5dae2223b00361a396177a9cb410ff61f20015ad"
    );
}

#[test]
fn hash_empty_text() {
    assert_eq!(
        hash_url(""),
        "e3b0c44298fc1c149afbf4c8996fb92427ae41e4649b934ca495991b7852b855"
    );
}

#[test]
fn hash_has_fixed_length_and_alphabet() {
    for url in ["", "x", "https://example.com", "ünïcode:\u{1F600}"] {
        let d = hash_url(url);
        assert_eq!(d.len(), 64);
        assert!(d.chars().all(|c| c.is_ascii_hexdigit() && !c.is_ascii_uppercase()));
    }
}

#[test]
fn hash_agrees_with_the_hash_crate() {
    for url in ["hello world", "https://example.com/a.txt", "héllo", ""] {
        let expected = format!("{:x}", <sha2::Sha256 as sha2::Digest>::digest(url.as_bytes()));
        assert_eq!(hash_url(url), expected);
    }
}

#[test]
fn hex_of_bytes() {
    assert_eq!(to_hex(&[]), "");
    assert_eq!(to_hex(&[0x00]), "00");
    assert_eq!(to_hex(&[0x00, 0x0f, 0xff]), "000fff");
    assert_eq!(to_hex(&[0xde, 0xad, 0xbe, 0xef]), "deadbeef");
}
