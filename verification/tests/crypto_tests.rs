use poolkit::crypto::md5str;

#[test]
fn crypto_it_works() {
    println!("{}", md5str(b"hello"))
}

#[test]
fn md5str_known_digests() {
    assert_eq!(md5str(b"hello"), "5d41402abc4b2a76b9719d911017c592");
    assert_eq!(md5str(b""), "d41d8cd98f00b204e9800998ecf8427e");
}

#[test]
fn md5str_is_32_lowercase_hex_chars() {
    let d = md5str(b"some longer input with spaces and 123 digits");
    assert_eq!(d.len(), 32);
    assert!(d.chars().all(|c| c.is_ascii_hexdigit() && !c.is_ascii_uppercase()));
}
