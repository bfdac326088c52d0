use runtime_measurer::digest::{content_hash, digest_hex, HashAlgorithm};
use runtime_measurer::error::MeasurementError;

#[test]
fn algorithm_names_are_case_insensitive() {
    assert_eq!(HashAlgorithm::from_name("sha256"), Ok(HashAlgorithm::Sha256));
    assert_eq!(HashAlgorithm::from_name("SHA256"), Ok(HashAlgorithm::Sha256));
    assert_eq!(HashAlgorithm::from_name("Sha384"), Ok(HashAlgorithm::Sha384));
}

#[test]
fn md5_is_an_unsupported_algorithm() {
    assert_eq!(
        HashAlgorithm::from_name("MD5"),
        Err(MeasurementError::UnsupportedHashAlgorithm("md5".to_string()))
    );
    assert_eq!(
        HashAlgorithm::from_lowercase_name("md5"),
        Err(MeasurementError::UnsupportedHashAlgorithm("md5".to_string()))
    );
}

#[test]
fn sha256_hex_of_abc() {
    assert_eq!(
        digest_hex(HashAlgorithm::Sha256, b"abc"),
        "ba7816bf8f01cfea414140de5dae2223b00361a396177a9cb410ff61f20015ad"
    );
}

#[test]
fn sha384_hex_of_abc() {
    assert_eq!(
        digest_hex(HashAlgorithm::Sha384, b"abc"),
        "cb00753f45a35e8bb5a03d699ac65007272c32ab0eded1631a8b605a43ff5bed8086072ba1e7cc2358baeca134c825a7"
    );
}

#[test]
fn content_hash_of_empty_file() {
    assert_eq!(
        content_hash(b""),
        "e3b0c44298fc1c149afbf4c8996fb92427ae41e4649b934ca495991b7852b855"
    );
}

#[test]
fn content_hash_differs_when_bytes_differ() {
    assert_ne!(content_hash(b"files = [\"/a\"]\n"), content_hash(b"files = [\"/a\", \"/b\"]\n"));
    assert_eq!(content_hash(b"x"), content_hash(b"x"));
}
