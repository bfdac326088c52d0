use vstd::prelude::*;
use sha2::Digest;
use crate::error::MeasurementError;

verus! {

/// The lowercase hexadecimal digit for a value below 16.
pub open spec fn hex_digit(n: u8) -> char
    recommends
        n < 16,
{
    seq!['0', '1', '2', '3', '4', '5', '6', '7', '8', '9', 'a', 'b', 'c', 'd', 'e', 'f'][n as int]
}

/// Lowercase hex text of a byte string: two digits per byte, high nibble first.
pub open spec fn hex_lower(b: Seq<u8>) -> Seq<char>
    decreases b.len(),
{
    if b.len() == 0 {
        Seq::empty()
    } else {
        hex_lower(b.drop_last()) + seq![hex_digit(b.last() / 16), hex_digit(b.last() % 16)]
    }
}

/// Hex text has two digits per byte.
pub proof fn lemma_hex_lower_len(b: Seq<u8>)
    ensures
        hex_lower(b).len() == 2 * b.len(),
    decreases b.len(),
{
    if b.len() > 0 {
        lemma_hex_lower_len(b.drop_last());
    }
}

/// The SHA-256 digest of a byte string.
pub uninterp spec fn sha256_of(data: Seq<u8>) -> Seq<u8>;

/// The SHA-384 digest of a byte string.
pub uninterp spec fn sha384_of(data: Seq<u8>) -> Seq<u8>;

/// What `str::to_lowercase` makes of a text.
pub uninterp spec fn lower_of(s: Seq<char>) -> Seq<char>;

/// Relies on hex::encode: two lowercase hex digits per input byte, high nibble first.
#[verifier::external_body]
fn hex_encode(b: &[u8]) -> (r: String)
    ensures
        r@ == hex_lower(b@),
{
    hex::encode(b)
}

/// Relies on sha2::Sha256::digest: the 32-byte SHA-256 digest of the input.
#[verifier::external_body]
fn sha256_digest(data: &[u8]) -> (r: Vec<u8>)
    ensures
        r@ == sha256_of(data@),
        r@.len() == 32,
{
    sha2::Sha256::digest(data).to_vec()
}

/// Relies on sha2::Sha384::digest: the 48-byte SHA-384 digest of the input.
#[verifier::external_body]
fn sha384_digest(data: &[u8]) -> (r: Vec<u8>)
    ensures
        r@ == sha384_of(data@),
        r@.len() == 48,
{
    sha2::Sha384::digest(data).to_vec()
}

/// Relies on str::to_lowercase: the result depends on the characters alone.
#[verifier::external_body]
fn lowercase(s: &str) -> (r: String)
    ensures
        r@ == lower_of(s@),
{
    s.to_lowercase()
}

/// A digest algorithm that the file domain accepts.
#[derive(Debug, Clone, Copy, PartialEq, Eq)]
pub enum HashAlgorithm {
    Sha256,
    Sha384,
}

/// The algorithm named by an already lowercased identifier, if it is supported.
pub open spec fn algorithm_named(lowered: Seq<char>) -> Option<HashAlgorithm> {
    if lowered == "sha256"@ {
        Some(HashAlgorithm::Sha256)
    } else if lowered == "sha384"@ {
        Some(HashAlgorithm::Sha384)
    } else {
        None
    }
}

/// The digest of `data` under `alg`.
pub open spec fn digest_of(alg: HashAlgorithm, data: Seq<u8>) -> Seq<u8> {
    match alg {
        HashAlgorithm::Sha256 => sha256_of(data),
        HashAlgorithm::Sha384 => sha384_of(data),
    }
}

impl HashAlgorithm {
    /// Selects the algorithm for an identifier that has already been lowercased;
    /// any other identifier is an unsupported-algorithm error carrying it.
    pub fn from_lowercase_name(lowered: &str) -> (r: Result<HashAlgorithm, MeasurementError>)
        ensures
            algorithm_named(lowered@) matches Some(a) ==> r == Ok::<HashAlgorithm, MeasurementError>(a),
            algorithm_named(lowered@) is None ==> (r matches Err(MeasurementError::UnsupportedHashAlgorithm(n)) && n@ == lowered@),
    {
        let name = lowered.to_owned();
        let sha256 = "sha256".to_owned();
        let sha384 = "sha384".to_owned();
        if name == sha256 {
            Ok(HashAlgorithm::Sha256)
        } else if name == sha384 {
            Ok(HashAlgorithm::Sha384)
        } else {
            Err(MeasurementError::UnsupportedHashAlgorithm(name))
        }
    }

    /// Selects the algorithm for a configured identifier, ignoring letter case.
    pub fn from_name(name: &str) -> (r: Result<HashAlgorithm, MeasurementError>)
        ensures
            algorithm_named(lower_of(name@)) matches Some(a) ==> r == Ok::<HashAlgorithm, MeasurementError>(a),
            algorithm_named(lower_of(name@)) is None ==> (r matches Err(MeasurementError::UnsupportedHashAlgorithm(n)) && n@ == lower_of(name@)),
    {
        let lowered = lowercase(name);
        HashAlgorithm::from_lowercase_name(lowered.as_str())
    }
}

/// Lowercase hex text of the digest of `content` under `alg`.
pub fn digest_hex(alg: HashAlgorithm, content: &[u8]) -> (r: String)
    ensures
        r@ == hex_lower(digest_of(alg, content@)),
        alg is Sha256 ==> r@.len() == 64,
        alg is Sha384 ==> r@.len() == 96,
{
    let d = match alg {
        HashAlgorithm::Sha256 => sha256_digest(content),
        HashAlgorithm::Sha384 => sha384_digest(content),
    };
    let r = hex_encode(d.as_slice());
    proof {
        lemma_hex_lower_len(d@);
    }
    r
}

/// The content hash that gates configuration reloads: lowercase hex SHA-256
/// of the file's raw bytes.
pub fn content_hash(content: &[u8]) -> (r: String)
    ensures
        r@ == hex_lower(sha256_of(content@)),
        r@.len() == 64,
{
    digest_hex(HashAlgorithm::Sha256, content)
}

} // verus!
