//! Small cryptographic helpers: AES-256-GCM sealing with a random nonce
//! prepended to the ciphertext, key loading, and constant-time comparison.
use vstd::prelude::*;
use base64::Engine as _;
use aes_gcm::aead::{Aead as _, KeyInit as _};
use crate::text::{trim, trimmed, join2, to_decimal, decimal};

pub mod cache;

verus! {

/// Length of the random nonce prepended to every sealed blob.
pub const NONCE_LEN: usize = 12;

/// Length of an AES-256 key.
pub const KEY_LEN: usize = 32;

/// Largest plaintext AES-GCM encrypts (2^36 bytes).
pub const PLAINTEXT_MAX: u64 = 0x10_0000_0000;

/// A base64 decoding failure.
#[verifier::external_type_specification]
#[verifier::external_body]
pub struct ExDecodeError(base64::DecodeError);

/// An I/O failure.
#[verifier::external_type_specification]
#[verifier::external_body]
pub struct ExIoError(std::io::Error);

/// Errors from sealing/opening and key loading.
#[derive(Debug)]
pub enum SecretsError {
    /// AEAD authentication / decryption failed (wrong key or tampered data).
    Decrypt,
    /// Sealed blob is too short to contain a nonce.
    Malformed(&'static str),
    /// Key material was not exactly 32 bytes.
    KeyLength(usize),
    /// Base64 decode failure.
    Base64(base64::DecodeError),
    /// I/O error reading a key file.
    Io(std::io::Error),
}

/// `format!("{e}")`: the `Display` text of a base64 decoding error. The text
/// is base64's and is not stated.
#[verifier::external_body]
fn decode_error_text(e: &base64::DecodeError) -> String {
    format!("{e}")
}

/// `format!("{e}")`: the `Display` text of an I/O error. The text is std's
/// and is not stated.
#[verifier::external_body]
fn io_error_text(e: &std::io::Error) -> String {
    format!("{e}")
}

impl SecretsError {
    /// The human-readable message. The texts of base64 and I/O errors come
    /// from those errors and are not stated; their prefixes are.
    pub fn to_string(&self) -> (r: String)
        ensures
            self is Decrypt ==> r@ == "decryption failed (wrong key or corrupted ciphertext)"@,
            self matches SecretsError::Malformed(what) ==> r@ == "malformed sealed data: "@ + what@,
            self matches SecretsError::KeyLength(n) ==> r@ == "invalid key length: expected 32 bytes, got "@
                + decimal(n as nat),
            self is Base64 ==> exists|t: Seq<char>| r@ == "base64 decode: "@ + t,
            self is Io ==> exists|t: Seq<char>| r@ == "io: "@ + t,
    {
        match self {
            SecretsError::Decrypt => String::from_str("decryption failed (wrong key or corrupted ciphertext)"),
            SecretsError::Malformed(what) => join2("malformed sealed data: ", what),
            SecretsError::KeyLength(n) => {
                let d = to_decimal(*n as u64);
                join2("invalid key length: expected 32 bytes, got ", d.as_str())
            },
            SecretsError::Base64(e) => {
                let t = decode_error_text(e);
                join2("base64 decode: ", t.as_str())
            },
            SecretsError::Io(e) => {
                let t = io_error_text(e);
                join2("io: ", t.as_str())
            },
        }
    }
}

/// A 256-bit AES-GCM key.
#[derive(Clone)]
pub struct SealingKey([u8; 32]);

/// The AES-256-GCM encryption of `plaintext` under `key` and `nonce`, with no
/// associated data: the ciphertext followed by the 16-byte tag.
pub uninterp spec fn aes256gcm_seal_of(key: Seq<u8>, nonce: Seq<u8>, plaintext: Seq<u8>) -> Seq<u8>;

/// The AES-256-GCM decryption of `ciphertext` (ciphertext followed by tag)
/// under `key` and `nonce`, with no associated data: `None` when the tag does
/// not authenticate.
pub uninterp spec fn aes256gcm_open_of(key: Seq<u8>, nonce: Seq<u8>, ciphertext: Seq<u8>) -> Option<Seq<u8>>;

/// The bytes that the standard-alphabet, padded base64 text `text` decodes to,
/// or `None` when it is not valid base64.
pub uninterp spec fn base64_decode_of(text: Seq<char>) -> Option<Seq<u8>>;

/// `Aes256Gcm::new(key).encrypt(nonce, plaintext)` from aes-gcm. The result
/// is named by `aes256gcm_seal_of`; its length is the plaintext's plus the
/// 16-byte tag. The call fails only for plaintexts over 2^36 bytes, which the
/// precondition rules out.
#[verifier::external_body]
fn aes256gcm_encrypt(key: &[u8; 32], nonce: &[u8; 12], plaintext: &[u8]) -> (r: Vec<u8>)
    requires
        plaintext@.len() <= PLAINTEXT_MAX,
    ensures
        r@ == aes256gcm_seal_of(key@, nonce@, plaintext@),
        r@.len() == plaintext@.len() + 16,
{
    aes_gcm::Aes256Gcm::new(aes_gcm::Key::<aes_gcm::Aes256Gcm>::from_slice(key))
        .encrypt(aes_gcm::Nonce::from_slice(nonce), plaintext)
        .expect("AES-256-GCM encryption is infallible for valid inputs")
}

/// `Aes256Gcm::new(key).decrypt(nonce, ciphertext)` from aes-gcm, with the
/// error mapped to `None`. The result is named by `aes256gcm_open_of`; as for
/// any AEAD, decrypting what encryption produced under the same key and nonce
/// gives the plaintext back.
#[verifier::external_body]
fn aes256gcm_decrypt(key: &[u8; 32], nonce: &[u8; 12], ciphertext: &[u8]) -> (r: Option<Vec<u8>>)
    ensures
        r is Some <==> aes256gcm_open_of(key@, nonce@, ciphertext@) is Some,
        r is Some ==> r->0@ == aes256gcm_open_of(key@, nonce@, ciphertext@)->0,
        forall|p: Seq<u8>|
            p.len() <= PLAINTEXT_MAX && ciphertext@ == #[trigger] aes256gcm_seal_of(key@, nonce@, p)
                ==> r is Some && r->0@ == p,
{
    aes_gcm::Aes256Gcm::new(aes_gcm::Key::<aes_gcm::Aes256Gcm>::from_slice(key))
        .decrypt(aes_gcm::Nonce::from_slice(nonce), ciphertext)
        .ok()
}

/// `rand::random()`: a fresh nonce. Nothing is promised of its bytes.
#[verifier::external_body]
fn random_nonce() -> [u8; 12] {
    rand::random()
}

/// `base64::engine::general_purpose::STANDARD.decode(text)`. The result is
/// named by `base64_decode_of`; what the error carries is not stated.
#[verifier::external_body]
fn base64_decode(text: &str) -> (r: Result<Vec<u8>, base64::DecodeError>)
    ensures
        r is Ok <==> base64_decode_of(text@) is Some,
        r is Ok ==> r->Ok_0@ == base64_decode_of(text@)->0,
{
    base64::engine::general_purpose::STANDARD.decode(text)
}

impl SealingKey {
    /// The key's bytes.
    pub closed spec fn bytes(&self) -> Seq<u8> {
        self.0@
    }

    /// Construct from raw 32 bytes.
    pub fn from_bytes(bytes: [u8; 32]) -> (k: SealingKey)
        ensures
            k.bytes() == bytes@,
    {
        SealingKey(bytes)
    }

    /// Construct from a base64 (standard alphabet) text of 32 bytes, ignoring
    /// surrounding white space.
    pub fn from_base64(s: &str) -> (r: Result<SealingKey, SecretsError>)
        ensures
            match base64_decode_of(trimmed(s@)) {
                None => r matches Err(SecretsError::Base64(_)),
                Some(bytes) => if bytes.len() == 32 {
                    r matches Ok(k) && k.bytes() == bytes
                } else {
                    r matches Err(SecretsError::KeyLength(n)) && n == bytes.len()
                },
            },
    {
        let bytes = match base64_decode(trim(s)) {
            Ok(b) => b,
            Err(e) => return Err(SecretsError::Base64(e)),
        };
        Self::from_slice(&bytes)
    }

    /// Construct from key material that must be exactly 32 bytes long.
    pub fn from_slice(bytes: &[u8]) -> (r: Result<SealingKey, SecretsError>)
        ensures
            bytes@.len() == 32 ==> (r matches Ok(k) && k.bytes() == bytes@),
            bytes@.len() != 32 ==> (r matches Err(SecretsError::KeyLength(n)) && n == bytes@.len()),
    {
        let len = bytes.len();
        if len != KEY_LEN {
            return Err(SecretsError::KeyLength(len));
        }
        let mut arr = [0u8; 32];
        let mut i: usize = 0;
        while i < 32
            invariant
                len == 32,
                bytes@.len() == 32,
                i <= 32,
                arr@.len() == 32,
                forall|j: int| 0 <= j < i ==> arr@[j] == bytes@[j],
            decreases 32 - i,
        {
            arr[i] = bytes[i];
            i = i + 1;
        }
        assert(arr@ =~= bytes@);
        Ok(SealingKey(arr))
    }
}

/// Encrypt `plaintext` under `key` with the given nonce: `nonce || ciphertext`.
pub fn seal_with_nonce(key: &SealingKey, nonce: &[u8; 12], plaintext: &[u8]) -> (r: Vec<u8>)
    requires
        plaintext@.len() <= PLAINTEXT_MAX,
    ensures
        r@ == nonce@ + aes256gcm_seal_of(key.bytes(), nonce@, plaintext@),
        r@.len() == 12 + plaintext@.len() + 16,
{
    let mut ciphertext = aes256gcm_encrypt(&key.0, nonce, plaintext);
    let mut out: Vec<u8> = Vec::new();
    let mut i: usize = 0;
    while i < NONCE_LEN
        invariant
            i <= 12,
            nonce@.len() == 12,
            out@ == nonce@.subrange(0, i as int),
        decreases 12 - i,
    {
        out.push(nonce[i]);
        assert(out@ =~= nonce@.subrange(0, i + 1));
        i = i + 1;
    }
    assert(nonce@.subrange(0, 12) =~= nonce@);
    out.append(&mut ciphertext);
    out
}

/// Encrypt `plaintext` with AES-256-GCM under a fresh random nonce. Output is
/// `nonce(12) || ciphertext`, where the ciphertext (with its tag) is the
/// encryption of `plaintext` under `key` and that nonce.
pub fn seal(key: &SealingKey, plaintext: &[u8]) -> (r: Vec<u8>)
    requires
        plaintext@.len() <= PLAINTEXT_MAX,
    ensures
        r@.len() == 12 + plaintext@.len() + 16,
        r@.subrange(12, r@.len() as int) == aes256gcm_seal_of(
            key.bytes(),
            r@.subrange(0, 12),
            plaintext@,
        ),
{
    let nonce = random_nonce();
    let r = seal_with_nonce(key, &nonce, plaintext);
    proof {
        assert(r@.subrange(0, 12) =~= nonce@);
        assert(r@.subrange(12, r@.len() as int) =~= aes256gcm_seal_of(key.bytes(), nonce@, plaintext@));
    }
    r
}

/// Decrypt a `nonce(12) || ciphertext` blob produced by [`seal`]: a blob
/// shorter than a nonce is malformed; otherwise the result is the AEAD
/// decryption, or `Decrypt` when the tag does not authenticate. Opening what
/// `seal` produced under the same key gives the plaintext back.
pub fn open(key: &SealingKey, sealed: &[u8]) -> (r: Result<Vec<u8>, SecretsError>)
    ensures
        sealed@.len() < 12 ==> (r matches Err(SecretsError::Malformed(what)) && what@
            == "shorter than nonce"@),
        sealed@.len() >= 12 ==> match aes256gcm_open_of(
            key.bytes(),
            sealed@.subrange(0, 12),
            sealed@.subrange(12, sealed@.len() as int),
        ) {
            Some(p) => r matches Ok(v) && v@ == p,
            None => r matches Err(SecretsError::Decrypt),
        },
        forall|p: Seq<u8>|
            p.len() <= PLAINTEXT_MAX && sealed@.len() >= 12 && sealed@.subrange(12, sealed@.len() as int)
                == #[trigger] aes256gcm_seal_of(key.bytes(), sealed@.subrange(0, 12), p) ==> (r matches Ok(v) && v@ == p),
{
    if sealed.len() < NONCE_LEN {
        return Err(SecretsError::Malformed("shorter than nonce"));
    }
    let (nonce_part, ciphertext) = sealed.split_at(NONCE_LEN);
    let mut nonce = [0u8; 12];
    let mut i: usize = 0;
    while i < NONCE_LEN
        invariant
            i <= 12,
            nonce_part@.len() == 12,
            nonce@.len() == 12,
            forall|j: int| 0 <= j < i ==> nonce@[j] == nonce_part@[j],
        decreases 12 - i,
    {
        nonce[i] = nonce_part[i];
        i = i + 1;
    }
    assert(nonce@ =~= sealed@.subrange(0, 12));
    match aes256gcm_decrypt(&key.0, &nonce, ciphertext) {
        Some(p) => Ok(p),
        None => Err(SecretsError::Decrypt),
    }
}

/// Length-checked constant-time equality. Use for comparing secret tokens /
/// HMAC tags so the comparison time doesn't leak how many bytes matched.
pub fn constant_time_eq(a: &[u8], b: &[u8]) -> (r: bool)
    ensures
        r == (a@ == b@),
{
    if a.len() != b.len() {
        return false;
    }
    let mut diff: u8 = 0;
    let mut i: usize = 0;
    while i < a.len()
        invariant
            a.len() == b.len(),
            i <= a.len(),
            (diff == 0) <==> (forall|j: int| 0 <= j < i ==> a@[j] == b@[j]),
        decreases a.len() - i,
    {
        let x = a[i];
        let y = b[i];
        let d0 = diff;
        diff = diff | (x ^ y);
        assert((d0 | (x ^ y)) == 0 <==> (d0 == 0 && x == y)) by (bit_vector);
        i = i + 1;
    }
    proof {
        if diff == 0 {
            assert(a@ =~= b@);
        }
    }
    diff == 0
}

} // verus!
