use vstd::prelude::*;
use vstd::string::*;
use aes_gcm::aead::{Aead, KeyInit};
use rand::RngCore;

verus! {

/// The SHA-256 digest of a byte sequence, as `sha2::Sha256` computes it.
pub uninterp spec fn sha256(data: Seq<u8>) -> Seq<u8>;

/// The AES-256-GCM ciphertext (with its 16-byte tag appended) of
/// `plaintext` under `key` and `nonce`, without associated data, as
/// `aes_gcm::Aes256Gcm` computes it.
pub uninterp spec fn aes256_gcm_seal(key: Seq<u8>, nonce: Seq<u8>, plaintext: Seq<u8>) -> Seq<u8>;

/// What `aes_gcm::Aes256Gcm` decrypts from `ciphertext` under `key` and
/// `nonce`: the plaintext, or nothing when the tag does not authenticate.
pub uninterp spec fn aes256_gcm_open(key: Seq<u8>, nonce: Seq<u8>, ciphertext: Seq<u8>) -> Option<
    Seq<u8>,
>;

/// Length of the nonce that prefixes every stored payload.
pub const NONCE_LEN: usize = 12;

/// Length of the authentication tag that AES-GCM appends.
pub const TAG_LEN: usize = 16;

/// Largest plaintext, in bytes, that AES-GCM encrypts (2^36).
pub const MAX_PLAINTEXT_LEN: u64 = 0x10_0000_0000;

#[verifier::external_type_specification]
#[verifier::external_body]
pub struct ExAeadError(aes_gcm::Error);

#[verifier::external_type_specification]
#[verifier::external_body]
pub struct ExRandError(rand::Error);

/// Why sealing or opening a stored payload failed.
#[derive(Clone, Copy, Debug, PartialEq, Eq, Structural)]
pub enum StoreError {
    /// The operating system's random source could not supply a nonce.
    RandomSource,
    /// AES-GCM refused to encrypt (the plaintext is too long).
    Encryption,
    /// The payload is shorter than its nonce.
    PayloadTooShort,
    /// Wrong key, or the payload was tampered with.
    Decryption,
}

/// Calls `sha2::Sha256::digest`; the result is named `sha256` of the input.
#[verifier::external_body]
fn sha256_digest(data: &[u8]) -> (digest: [u8; 32])
    ensures
        digest@ == sha256(data@),
{
    <sha2::Sha256 as sha2::Digest>::digest(data).into()
}

/// Calls `Aead::encrypt` of `aes_gcm::Aes256Gcm` with no associated data.
/// It fails exactly on plaintexts longer than 2^36 bytes; otherwise the
/// result is named `aes256_gcm_seal`, is the plaintext's length plus the
/// tag, and decrypts back to the plaintext under the same key and nonce.
#[verifier::external_body]
fn gcm_encrypt(key: &[u8; 32], nonce: &[u8; 12], plaintext: &[u8]) -> (sealed: Result<
    Vec<u8>,
    aes_gcm::Error,
>)
    ensures
        sealed is Ok <==> plaintext@.len() <= MAX_PLAINTEXT_LEN,
        sealed matches Ok(c) ==> {
            &&& c@ == aes256_gcm_seal(key@, nonce@, plaintext@)
            &&& c@.len() == plaintext@.len() + TAG_LEN
            &&& aes256_gcm_open(key@, nonce@, c@) == Some(plaintext@)
        },
{
    aes_gcm::Aes256Gcm::new(key.into()).encrypt(aes_gcm::Nonce::from_slice(nonce), plaintext)
}

/// Calls `Aead::decrypt` of `aes_gcm::Aes256Gcm` with no associated data;
/// the outcome is named `aes256_gcm_open`. Inputs shorter than the tag
/// never decrypt.
#[verifier::external_body]
fn gcm_decrypt(key: &[u8; 32], nonce: &[u8], ciphertext: &[u8]) -> (opened: Result<
    Vec<u8>,
    aes_gcm::Error,
>)
    requires
        nonce@.len() == NONCE_LEN,
    ensures
        opened matches Ok(p) ==> aes256_gcm_open(key@, nonce@, ciphertext@) == Some(p@),
        opened is Err ==> aes256_gcm_open(key@, nonce@, ciphertext@) is None,
        ciphertext@.len() < TAG_LEN ==> opened is Err,
{
    aes_gcm::Aes256Gcm::new(key.into()).decrypt(aes_gcm::Nonce::from_slice(nonce), ciphertext)
}

/// Calls `RngCore::try_fill_bytes` on the operating system's random source
/// (`aead::OsRng`) for a fresh nonce. Nothing is claimed of the bytes.
#[verifier::external_body]
fn random_nonce() -> (nonce: Result<[u8; 12], rand::Error>) {
    let mut bytes = [0u8; 12];
    match aes_gcm::aead::OsRng.try_fill_bytes(&mut bytes) {
        Ok(()) => Ok(bytes),
        Err(e) => Err(e),
    }
}

/// The stored form of `plaintext` sealed under `key` with `nonce`:
/// the nonce followed by the ciphertext.
pub open spec fn sealed_payload(key: Seq<u8>, nonce: Seq<u8>, plaintext: Seq<u8>) -> Seq<u8> {
    nonce + aes256_gcm_seal(key, nonce, plaintext)
}

/// What reading a stored payload under `key` gives.
pub open spec fn opened_payload(key: Seq<u8>, payload: Seq<u8>) -> Result<Seq<u8>, StoreError> {
    if payload.len() < NONCE_LEN {
        Err(StoreError::PayloadTooShort)
    } else {
        match aes256_gcm_open(key, payload.take(NONCE_LEN as int), payload.skip(NONCE_LEN as int)) {
            Some(plaintext) => Ok(plaintext),
            None => Err(StoreError::Decryption),
        }
    }
}

/// A byte result matches a sequence result.
pub open spec fn bytes_result_is(r: Result<Vec<u8>, StoreError>, s: Result<Seq<u8>, StoreError>) -> bool {
    match (r, s) {
        (Ok(v), Ok(b)) => v@ == b,
        (Err(e), Err(f)) => e == f,
        _ => false,
    }
}

/// Encrypted storage for the serialized face profiles.
pub struct SecureFaceStore;

impl SecureFaceStore {
    /// Derive a 256-bit encryption key from a system/machine secret: the
    /// SHA-256 digest of the passphrase's UTF-8 bytes.
    pub fn derive_key(passphrase: &str) -> (key: [u8; 32])
        ensures
            key@ == sha256(passphrase.spec_bytes()),
    {
        sha256_digest(passphrase.as_bytes())
    }

    /// Seals `data` under `key` with the given `nonce` into the stored
    /// format `[12-byte nonce] ++ [ciphertext]`.
    pub fn seal_payload(data: &[u8], key: &[u8; 32], nonce: &[u8; 12]) -> (payload: Result<
        Vec<u8>,
        StoreError,
    >)
        ensures
            payload is Ok <==> data@.len() <= MAX_PLAINTEXT_LEN,
            payload matches Ok(p) ==> p@ == sealed_payload(key@, nonce@, data@),
            payload matches Ok(p) ==> p@.len() == NONCE_LEN + data@.len() + TAG_LEN,
            payload matches Ok(p) ==> opened_payload(key@, p@) == Ok::<Seq<u8>, StoreError>(data@),
            payload matches Err(e) ==> e == StoreError::Encryption,
    {
        let mut ciphertext = match gcm_encrypt(key, nonce, data) {
            Ok(c) => c,
            Err(_) => {
                return Err(StoreError::Encryption);
            },
        };
        let ghost sealed = ciphertext@;
        let mut payload: Vec<u8> = Vec::new();
        payload.extend_from_slice(nonce);
        payload.append(&mut ciphertext);
        proof {
            assert(payload@ == nonce@ + sealed);
            assert(payload@.take(NONCE_LEN as int) == nonce@);
            assert(payload@.skip(NONCE_LEN as int) == sealed);
        }
        Ok(payload)
    }

    /// Encrypts serialized bytes with AES-256-GCM under a fresh random
    /// nonce, ready to be written out. Reading the payload back under the
    /// same key gives `data` again.
    pub fn encrypt_payload(data: &[u8], key: &[u8; 32]) -> (payload: Result<Vec<u8>, StoreError>)
        ensures
            data@.len() > MAX_PLAINTEXT_LEN ==> payload is Err,
            payload matches Ok(p) ==> p@.len() == NONCE_LEN + data@.len() + TAG_LEN,
            payload matches Ok(p) ==> p@ == sealed_payload(key@, p@.take(NONCE_LEN as int), data@),
            payload matches Ok(p) ==> opened_payload(key@, p@) == Ok::<Seq<u8>, StoreError>(data@),
            payload matches Err(e) ==> e == StoreError::RandomSource || (e == StoreError::Encryption
                && data@.len() > MAX_PLAINTEXT_LEN),
    {
        let nonce = match random_nonce() {
            Ok(n) => n,
            Err(_) => {
                return Err(StoreError::RandomSource);
            },
        };
        let payload = Self::seal_payload(data, key, &nonce);
        proof {
            if payload is Ok {
                let p = payload->Ok_0;
                assert(p@.take(NONCE_LEN as int) == nonce@);
            }
        }
        payload
    }

    /// Decrypts a stored payload (`[12-byte nonce] ++ [ciphertext]`) with
    /// AES-256-GCM under `key`.
    pub fn decrypt_payload(payload: &[u8], key: &[u8; 32]) -> (plaintext: Result<Vec<u8>, StoreError>)
        ensures
            bytes_result_is(plaintext, opened_payload(key@, payload@)),
            plaintext is Ok ==> payload@.len() >= NONCE_LEN + TAG_LEN,
    {
        if payload.len() < NONCE_LEN {
            return Err(StoreError::PayloadTooShort);
        }
        let (nonce, ciphertext) = payload.split_at(NONCE_LEN);
        proof {
            assert(nonce@ == payload@.take(NONCE_LEN as int));
            assert(ciphertext@ == payload@.skip(NONCE_LEN as int));
        }
        match gcm_decrypt(key, nonce, ciphertext) {
            Ok(p) => Ok(p),
            Err(_) => Err(StoreError::Decryption),
        }
    }
}

} // verus!
