//! Protection of stored secrets: a key derived from the owner's passphrase
//! and a fresh salt seals the secret under AES-256-GCM with a fresh nonce.
use vstd::prelude::*;
use aes_gcm::aead::{Aead, KeyInit};

use crate::bytes::{concat_bytes, copy_range};
use crate::error::CpassError;

verus! {

/// Length of the random salt drawn for each sealing.
pub const SALT_LEN: usize = 16;

/// Length of the AES-GCM nonce that leads the stored ciphertext.
pub const NONCE_LEN: usize = 12;

/// Length of the AES-256 key.
pub const KEY_LEN: u32 = 32;

/// Length of the authentication tag that AES-GCM appends.
pub const TAG_LEN: usize = 16;

/// Longest plaintext that AES-GCM accepts.
pub const PLAINTEXT_MAX: u64 = 0x10_0000_0000;

/// argon2::Error, the failure of the Argon2 calls; carried, never inspected.
#[verifier::external_type_specification]
#[verifier::external_body]
pub struct ExArgon2Error(argon2::Error);

/// aes_gcm::Error, the failure of sealing or opening; carried, never inspected.
#[verifier::external_type_specification]
#[verifier::external_body]
pub struct ExAeadError(aes_gcm::Error);

/// ring::error::Unspecified, the failure of ring's random generator; carried, never inspected.
#[verifier::external_type_specification]
#[verifier::external_body]
pub struct ExRingUnspecified(ring::error::Unspecified);

/// Cost parameters of an Argon2id derivation (memory in KiB blocks,
/// passes, lanes).
#[derive(Debug, Clone, Copy, PartialEq, Eq, Structural)]
pub struct KdfParams {
    pub mem_cost: u32,
    pub time_cost: u32,
    pub lanes: u32,
}

impl KdfParams {
    /// Parameters that Argon2 accepts on every platform.
    pub open spec fn wf(&self) -> bool {
        &&& 1 <= self.lanes <= 0xFF_FFFF
        &&& 8 * self.lanes <= self.mem_cost <= 0x20_0000
        &&& 1 <= self.time_cost
    }

    /// Parameters with the given costs, if Argon2 accepts them.
    pub fn new(mem_cost: u32, time_cost: u32, lanes: u32) -> (r: Option<KdfParams>)
        ensures
            r is Some <==> (KdfParams { mem_cost, time_cost, lanes }).wf(),
            r is Some ==> r->Some_0 == (KdfParams { mem_cost, time_cost, lanes }),
    {
        if 1 <= lanes && lanes <= 0xFF_FFFF && 8 * (lanes as u64) <= mem_cost as u64 && mem_cost
            <= 0x20_0000 && 1 <= time_cost {
            Some(KdfParams { mem_cost, time_cost, lanes })
        } else {
            None
        }
    }

    /// 19 MiB, two passes, one lane.
    pub fn owasp2() -> (r: KdfParams)
        ensures
            r.wf(),
            r == (KdfParams { mem_cost: 19456, time_cost: 2, lanes: 1 }),
    {
        KdfParams { mem_cost: 19456, time_cost: 2, lanes: 1 }
    }

    /// 7 MiB, five passes, one lane.
    pub fn owasp5() -> (r: KdfParams)
        ensures
            r.wf(),
            r == (KdfParams { mem_cost: 7168, time_cost: 5, lanes: 1 }),
    {
        KdfParams { mem_cost: 7168, time_cost: 5, lanes: 1 }
    }

    /// 2 GiB, one pass, one lane.
    pub fn rfc9106() -> (r: KdfParams)
        ensures
            r.wf(),
            r == (KdfParams { mem_cost: 0x20_0000, time_cost: 1, lanes: 1 }),
    {
        KdfParams { mem_cost: 0x20_0000, time_cost: 1, lanes: 1 }
    }
}

/// What Argon2id (version 0x13, no secret, no associated data) derives
/// from a password and a salt under the given costs, `len` bytes long.
pub uninterp spec fn argon2id_key(
    pwd: Seq<u8>,
    salt: Seq<u8>,
    mem_cost: u32,
    time_cost: u32,
    lanes: u32,
    len: u32,
) -> Seq<u8>;

/// What AES-256-GCM produces from a key, a nonce and a plaintext, with no
/// associated data: the ciphertext followed by the tag.
pub uninterp spec fn aes256gcm_seal(key: Seq<u8>, nonce: Seq<u8>, pt: Seq<u8>) -> Seq<u8>;

/// What AES-256-GCM recovers from a key, a nonce and a sealed text, with no
/// associated data; `None` when the tag does not match.
pub uninterp spec fn aes256gcm_open(key: Seq<u8>, nonce: Seq<u8>, ct: Seq<u8>) -> Option<Seq<u8>>;

/// The lengths of password and salt that Argon2 accepts.
pub open spec fn kdf_accepts(pwd_len: nat, salt_len: nat) -> bool {
    pwd_len <= u32::MAX && 8 <= salt_len <= u32::MAX
}

/// Relies on argon2::hash_raw with an Argon2id, version 0x13 configuration
/// without secret or associated data: the result depends on the arguments
/// alone and has `len` bytes; under parameters that pass `KdfParams::wf`
/// the call fails only on the password and salt length limits.
#[verifier::external_body]
pub(crate) fn argon2id_raw(pwd: &[u8], salt: &[u8], p: KdfParams, len: u32) -> (r: Result<Vec<u8>, argon2::Error>)
    requires
        p.wf(),
        4 <= len,
    ensures
        r is Ok <==> kdf_accepts(pwd@.len(), salt@.len()),
        r is Ok ==> r->Ok_0@ == argon2id_key(pwd@, salt@, p.mem_cost, p.time_cost, p.lanes, len),
        r is Ok ==> r->Ok_0@.len() == len,
{
    let config = argon2::Config {
        ad: &[],
        hash_length: len,
        lanes: p.lanes,
        mem_cost: p.mem_cost,
        secret: &[],
        time_cost: p.time_cost,
        variant: argon2::Variant::Argon2id,
        version: argon2::Version::Version13,
    };
    argon2::hash_raw(pwd, salt, &config)
}

/// Relies on aes_gcm::Aes256Gcm through aead::Aead::encrypt: the sealed
/// text is the plaintext's length plus the 16-byte tag, opens back to the
/// plaintext under the same key and nonce, and the call fails only on a
/// plaintext longer than the cipher's limit.
#[verifier::external_body]
fn aes_seal(key: &[u8], nonce: &[u8], pt: &[u8]) -> (r: Result<Vec<u8>, aes_gcm::Error>)
    requires
        key@.len() == KEY_LEN,
        nonce@.len() == NONCE_LEN,
    ensures
        r is Ok <==> pt@.len() <= PLAINTEXT_MAX,
        r is Ok ==> r->Ok_0@ == aes256gcm_seal(key@, nonce@, pt@),
        r is Ok ==> r->Ok_0@.len() == pt@.len() + TAG_LEN,
        r is Ok ==> aes256gcm_open(key@, nonce@, r->Ok_0@) == Some(pt@),
{
    let cipher = aes_gcm::Aes256Gcm::new(aes_gcm::Key::<aes_gcm::Aes256Gcm>::from_slice(key));
    cipher.encrypt(aes_gcm::Nonce::from_slice(nonce), pt)
}

/// Relies on aes_gcm::Aes256Gcm through aead::Aead::decrypt: it returns the
/// plaintext exactly when the tag matches.
#[verifier::external_body]
fn aes_open(key: &[u8], nonce: &[u8], ct: &[u8]) -> (r: Result<Vec<u8>, aes_gcm::Error>)
    requires
        key@.len() == KEY_LEN,
        nonce@.len() == NONCE_LEN,
    ensures
        r is Ok <==> aes256gcm_open(key@, nonce@, ct@) is Some,
        r is Ok ==> aes256gcm_open(key@, nonce@, ct@) == Some(r->Ok_0@),
{
    let cipher = aes_gcm::Aes256Gcm::new(aes_gcm::Key::<aes_gcm::Aes256Gcm>::from_slice(key));
    cipher.decrypt(aes_gcm::Nonce::from_slice(nonce), ct)
}

/// Relies on ring::rand::SystemRandom::fill: `len` bytes from the operating
/// system's secure generator, or a failure.
#[verifier::external_body]
pub(crate) fn random_bytes(len: usize) -> (r: Result<Vec<u8>, ring::error::Unspecified>)
    ensures
        r is Ok ==> r->Ok_0@.len() == len,
{
    let mut buf = vec![0u8; len];
    ring::rand::SecureRandom::fill(&ring::rand::SystemRandom::new(), &mut buf)?;
    Ok(buf)
}

/// A sealed secret as it is stored: `ciphertext` is the nonce followed by
/// the AES-GCM output, `salt` is the key-derivation salt.
#[derive(Debug, Clone, PartialEq, Eq)]
pub struct SealedSecret {
    pub ciphertext: Vec<u8>,
    pub salt: Vec<u8>,
}

/// The key that a passphrase and a salt give under the cipher's costs.
pub open spec fn secret_key(passphrase: Seq<u8>, salt: Seq<u8>, kdf: KdfParams) -> Seq<u8> {
    argon2id_key(passphrase, salt, kdf.mem_cost, kdf.time_cost, kdf.lanes, KEY_LEN)
}

/// The stored ciphertext of `plaintext` under a passphrase, a salt and a
/// nonce.
pub open spec fn sealed_blob(
    plaintext: Seq<u8>,
    passphrase: Seq<u8>,
    salt: Seq<u8>,
    nonce: Seq<u8>,
    kdf: KdfParams,
) -> Seq<u8> {
    nonce + aes256gcm_seal(secret_key(passphrase, salt, kdf), nonce, plaintext)
}

/// What opening a stored ciphertext with a salt and a passphrase gives.
pub open spec fn open_result(
    ciphertext: Seq<u8>,
    salt: Seq<u8>,
    passphrase: Seq<u8>,
    kdf: KdfParams,
) -> Result<Seq<u8>, CpassError> {
    if ciphertext.len() < NONCE_LEN {
        Err(CpassError::AuthenticationFailed)
    } else if !kdf_accepts(passphrase.len(), salt.len()) {
        Err(CpassError::HashingError)
    } else {
        match aes256gcm_open(
            secret_key(passphrase, salt, kdf),
            ciphertext.subrange(0, NONCE_LEN as int),
            ciphertext.subrange(NONCE_LEN as int, ciphertext.len() as int),
        ) {
            Some(p) => Ok(p),
            None => Err(CpassError::AuthenticationFailed),
        }
    }
}

/// Seals `plaintext` under a key derived from `passphrase` and `salt`,
/// with the given nonce. What comes out opens back to the plaintext under
/// the same passphrase.
pub fn seal_with(
    plaintext: &[u8],
    passphrase: &[u8],
    salt: &[u8],
    nonce: &[u8],
    kdf: KdfParams,
) -> (r: Result<SealedSecret, CpassError>)
    requires
        kdf.wf(),
        nonce@.len() == NONCE_LEN,
    ensures
        !kdf_accepts(passphrase@.len(), salt@.len()) ==> r == Err::<SealedSecret, CpassError>(
            CpassError::HashingError,
        ),
        kdf_accepts(passphrase@.len(), salt@.len()) && plaintext@.len() > PLAINTEXT_MAX ==> r
            matches Err(CpassError::InvalidRequest(_)),
        kdf_accepts(passphrase@.len(), salt@.len()) && plaintext@.len() <= PLAINTEXT_MAX ==> r is Ok,
        r is Ok ==> r->Ok_0.salt@ == salt@,
        r is Ok ==> r->Ok_0.ciphertext@ == sealed_blob(plaintext@, passphrase@, salt@, nonce@, kdf),
        r is Ok ==> r->Ok_0.ciphertext@.len() == NONCE_LEN + plaintext@.len() + TAG_LEN,
        r is Ok ==> open_result(r->Ok_0.ciphertext@, r->Ok_0.salt@, passphrase@, kdf) == Ok::<
            Seq<u8>,
            CpassError,
        >(plaintext@),
{
    let key = match argon2id_raw(passphrase, salt, kdf, KEY_LEN) {
        Ok(k) => k,
        Err(_) => return Err(CpassError::HashingError),
    };
    let sealed = match aes_seal(&key, nonce, plaintext) {
        Ok(s) => s,
        Err(_) => return Err(CpassError::InvalidRequest("secret is too long to seal".to_string())),
    };
    let ciphertext = concat_bytes(nonce, &sealed);
    let salt_copy = copy_range(salt, 0, salt.len());
    assert(salt@.subrange(0, salt@.len() as int) =~= salt@);
    assert(ciphertext@.subrange(0, NONCE_LEN as int) =~= nonce@);
    assert(ciphertext@.subrange(NONCE_LEN as int, ciphertext@.len() as int) =~= sealed@);
    Ok(SealedSecret { ciphertext, salt: salt_copy })
}

/// Seals `plaintext` under `passphrase` with a fresh random salt and a
/// fresh random nonce. Whatever it returns opens back to the plaintext
/// under the same passphrase.
pub fn encrypt(plaintext: &[u8], passphrase: &[u8], kdf: KdfParams) -> (r: Result<
    SealedSecret,
    CpassError,
>)
    requires
        kdf.wf(),
    ensures
        passphrase@.len() > u32::MAX ==> r == Err::<SealedSecret, CpassError>(
            CpassError::HashingError,
        ),
        plaintext@.len() > PLAINTEXT_MAX ==> r is Err,
        r is Ok ==> r->Ok_0.salt@.len() == SALT_LEN,
        r is Ok ==> r->Ok_0.ciphertext@ == sealed_blob(
            plaintext@,
            passphrase@,
            r->Ok_0.salt@,
            r->Ok_0.ciphertext@.subrange(0, NONCE_LEN as int),
            kdf,
        ),
        r is Ok ==> r->Ok_0.ciphertext@.len() == NONCE_LEN + plaintext@.len() + TAG_LEN,
        r is Ok ==> open_result(r->Ok_0.ciphertext@, r->Ok_0.salt@, passphrase@, kdf) == Ok::<
            Seq<u8>,
            CpassError,
        >(plaintext@),
        r is Err ==> r matches Err(CpassError::HashingError) || r matches Err(
            CpassError::InvalidRequest(_),
        ),
{
    let salt = match random_bytes(SALT_LEN) {
        Ok(s) => s,
        Err(_) => return Err(CpassError::HashingError),
    };
    let nonce = match random_bytes(NONCE_LEN) {
        Ok(n) => n,
        Err(_) => return Err(CpassError::HashingError),
    };
    let r = seal_with(plaintext, passphrase, &salt, &nonce, kdf);
    proof {
        if r is Ok {
            let c = r->Ok_0.ciphertext@;
            assert(c.subrange(0, NONCE_LEN as int) =~= nonce@);
        }
    }
    r
}

/// Opens a stored ciphertext with its salt and the owner's passphrase. A
/// wrong passphrase and altered bytes give the same failure.
pub fn decrypt(ciphertext: &[u8], salt: &[u8], passphrase: &[u8], kdf: KdfParams) -> (r: Result<
    Vec<u8>,
    CpassError,
>)
    requires
        kdf.wf(),
    ensures
        match open_result(ciphertext@, salt@, passphrase@, kdf) {
            Ok(p) => r is Ok && r->Ok_0@ == p,
            Err(e) => r == Err::<Vec<u8>, CpassError>(e),
        },
{
    if ciphertext.len() < NONCE_LEN {
        return Err(CpassError::AuthenticationFailed);
    }
    let key = match argon2id_raw(passphrase, salt, kdf, KEY_LEN) {
        Ok(k) => k,
        Err(_) => return Err(CpassError::HashingError),
    };
    let nonce = copy_range(ciphertext, 0, NONCE_LEN);
    let body = copy_range(ciphertext, NONCE_LEN, ciphertext.len());
    match aes_open(&key, &nonce, &body) {
        Ok(p) => Ok(p),
        Err(_) => Err(CpassError::AuthenticationFailed),
    }
}

} // verus!
