//! One-way hashing of login passwords with Argon2id and a fresh salt.
use vstd::prelude::*;

use crate::cipher::{kdf_accepts, random_bytes, KdfParams, SALT_LEN};
use crate::error::CpassError;

verus! {

/// The self-describing encoded hash (`$argon2id$v=19$m=..,t=..,p=..$salt$hash`)
/// that Argon2id gives for a password and a salt under the given costs.
pub uninterp spec fn argon2id_encoded(
    pwd: Seq<u8>,
    salt: Seq<u8>,
    mem_cost: u32,
    time_cost: u32,
    lanes: u32,
) -> Seq<char>;

/// What checking a password against an encoded hash gives: `None` when the
/// encoded text cannot be decoded or names parameters that Argon2 refuses.
pub uninterp spec fn argon2_check(encoded: Seq<char>, pwd: Seq<u8>) -> Option<bool>;

/// Relies on argon2::hash_encoded with an Argon2id, version 0x13, 32-byte
/// configuration: the text depends on the arguments alone, fails only on the
/// password and salt length limits, and checks out against the same password.
#[verifier::external_body]
fn argon2id_hash_encoded(pwd: &[u8], salt: &[u8], p: KdfParams) -> (r: Result<String, argon2::Error>)
    requires
        p.wf(),
    ensures
        r is Ok <==> kdf_accepts(pwd@.len(), salt@.len()),
        r is Ok ==> r->Ok_0@ == argon2id_encoded(pwd@, salt@, p.mem_cost, p.time_cost, p.lanes),
        r is Ok ==> argon2_check(r->Ok_0@, pwd@) == Some(true),
{
    let config = argon2::Config {
        ad: &[],
        hash_length: 32,
        lanes: p.lanes,
        mem_cost: p.mem_cost,
        secret: &[],
        time_cost: p.time_cost,
        variant: argon2::Variant::Argon2id,
        version: argon2::Version::Version13,
    };
    argon2::hash_encoded(pwd, salt, &config)
}

/// Relies on argon2::verify_encoded: it decodes the parameters, salt and
/// hash from the text and compares; the outcome depends on the arguments
/// alone.
#[verifier::external_body]
fn argon2_verify_encoded(encoded: &str, pwd: &[u8]) -> (r: Result<bool, argon2::Error>)
    ensures
        r is Ok <==> argon2_check(encoded@, pwd@) is Some,
        r is Ok ==> argon2_check(encoded@, pwd@) == Some(r->Ok_0),
{
    argon2::verify_encoded(encoded, pwd)
}

/// The login password hasher, with its own cost parameters.
#[derive(Debug, Clone, Copy, PartialEq, Eq, Structural)]
pub struct Argon {
    pub params: KdfParams,
}

impl Argon {
    /// A hasher with the given costs.
    pub fn new(params: KdfParams) -> (r: Argon)
        ensures
            r.params == params,
    {
        Argon { params }
    }

    /// The hasher with the costs that RFC 9106 recommends first.
    pub fn rfc9106() -> (r: Argon)
        ensures
            r.params == (KdfParams { mem_cost: 0x20_0000, time_cost: 1, lanes: 1 }),
            r.params.wf(),
    {
        Argon { params: KdfParams::rfc9106() }
    }

    /// Hashes `password` with the given salt.
    pub fn hash_with_salt(&self, password: &[u8], salt: &[u8]) -> (r: Result<String, CpassError>)
        requires
            self.params.wf(),
        ensures
            r is Ok <==> kdf_accepts(password@.len(), salt@.len()),
            r is Ok ==> r->Ok_0@ == argon2id_encoded(
                password@,
                salt@,
                self.params.mem_cost,
                self.params.time_cost,
                self.params.lanes,
            ),
            r is Ok ==> argon2_check(r->Ok_0@, password@) == Some(true),
            r is Err ==> r == Err::<String, CpassError>(CpassError::HashingError),
    {
        match argon2id_hash_encoded(password, salt, self.params) {
            Ok(s) => Ok(s),
            Err(_) => Err(CpassError::HashingError),
        }
    }

    /// Hashes `password` with a fresh random 16-byte salt.
    pub fn hash_password(&self, password: &[u8]) -> (r: Result<String, CpassError>)
        requires
            self.params.wf(),
        ensures
            password@.len() > u32::MAX ==> r is Err,
            r is Ok ==> exists|salt: Seq<u8>|
                salt.len() == SALT_LEN && r->Ok_0@ == #[trigger] argon2id_encoded(
                    password@,
                    salt,
                    self.params.mem_cost,
                    self.params.time_cost,
                    self.params.lanes,
                ),
            r is Ok ==> argon2_check(r->Ok_0@, password@) == Some(true),
            r is Err ==> r == Err::<String, CpassError>(CpassError::HashingError),
    {
        let salt = match random_bytes(SALT_LEN) {
            Ok(s) => s,
            Err(_) => return Err(CpassError::HashingError),
        };
        self.hash_with_salt(password, &salt)
    }

    /// Checks `password` against an encoded hash. A mismatch is `Ok(false)`;
    /// a hash that cannot be read is a hashing error.
    pub fn verify(password: &[u8], hash: &str) -> (r: Result<bool, CpassError>)
        ensures
            match argon2_check(hash@, password@) {
                Some(b) => r == Ok::<bool, CpassError>(b),
                None => r == Err::<bool, CpassError>(CpassError::HashingError),
            },
    {
        match argon2_verify_encoded(hash, password) {
            Ok(b) => Ok(b),
            Err(_) => Err(CpassError::HashingError),
        }
    }
}

} // verus!
