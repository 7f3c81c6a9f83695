//! A local store of secrets keyed by name, opened with a master password
//! from which a key is derived.
use vstd::prelude::*;

use crate::cipher::{argon2id_key, argon2id_raw, KdfParams, KEY_LEN, SALT_LEN};
use crate::error::CpassError;

verus! {

/// getrandom::Error, the failure of the operating system generator; carried, never inspected.
#[verifier::external_type_specification]
#[verifier::external_body]
pub struct ExGetrandomError(getrandom::Error);

/// Relies on getrandom::getrandom: `len` bytes from the operating system's
/// generator, or a failure.
#[verifier::external_body]
fn os_random(len: usize) -> (r: Result<Vec<u8>, getrandom::Error>)
    ensures
        r is Ok ==> r->Ok_0@.len() == len,
{
    let mut buf = vec![0u8; len];
    getrandom::getrandom(&mut buf)?;
    Ok(buf)
}

/// The costs used when none are given: OWASP's with 7 MiB and five passes.
pub open spec fn effective_params(params: Option<KdfParams>) -> KdfParams {
    match params {
        Some(p) => p,
        None => KdfParams { mem_cost: 7168, time_cost: 5, lanes: 1 },
    }
}

/// Derives a 32-byte key from `password` and a fresh random salt, under
/// `params` or, when none are given, the OWASP costs with 7 MiB.
fn derivate_key(password: &[u8], params: Option<KdfParams>) -> (r: Result<Vec<u8>, CpassError>)
    requires
        params is Some ==> params->Some_0.wf(),
    ensures
        r is Ok ==> exists|salt: Seq<u8>|
            salt.len() == SALT_LEN && r->Ok_0@ == #[trigger] argon2id_key(
                password@,
                salt,
                effective_params(params).mem_cost,
                effective_params(params).time_cost,
                effective_params(params).lanes,
                KEY_LEN,
            ),
        r is Ok ==> r->Ok_0@.len() == KEY_LEN,
        password@.len() > u32::MAX ==> r is Err,
        r is Err ==> r == Err::<Vec<u8>, CpassError>(CpassError::HashingError),
{
    let config = match params {
        Some(p) => p,
        None => KdfParams::owasp5(),
    };
    let salt = match os_random(SALT_LEN) {
        Ok(s) => s,
        Err(_) => return Err(CpassError::HashingError),
    };
    assert(config == effective_params(params));
    match argon2id_raw(password, &salt, config, KEY_LEN) {
        Ok(k) => {
            assert(k@ == argon2id_key(
                password@,
                salt@,
                effective_params(params).mem_cost,
                effective_params(params).time_cost,
                effective_params(params).lanes,
                KEY_LEN,
            ));
            Ok(k)
        },
        Err(_) => Err(CpassError::HashingError),
    }
}

/// Secrets by name, under a key derived from the master password.
pub struct PasswordStore {
    master_password: Vec<u8>,
    passwords: Vec<(String, String)>,
}

impl PasswordStore {
    /// The derived master key.
    pub closed spec fn master_key(&self) -> Seq<u8> {
        self.master_password@
    }

    /// The number of stored secrets.
    pub closed spec fn count(&self) -> nat {
        self.passwords@.len()
    }

    /// An empty store whose master key is derived from `password` with a
    /// fresh salt.
    pub fn new(password: &[u8]) -> (r: Result<PasswordStore, CpassError>)
        ensures
            r is Ok ==> r->Ok_0.master_key().len() == KEY_LEN && r->Ok_0.count() == 0,
            r is Ok ==> exists|salt: Seq<u8>|
                salt.len() == SALT_LEN && r->Ok_0.master_key() == #[trigger] argon2id_key(
                    password@,
                    salt,
                    7168u32,
                    5u32,
                    1u32,
                    KEY_LEN,
                ),
            password@.len() > u32::MAX ==> r is Err,
            r is Err ==> r == Err::<PasswordStore, CpassError>(CpassError::HashingError),
    {
        let derivated_master_password = derivate_key(password, None)?;
        Ok(PasswordStore { master_password: derivated_master_password, passwords: Vec::new() })
    }
}

} // verus!
