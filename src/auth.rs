//! Registration, login and profile changes, on plain values; the storage
//! layer looks users up and writes them.
use vstd::prelude::*;
use vstd::string::StringSliceAdditionalSpecFns;
use vstd::utf8::encode_utf8;

use crate::claims::{claims_json, TOKEN_VALIDITY_SECS};
use crate::cipher::{kdf_accepts, SALT_LEN};
use crate::error::CpassError;
use crate::hashing::{argon2_check, argon2id_encoded, Argon};
use crate::models::{AuthUserResponse, CreateUser, LoginUnauthorized, LoginUser, UpdateUser};
use crate::token::{create_token, jwt_hs256, token_outcome, SigningKey};

verus! {

/// A stored user. The hint is plaintext and never used in any
/// cryptographic operation.
#[derive(Debug, Clone, PartialEq, Eq)]
pub struct User {
    pub id: u128,
    pub email: String,
    pub username: String,
    pub password_hash: String,
    pub password_hint: Option<String>,
}

/// A user ready to be inserted: the password is already hashed.
#[derive(Debug, Clone, PartialEq, Eq)]
pub struct NewUser {
    pub email: String,
    pub username: String,
    pub password_hash: String,
    pub password_hint: Option<String>,
}

/// Prepares a registration: the password is hashed with a fresh salt.
pub fn register(request: &CreateUser, hasher: &Argon) -> (r: Result<NewUser, CpassError>)
    requires
        hasher.params.wf(),
    ensures
        r is Ok ==> r->Ok_0.email == request.email && r->Ok_0.username == request.username
            && r->Ok_0.password_hint == request.password_hint,
        r is Ok ==> exists|salt: Seq<u8>|
            salt.len() == SALT_LEN && r->Ok_0.password_hash@ == #[trigger] argon2id_encoded(
                encode_utf8(request.password@),
                salt,
                hasher.params.mem_cost,
                hasher.params.time_cost,
                hasher.params.lanes,
            ),
        r is Ok ==> argon2_check(r->Ok_0.password_hash@, encode_utf8(request.password@)) == Some(
            true,
        ),
        !kdf_accepts(encode_utf8(request.password@).len(), 16) ==> r is Err,
        r is Err ==> r == Err::<NewUser, CpassError>(CpassError::HashingError),
{
    let hash = hasher.hash_password(request.password.as_str().as_bytes())?;
    Ok(
        NewUser {
            email: request.email.clone(),
            username: request.username.clone(),
            password_hash: hash,
            password_hint: request.password_hint.clone(),
        },
    )
}

/// The failure that a rejected user insert maps to: a taken email is a
/// conflict, anything else a storage failure.
pub fn insert_failure(email: &str, unique_violation: bool, message: &str) -> (r: CpassError)
    ensures
        unique_violation ==> (r matches CpassError::UserAlreadyExists(e) && e@ == email@),
        !unique_violation ==> (r matches CpassError::DatabaseError(m) && m@ == message@),
{
    if unique_violation {
        CpassError::UserAlreadyExists(email.to_string())
    } else {
        CpassError::DatabaseError(message.to_string())
    }
}

/// Checks a login password against the stored user. No user and a wrong
/// password give the same failure.
pub fn authenticate(user: Option<&User>, password: &str) -> (r: Result<u128, CpassError>)
    ensures
        match user {
            None => r == Err::<u128, CpassError>(CpassError::InvalidUsernameOrPassword),
            Some(u) => match argon2_check(u.password_hash@, password.spec_bytes()) {
                Some(true) => r == Ok::<u128, CpassError>(u.id),
                Some(false) => r == Err::<u128, CpassError>(CpassError::InvalidUsernameOrPassword),
                None => r == Err::<u128, CpassError>(CpassError::HashingError),
            },
        },
{
    match user {
        None => Err(CpassError::InvalidUsernameOrPassword),
        Some(u) => {
            let ok = Argon::verify(password.as_bytes(), u.password_hash.as_str())?;
            if ok {
                Ok(u.id)
            } else {
                Err(CpassError::InvalidUsernameOrPassword)
            }
        },
    }
}

/// Logs a user in at `now`: on the right password, a fresh token whose
/// subject is the user.
pub fn login(request: &LoginUser, user: Option<&User>, now: u64, key: &SigningKey) -> (r:
    Result<AuthUserResponse, CpassError>)
    requires
        now + TOKEN_VALIDITY_SECS <= u64::MAX,
    ensures
        user is None ==> r == Err::<AuthUserResponse, CpassError>(
            CpassError::InvalidUsernameOrPassword,
        ),
        user is Some ==> match argon2_check(
            user->Some_0.password_hash@,
            encode_utf8(request.password@),
        ) {
            Some(true) => r is Ok,
            Some(false) => r == Err::<AuthUserResponse, CpassError>(
                CpassError::InvalidUsernameOrPassword,
            ),
            None => r == Err::<AuthUserResponse, CpassError>(CpassError::HashingError),
        },
        r is Ok ==> user is Some && r->Ok_0.email == user->Some_0.email && r->Ok_0.username
            == user->Some_0.username,
        r is Ok ==> r->Ok_0.token@ == jwt_hs256(
            claims_json(user->Some_0.id as nat, now as nat, (now + TOKEN_VALIDITY_SECS) as nat),
            key.bytes@,
        ),
        r is Ok ==> token_outcome(r->Ok_0.token@, key.bytes@, now as nat) == Some(
            (user->Some_0.id as nat, now as nat, (now + TOKEN_VALIDITY_SECS) as nat),
        ),
{
    let id = authenticate(user, request.password.as_str())?;
    let u = user.unwrap();
    let token = create_token(id, now, key)?;
    assert(token_outcome(token@, key.bytes@, now as nat) == Some(
        (id as nat, now as nat, (now + TOKEN_VALIDITY_SECS) as nat),
    ));
    Ok(AuthUserResponse { email: u.email.clone(), username: u.username.clone(), token })
}

/// What a failed login tells the caller: the stored hint of the user with
/// that email, and nothing else.
pub fn login_rejection(user: Option<&User>) -> (r: LoginUnauthorized)
    ensures
        user is None ==> r.password_hint is None,
        user is Some ==> r.password_hint == user->Some_0.password_hint,
{
    match user {
        None => LoginUnauthorized { password_hint: None },
        Some(u) => LoginUnauthorized { password_hint: u.password_hint.clone() },
    }
}

/// Applies a profile change; a new password is hashed first. On failure
/// the user is left as it was.
pub fn change_user(user: &mut User, change: UpdateUser, hasher: &Argon) -> (r: Result<
    (),
    CpassError,
>)
    requires
        hasher.params.wf(),
    ensures
        r is Err ==> *final(user) == *old(user) && r == Err::<(), CpassError>(
            CpassError::HashingError,
        ),
        change.password is None ==> r is Ok,
        r is Ok ==> final(user).id == old(user).id,
        r is Ok ==> final(user).email == (if change.email is Some {
            change.email->Some_0
        } else {
            old(user).email
        }),
        r is Ok ==> final(user).username == (if change.username is Some {
            change.username->Some_0
        } else {
            old(user).username
        }),
        r is Ok ==> final(user).password_hint == (if change.password_hint is Some {
            change.password_hint
        } else {
            old(user).password_hint
        }),
        r is Ok && change.password is None ==> final(user).password_hash == old(user).password_hash,
        r is Ok && change.password is Some ==> argon2_check(
            final(user).password_hash@,
            encode_utf8(change.password->Some_0@),
        ) == Some(true),
{
    let UpdateUser { email, password, username, password_hint } = change;
    let hash = match password {
        Some(p) => Some(hasher.hash_password(p.as_str().as_bytes())?),
        None => None,
    };
    if let Some(e) = email {
        user.email = e;
    }
    if let Some(n) = username {
        user.username = n;
    }
    if let Some(h) = hash {
        user.password_hash = h;
    }
    if password_hint.is_some() {
        user.password_hint = password_hint;
    }
    Ok(())
}

} // verus!
