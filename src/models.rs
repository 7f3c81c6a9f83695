//! The requests and responses that the transports exchange with the
//! vault core, as plain data.
use vstd::prelude::*;

verus! {

/// A registration.
#[derive(Debug, Clone, PartialEq, Eq)]
pub struct CreateUser {
    pub email: String,
    pub username: String,
    pub password: String,
    pub password_hint: Option<String>,
}

/// A login.
#[derive(Debug, Clone, PartialEq, Eq)]
pub struct LoginUser {
    pub email: String,
    pub password: String,
}

/// A change of the caller's own profile; absent fields stay as they are.
#[derive(Debug, Clone, PartialEq, Eq)]
pub struct ChangeUser {
    pub email: Option<String>,
    pub password: Option<String>,
    pub username: Option<String>,
}

/// A change of the caller's own profile, hint included; absent fields stay
/// as they are.
#[derive(Debug, Clone, PartialEq, Eq)]
pub struct UpdateUser {
    pub email: Option<String>,
    pub password: Option<String>,
    pub username: Option<String>,
    pub password_hint: Option<String>,
}

/// A deletion of the caller's own account.
#[derive(Debug, Clone, PartialEq, Eq)]
pub struct DeleteUser {
    pub email: String,
}

/// What a failed login answers: only the user's own hint, if any.
#[derive(Debug, Clone, PartialEq, Eq)]
pub struct LoginUnauthorized {
    pub password_hint: Option<String>,
}

/// What a successful login or registration answers.
#[derive(Debug, Clone, PartialEq, Eq)]
pub struct AuthUserResponse {
    pub email: String,
    pub username: String,
    pub token: String,
}

/// A new secret in plaintext, with the passphrase that seals it.
#[derive(Debug, Clone, PartialEq, Eq)]
pub struct AddPassword {
    pub password: String,
    pub name: String,
    pub website: Option<String>,
    pub username: Option<String>,
    pub description: Option<String>,
    pub master_password: String,
    pub tags: Option<Vec<String>>,
}

/// The id that a new secret was stored under.
#[derive(Debug, Clone, Copy, PartialEq, Eq, Structural)]
pub struct AddPasswordResponse {
    pub password_id: u128,
}

/// Tags to add to a secret named by its id.
#[derive(Debug, Clone, PartialEq, Eq)]
pub struct AddTagsToPassword {
    pub id: String,
    pub tags: Vec<String>,
}

/// A list of tags.
#[derive(Debug, Clone, PartialEq, Eq)]
pub struct Tags {
    pub tags: Vec<String>,
}

/// A login on the binary transport.
#[derive(Debug, Clone, PartialEq, Eq)]
pub struct LoginRequest {
    pub email: String,
    pub password: String,
}

/// A registration on the binary transport.
#[derive(Debug, Clone, PartialEq, Eq)]
pub struct CreateUserRequest {
    pub email: String,
    pub username: String,
    pub password: String,
}

/// A profile change on the binary transport.
#[derive(Debug, Clone, PartialEq, Eq)]
pub struct UpdateUserRequest {
    pub email: Option<String>,
    pub username: Option<String>,
    pub password: Option<String>,
}

/// A secret sealed by the client, as bytes.
#[derive(Debug, Clone, PartialEq, Eq)]
pub struct AddPasswordRequest {
    pub name: Vec<u8>,
    pub password: Vec<u8>,
    pub website: Option<Vec<u8>>,
    pub username: Option<Vec<u8>>,
    pub description: Option<Vec<u8>>,
}

/// A change of a client-sealed secret; absent fields stay as they are.
#[derive(Debug, Clone, PartialEq, Eq)]
pub struct UpdatePasswordRequest {
    pub name: Option<Vec<u8>>,
    pub password: Option<Vec<u8>>,
    pub website: Option<Vec<u8>>,
    pub username: Option<Vec<u8>>,
    pub description: Option<Vec<u8>>,
}

/// The command-line client's arguments.
#[derive(Debug, Clone, PartialEq, Eq)]
pub struct Args {
    pub master_password: String,
    pub command: Commands,
}

/// The command-line client's commands.
#[derive(Debug, Clone, PartialEq, Eq)]
pub enum Commands {
    CreateUser { email: String, username: String },
}

} // verus!
