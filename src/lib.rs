//! Core of a credential vault: password hashing, session tokens, the
//! cipher that protects stored secrets, and the rules that keep a secret
//! record, its tags and its owner consistent.
pub mod auth;
pub mod bytes;
pub mod carrier;
pub mod cipher;
pub mod claims;
pub mod error;
pub mod hashing;
pub mod hexcode;
pub mod ids;
pub mod models;
pub mod password_store;
pub mod tags;
pub mod text;
pub mod token;
pub mod txn;
pub mod vault;
