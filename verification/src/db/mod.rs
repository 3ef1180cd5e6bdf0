//! The database of accounts, behind a backend that stores them.

pub mod sqlite;

use vstd::prelude::*;

verus! {

/// An account: its ID once stored, its name and password hash, whether
/// the password must be reset and whether the account is banned.
pub struct Account {
    pub id: Option<u32>,
    pub username: String,
    pub password_hash: String,
    pub password_invalidated: bool,
    pub banned: bool,
}

/// Why a database operation failed: the backend's own error, described.
#[derive(Clone, Debug)]
pub enum DbError {
    BackendError(Option<String>),
}

/// A store of accounts. A backend handed out has its resources ready, so
/// that its operations succeed under normal conditions.
pub trait Backend {
    /// The account with this ID, if there is one.
    fn get_account_by_id(&self, id: u32) -> Result<Option<Account>, DbError>;

    /// The account with this name, if there is one.
    fn get_account_by_username(&self, username: &str) -> Result<Option<Account>, DbError>;

    /// Stores an account: a new one (without an ID) is given its ID, an
    /// existing one is updated.
    fn put_account(&self, account: &mut Account) -> Result<(), DbError>;

    /// Invalidates the password of every account.
    fn reset_account_passwords(&self) -> Result<(), DbError>;
}

} // verus!
