//! Registration, login and authorization. The password hasher works outside
//! of this module: what it computed comes in as a plain value.

use vstd::prelude::*;
use crate::errors::ServerError;
use crate::models::{LoginUser, NewUser, NewUserForm, User, UserRow};
use crate::session::SessionIdentity;
use crate::store::{outcome, ContentStore};
use crate::tables::Tables;

verus! {

/// A login that waits for the hasher's word on the password.
#[derive(Debug)]
pub struct LoginAttempt {
    user: User,
}

impl View for LoginAttempt {
    type V = UserRow;

    /// The account that the attempt wants to log in to.
    closed spec fn view(&self) -> UserRow {
        self.user@
    }
}

impl LoginAttempt {
    /// The stored hash that the candidate password has to be verified against.
    pub fn stored_hash(&self) -> (hash: &str)
        ensures
            hash@ == self@.password,
    {
        self.user.password.as_str()
    }
}

/// What opening a login gives: the account to verify the password against,
/// or `InvalidCredentials` where the username names no user.
pub open spec fn login_account(tables: Tables, username: Seq<char>) -> Result<UserRow, ServerError> {
    match tables.user_named(username) {
        Some(row) => Ok(row),
        None => Err(ServerError::InvalidCredentials),
    }
}

/// What closing a login gives: the username that the session is bound to
/// where the hasher accepted the password, `InvalidCredentials` where it
/// rejected the password or failed.
pub open spec fn login_verdict(account: UserRow, verified: Result<bool, ServerError>) -> Result<
    Seq<char>,
    ServerError,
> {
    if verified == Ok::<bool, ServerError>(true) {
        Ok(account.username)
    } else {
        Err(ServerError::InvalidCredentials)
    }
}

/// What a whole login ends in, from the form's username and the hasher's
/// word on the form's password.
pub open spec fn login_outcome(
    tables: Tables,
    username: Seq<char>,
    verified: Result<bool, ServerError>,
) -> Result<Seq<char>, ServerError> {
    match login_account(tables, username) {
        Ok(account) => login_verdict(account, verified),
        Err(e) => Err(e),
    }
}

/// A login succeeds exactly where the user is known and the hasher accepted
/// the password, and the session is then bound to that user. A wrong
/// password, a failure of the hasher and an unknown user all end in
/// `InvalidCredentials`, so the caller cannot tell them apart.
pub proof fn law_login(tables: Tables, username: Seq<char>, verified: Result<bool, ServerError>)
    ensures
        tables.has_username(username) && verified == Ok::<bool, ServerError>(true)
            ==> login_outcome(tables, username, verified) == Ok::<Seq<char>, ServerError>(
            username,
        ),
        !tables.has_username(username) || verified != Ok::<bool, ServerError>(true)
            ==> login_outcome(tables, username, verified) == Err::<Seq<char>, ServerError>(
            ServerError::InvalidCredentials,
        ),
        login_outcome(tables, username, verified) matches Ok(bound) ==> authorized(tables, bound)
            == login_account(tables, username),
{
}

/// What authorization gives for an identity bound to `username`.
pub open spec fn authorized(tables: Tables, username: Seq<char>) -> Result<UserRow, ServerError> {
    match tables.user_named(username) {
        Some(row) => Ok(row),
        None => Err(ServerError::Unauthenticated),
    }
}

/// Registers the account of `form`, storing `password_hash` in place of the
/// form's plaintext password.
pub fn register(store: &mut ContentStore, form: NewUserForm, password_hash: String) -> (result:
    Result<User, ServerError>)
    ensures
        final(store)@.valid(),
        (final(store)@, outcome(result)) == old(store)@.create_user(
            form.username@,
            form.email@,
            password_hash@,
        ),
{
    store.create_user(NewUser::new(form, password_hash))
}

/// Opens a login: looks the user up and hands out the attempt whose stored
/// hash the hasher has to check the form's password against. An unknown user
/// is refused with `InvalidCredentials`.
pub fn begin_login(store: &ContentStore, form: &LoginUser) -> (result: Result<
    LoginAttempt,
    ServerError,
>)
    ensures
        outcome(result) == login_account(store@, form.username@),
{
    match store.find_user_by_username(form.username.as_str()) {
        Ok(user) => Ok(LoginAttempt { user }),
        Err(_) => Err(ServerError::InvalidCredentials),
    }
}

/// Closes a login with the hasher's word: `Ok(true)` where the password
/// reproduced the stored hash, `Ok(false)` where it did not, an error where
/// the hasher failed. Only `Ok(true)` mints an identity, bound to the
/// attempt's username; everything else is `InvalidCredentials`.
pub fn finish_login(attempt: LoginAttempt, verified: Result<bool, ServerError>) -> (result: Result<
    SessionIdentity,
    ServerError,
>)
    ensures
        outcome(result) == login_verdict(attempt@, verified),
{
    match verified {
        Ok(true) => Ok(SessionIdentity::mint(attempt.user.username.as_str())),
        _ => Err(ServerError::InvalidCredentials),
    }
}

/// Resolves a session identity to the user it is bound to. An identity whose
/// username names no user is refused with `Unauthenticated`.
pub fn authorize(store: &ContentStore, identity: &SessionIdentity) -> (result: Result<
    User,
    ServerError,
>)
    ensures
        outcome(result) == authorized(store@, identity@),
{
    match store.find_user_by_username(identity.username()) {
        Ok(user) => Ok(user),
        Err(_) => Err(ServerError::Unauthenticated),
    }
}

} // verus!
