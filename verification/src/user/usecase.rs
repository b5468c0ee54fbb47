//! The decisions of the user use cases. The repository calls between them
//! are made by the caller: a use case is a sequence of steps, each of which
//! takes what the previous call answered and tells what to do next.
use crate::errors::CustomError;
use crate::text::unicode_lowercase;
use crate::user::dto::{login_entity, user_update_of, EditUser, LoginInfo, LoginInfoView, UserInfo};
use crate::user::entity::{info_of, UpdateUser, User, UserView};
use crate::user::login_type::{login_type_named, LoginType};
use crate::user::password_hash::{_hash_password, argon2_verify, check_password};
use vstd::prelude::*;
use vstd::utf8::encode_utf8;

verus! {

/// What sign-in does after looking the user name up.
#[derive(Debug)]
pub enum LoginStep {
    /// The account exists: check the password against it.
    CheckPassword(User),
    /// A first OAuth sign-in: store this new account, then check the password.
    CreateAccount(User),
    /// Sign-in fails with this error.
    Fail(CustomError),
}

/// The first step of sign-in, given what looking the user name up answered.
/// A known account is checked; an unknown user name fails an e-mail sign-in
/// with the lookup's error and creates the account of an OAuth sign-in,
/// which must then carry an e-mail address and a nickname.
pub fn login_after_lookup(login_info: &LoginInfo, lookup: Result<User, CustomError>) -> (r: LoginStep)
    requires
        lookup is Err && login_info@.login_type != LoginType::Email ==> login_info@.email is Some
            && login_info@.nickname is Some,
    ensures
        match lookup {
            Ok(u) => r == LoginStep::CheckPassword(u),
            Err(e) => if login_info@.login_type == LoginType::Email {
                r == LoginStep::Fail(e)
            } else {
                r matches LoginStep::CreateAccount(a) && a@ == login_entity(login_info@)
            },
        },
{
    match lookup {
        Ok(user) => LoginStep::CheckPassword(user),
        Err(e) => match login_info.get_login_type() {
            LoginType::Email => LoginStep::Fail(e),
            _ => LoginStep::CreateAccount(login_info.to_entity()),
        },
    }
}

/// The step of sign-in after storing a new account: the account under the
/// id it was stored with, or the error of storing it.
pub fn login_after_save(account: User, saved: Result<i32, CustomError>) -> (r: Result<User, CustomError>)
    ensures
        match saved {
            Ok(id) => r matches Ok(u) && u@ == (UserView { id: Some(id), ..account@ }),
            Err(e) => r == Err::<User, CustomError>(e),
        },
{
    match saved {
        Ok(id) => Ok(account.id(id).build()),
        Err(e) => Err(e),
    }
}

/// Whether the last step of sign-in can be taken without failing: the
/// stored hash parses, and the account has an id and a known login type.
pub open spec fn login_checkable(user: UserView, login_info: LoginInfoView) -> bool {
    &&& argon2_verify(user.password, encode_utf8(login_info.password)) is Some
    &&& user.id is Some
    &&& login_type_named(unicode_lowercase(user.login_type)) is Some
}

/// The outcome of sign-in for a password and an account that can be checked.
pub open spec fn login_outcome(r: Result<UserInfo, CustomError>, user: UserView, login_info: LoginInfoView) -> bool {
    if argon2_verify(user.password, encode_utf8(login_info.password)) == Some(true) {
        r matches Ok(info) && info@ == info_of(user, login_type_named(unicode_lowercase(user.login_type))->0)
    } else {
        r matches Err(CustomError::ValidationError(t)) && t@ == "Password"@
    }
}

/// The last step of sign-in: the password must match the stored hash; the
/// answer is the public profile of the account.
pub fn login_check_password(user: &User, login_info: &LoginInfo) -> (r: Result<UserInfo, CustomError>)
    requires
        login_checkable(user@, login_info@),
    ensures
        login_outcome(r, user@, login_info@),
{
    let verified = match check_password(user.get_password(), login_info.get_password()) {
        Ok(b) => b,
        Err(_) => {
            proof {
                assert(false);
            }
            false
        },
    };
    if !verified {
        return Err(CustomError::validation("Password"));
    }
    Ok(user.to_info())
}

/// The last step of sign-in, or `None` where the stored hash does not parse
/// or the account has no id or an unknown login type.
pub fn try_login_check_password(user: &User, login_info: &LoginInfo) -> (r: Option<Result<UserInfo, CustomError>>)
    ensures
        match r {
            Some(res) => login_checkable(user@, login_info@) && login_outcome(res, user@, login_info@),
            None => !login_checkable(user@, login_info@),
        },
{
    if check_password(user.get_password(), login_info.get_password()).is_err() {
        return None;
    }
    if user.get_id().is_none() {
        return None;
    }
    match LoginType::parse(user.get_login_type()) {
        Ok(_) => Some(login_check_password(user, login_info)),
        Err(_) => None,
    }
}

/// The first step of an account update: where the request changes the
/// password, the current password given with it is hashed, for the
/// repository to compare with the stored one. Hashing fails only for a
/// password longer than 0xFFFFFFFF bytes.
pub fn update_user_password_hash(edit_user: &EditUser) -> (r: Result<Option<String>, CustomError>)
    ensures
        edit_user@.password is None ==> r == Ok::<Option<String>, CustomError>(None),
        edit_user@.password matches Some(p) ==> match r {
            Ok(Some(h)) => argon2_verify(h@, encode_utf8(p.original)) == Some(true),
            Ok(None) => false,
            Err(e) => e matches CustomError::Unexpected(t) && t@ == "password hashing error"@,
        },
        edit_user@.password matches Some(p) ==> (r is Err <==> encode_utf8(p.original).len() > 0xFFFF_FFFF),
{
    match edit_user.get_password() {
        Some(password) => match _hash_password(password.get_password()) {
            Ok(h) => Ok(Some(h)),
            Err(_) => Err(CustomError::unexpected("password hashing error")),
        },
        None => Ok(None),
    }
}

/// The last step of an account update: the update stops with the error of
/// the password check; otherwise it writes the change set of the request.
pub fn update_user_after_check(edit_user: EditUser, check: Result<(), CustomError>) -> (r: Result<UpdateUser, CustomError>)
    ensures
        match check {
            Ok(()) => r matches Ok(u) && u@ == user_update_of(edit_user@),
            Err(e) => r == Err::<UpdateUser, CustomError>(e),
        },
{
    match check {
        Ok(()) => Ok(edit_user.to_update()),
        Err(e) => Err(e),
    }
}

/// The use case that reads a user's public profile through a repository.
pub struct ReadUserUsecaseImpl<T> {
    repository: T,
}

impl<T> ReadUserUsecaseImpl<T> {
    pub fn new(repository: T) -> (r: Self)
        ensures
            r.spec_repository() == repository,
    {
        ReadUserUsecaseImpl { repository }
    }

    pub closed spec fn spec_repository(&self) -> T {
        self.repository
    }

    /// The repository through which the use case reads.
    pub fn repository(&self) -> (r: &T)
        ensures
            *r == self.spec_repository(),
    {
        &self.repository
    }
}

} // verus!
