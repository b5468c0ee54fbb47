//! What the user request handlers check before they call a use case.
use crate::errors::CustomError;
use crate::user::dto::{EditUser, NewUser};
use crate::user::validator::{
    is_email, is_phone, password_problems, validation_email, validation_password_strength, validation_phone,
};
use vstd::prelude::*;

verus! {

/// The check of a sign-up request: the password and its confirmation must
/// match, then the password must be strong, then the e-mail address must
/// have the shape of one.
pub fn check_new_user(new_user: &NewUser) -> (r: Result<(), CustomError>)
    ensures
        new_user@.password != new_user@.password_confirm
            ==> (r matches Err(CustomError::ValidationError(t)) && t@ == "Password maching"@),
        new_user@.password == new_user@.password_confirm && password_problems(new_user@.password).len() > 0
            ==> (r matches Err(CustomError::ValidationError(t)) && t@ == "Password validation"@),
        new_user@.password == new_user@.password_confirm && password_problems(new_user@.password).len() == 0
            && !is_email(new_user@.email) ==> (r matches Err(CustomError::ValidationError(t)) && t@ == "Email"@),
        r is Ok <==> new_user@.password == new_user@.password_confirm
            && password_problems(new_user@.password).len() == 0 && is_email(new_user@.email),
{
    if !new_user.is_password_matching() {
        return Err(CustomError::validation("Password maching"));
    }
    if validation_password_strength(new_user.password()).is_err() {
        return Err(CustomError::validation("Password validation"));
    }
    if !validation_email(new_user.get_email()) {
        return Err(CustomError::validation("Email"));
    }
    Ok(())
}

/// The check of an account edit request: a new phone number must have the
/// shape of a phone number.
pub fn check_edit_user(edit_user: &EditUser) -> (r: Result<(), CustomError>)
    ensures
        r is Ok <==> (edit_user@.phone matches Some(p) ==> is_phone(p)),
        r matches Err(e) ==> (e matches CustomError::ValidationError(t) && t@ == "User"@),
{
    if let Some(phone) = edit_user.get_phone() {
        if !validation_phone(phone.as_str()) {
            return Err(CustomError::validation("User"));
        }
    }
    Ok(())
}

} // verus!
