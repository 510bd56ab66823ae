//! Changing the password.

use vstd::prelude::*;
use crate::authentication::AuthError;
use crate::frontend::PageData;
use crate::routes::{FlashLevel, Reply, Response, error500, fails_with, redirects_to, redirects_with_flash, see_other, see_other_with_flash};
use crate::text::str_eq;

verus! {

/// The password-change form.
pub struct FormData {
    pub current_password: String,
    pub new_password: String,
    pub new_password_check: String,
}

/// Shown when the two entries of the new password differ.
pub const PASSWORDS_DIFFER: &'static str = "You entered two different new passwords - the field values must match.";

/// Shown when the current password is wrong.
pub const WRONG_CURRENT_PASSWORD: &'static str = "The current password is incorrect";

/// Shown once the password has been changed.
pub const PASSWORD_CHANGED: &'static str = "Your password has been changed";

/// `reply` shows the password form with the flash messages `messages`.
pub open spec fn shows_password_form(reply: Reply, messages: Seq<String>) -> bool {
    &&& reply.flash is None
    &&& reply.response matches Response::Page(PageData::Password { messages: m }) && m@ == messages
}

/// Shows the password-change form, given what reading the session gave and
/// the pending flash messages. Anonymous visitors are sent to the login form.
pub fn change_password_form(session: Result<Option<u128>, String>, messages: Vec<String>) -> (r: Reply)
    ensures
        match session {
            Ok(Some(_)) => shows_password_form(r, messages@),
            Ok(None) => redirects_to(r, "/login"@),
            Err(c) => fails_with(r, c@),
        },
{
    match session {
        Ok(Some(_)) => Reply { flash: None, response: Response::Page(PageData::Password { messages }) },
        Ok(None) => see_other("/login"),
        Err(c) => error500(c),
    }
}

/// What the password-change handler has just learnt.
pub enum PasswordEvent {
    /// The form was submitted.
    Submitted,
    /// The user's name was looked up, or the text of the error that
    /// prevented it.
    UsernameFetched(Result<String, String>),
    /// The current password was checked against the stored one.
    CredentialsChecked(Result<(), AuthError>),
    /// The new password was stored, or the text of the error that prevented
    /// it.
    PasswordStored(Result<(), String>),
}

/// What the password-change handler does next.
#[derive(Debug)]
pub enum PasswordAction {
    /// Look up the logged-in user's name.
    FetchUsername,
    /// Check this password for this user.
    CheckCredentials { username: String, password: String },
    /// Store this password for the logged-in user.
    StorePassword(String),
    /// Answer with the reply.
    Respond(Reply),
}

/// `a` redirects back to the password form flashing `text` as an error.
pub open spec fn back_to_form(a: PasswordAction, text: Seq<char>) -> bool {
    a matches PasswordAction::Respond(reply) && redirects_with_flash(reply, "/admin/password"@, FlashLevel::Error, text)
}

/// `a` answers with a `500` carrying `cause`.
pub open spec fn fails_password_change(a: PasswordAction, cause: Seq<char>) -> bool {
    a matches PasswordAction::Respond(reply) && fails_with(reply, cause)
}

/// The next step of changing the password submitted in `form`. The new
/// password is only stored once the current one has been verified, and the
/// check only starts when both entries of the new password agree.
pub fn change_password(form: &FormData, event: PasswordEvent) -> (r: PasswordAction)
    ensures
        match event {
            PasswordEvent::Submitted => if form.new_password@ != form.new_password_check@ {
                back_to_form(r, PASSWORDS_DIFFER@)
            } else {
                r == PasswordAction::FetchUsername
            },
            PasswordEvent::UsernameFetched(Ok(name)) => (r matches PasswordAction::CheckCredentials { username, password }
                && username@ == name@ && password@ == form.current_password@),
            PasswordEvent::UsernameFetched(Err(c)) => fails_password_change(r, c@),
            PasswordEvent::CredentialsChecked(Ok(())) =>
                (r matches PasswordAction::StorePassword(p) && p@ == form.new_password@),
            PasswordEvent::CredentialsChecked(Err(AuthError::InvalidCredentials(_))) =>
                back_to_form(r, WRONG_CURRENT_PASSWORD@),
            PasswordEvent::CredentialsChecked(Err(AuthError::UnexpectedError(c))) => fails_password_change(r, c@),
            PasswordEvent::PasswordStored(Ok(())) => back_to_form(r, PASSWORD_CHANGED@),
            PasswordEvent::PasswordStored(Err(c)) => fails_password_change(r, c@),
        },
{
    match event {
        PasswordEvent::Submitted => {
            if !str_eq(form.new_password.as_str(), form.new_password_check.as_str()) {
                PasswordAction::Respond(see_other_with_flash("/admin/password", FlashLevel::Error, PASSWORDS_DIFFER))
            } else {
                PasswordAction::FetchUsername
            }
        },
        PasswordEvent::UsernameFetched(Ok(username)) => {
            PasswordAction::CheckCredentials { username, password: form.current_password.clone() }
        },
        PasswordEvent::UsernameFetched(Err(c)) => PasswordAction::Respond(error500(c)),
        PasswordEvent::CredentialsChecked(Ok(())) => PasswordAction::StorePassword(form.new_password.clone()),
        PasswordEvent::CredentialsChecked(Err(AuthError::InvalidCredentials(_))) => {
            PasswordAction::Respond(see_other_with_flash("/admin/password", FlashLevel::Error, WRONG_CURRENT_PASSWORD))
        },
        PasswordEvent::CredentialsChecked(Err(AuthError::UnexpectedError(c))) => PasswordAction::Respond(error500(c)),
        PasswordEvent::PasswordStored(Ok(())) => {
            PasswordAction::Respond(see_other_with_flash("/admin/password", FlashLevel::Error, PASSWORD_CHANGED))
        },
        PasswordEvent::PasswordStored(Err(c)) => PasswordAction::Respond(error500(c)),
    }
}

} // verus!
