//! Logging in.

use vstd::prelude::*;
use crate::authentication::AuthError;
use crate::routes::{FlashLevel, Reply, redirects_to, redirects_with_flash, see_other, see_other_with_flash};

verus! {

/// The login form.
pub struct FormData {
    pub username: String,
    pub password: String,
}

/// Why a login attempt failed, with the text of the underlying cause.
#[derive(Debug)]
pub enum LoginError {
    /// The credentials were rejected.
    AuthError(String),
    /// Something else went wrong.
    UnexpectedError(String),
}

/// Shown when the credentials were rejected.
pub const AUTHENTICATION_FAILED: &'static str = "Authentication failed";

/// Shown when a login failed for another reason.
pub const SOMETHING_WENT_WRONG: &'static str = "Something went wrong";

/// The text a login error is shown with.
pub open spec fn login_error_text(err: LoginError) -> Seq<char> {
    match err {
        LoginError::AuthError(_) => AUTHENTICATION_FAILED@,
        LoginError::UnexpectedError(_) => SOMETHING_WENT_WRONG@,
    }
}

impl LoginError {
    /// The text the error is shown with. It names the kind of failure only,
    /// never its cause.
    pub fn to_string(&self) -> (r: String)
        ensures
            r@ == login_error_text(*self),
    {
        match self {
            LoginError::AuthError(_) => AUTHENTICATION_FAILED.to_owned(),
            LoginError::UnexpectedError(_) => SOMETHING_WENT_WRONG.to_owned(),
        }
    }

    /// The text of the underlying cause.
    pub fn source(&self) -> (r: &str)
        ensures
            r@ == (match *self {
                LoginError::AuthError(c) => c@,
                LoginError::UnexpectedError(c) => c@,
            }),
    {
        match self {
            LoginError::AuthError(c) => c.as_str(),
            LoginError::UnexpectedError(c) => c.as_str(),
        }
    }
}

/// A failed login: the reply to send, and the error to report.
#[derive(Debug)]
pub struct LoginFailure {
    pub reply: Reply,
    pub error: LoginError,
}

/// `f` sends the user back to the login form, flashing the text of `err`, and
/// reports `err`.
pub open spec fn is_login_redirect(f: LoginFailure, err: LoginError) -> bool {
    &&& redirects_with_flash(f.reply, "/login"@, FlashLevel::Error, login_error_text(err))
    &&& f.error == err
}

/// Sends the user back to the login form with the error's text as a flash
/// message.
pub fn login_redirect(err: LoginError) -> (r: LoginFailure)
    ensures
        is_login_redirect(r, err),
{
    let text = err.to_string();
    LoginFailure { reply: see_other_with_flash("/login", FlashLevel::Error, text.as_str()), error: err }
}

/// Every rejected login looks the same to the user, whatever the cause: two
/// rejections send the user to the same place with the same message.
pub proof fn lemma_rejections_look_alike(f1: LoginFailure, c1: String, f2: LoginFailure, c2: String)
    requires
        is_login_redirect(f1, LoginError::AuthError(c1)),
        is_login_redirect(f2, LoginError::AuthError(c2)),
    ensures
        f1.reply.flash matches Some(m1) && f2.reply.flash matches Some(m2) && m1.level == m2.level
            && m1.content@ == m2.content@ && m1.content@ == AUTHENTICATION_FAILED@,
        f1.reply.response matches crate::routes::Response::SeeOther(l1)
            && f2.reply.response matches crate::routes::Response::SeeOther(l2) && l1@ == l2@,
{
}

/// What a login handler has just learnt.
pub enum LoginEvent {
    /// The credentials were checked: the user's id, or why they were refused.
    CredentialsChecked(Result<u128, AuthError>),
    /// The session was renewed and the user's id stored in it, or the text of
    /// the error that prevented it.
    SessionStored(Result<(), String>),
}

/// What a login handler does next.
#[derive(Debug)]
pub enum LoginAction {
    /// Renew the session and store the user's id in it.
    StartSession(u128),
    /// Answer with the reply: the user is logged in.
    Succeed(Reply),
    /// Answer with the failure's reply.
    Fail(LoginFailure),
}

/// The next step of a login attempt.
pub fn login(event: LoginEvent) -> (r: LoginAction)
    ensures
        match event {
            LoginEvent::CredentialsChecked(Ok(id)) => r == LoginAction::StartSession(id),
            LoginEvent::CredentialsChecked(Err(AuthError::InvalidCredentials(c))) =>
                (r matches LoginAction::Fail(f) && is_login_redirect(f, LoginError::AuthError(c))),
            LoginEvent::CredentialsChecked(Err(AuthError::UnexpectedError(c))) =>
                (r matches LoginAction::Fail(f) && is_login_redirect(f, LoginError::UnexpectedError(c))),
            LoginEvent::SessionStored(Ok(())) =>
                (r matches LoginAction::Succeed(reply) && redirects_to(reply, "/admin/dashboard"@)),
            LoginEvent::SessionStored(Err(c)) =>
                (r matches LoginAction::Fail(f) && is_login_redirect(f, LoginError::UnexpectedError(c))),
        },
{
    match event {
        LoginEvent::CredentialsChecked(Ok(id)) => LoginAction::StartSession(id),
        LoginEvent::CredentialsChecked(Err(AuthError::InvalidCredentials(c))) => {
            LoginAction::Fail(login_redirect(LoginError::AuthError(c)))
        },
        LoginEvent::CredentialsChecked(Err(AuthError::UnexpectedError(c))) => {
            LoginAction::Fail(login_redirect(LoginError::UnexpectedError(c)))
        },
        LoginEvent::SessionStored(Ok(())) => LoginAction::Succeed(see_other("/admin/dashboard")),
        LoginEvent::SessionStored(Err(c)) => {
            LoginAction::Fail(login_redirect(LoginError::UnexpectedError(c)))
        },
    }
}

} // verus!
