//! Logging out.

use vstd::prelude::*;
use crate::routes::{FlashLevel, Reply, error500, fails_with, redirects_to, redirects_with_flash, see_other, see_other_with_flash};

verus! {

/// The message shown after logging out.
pub const LOGGED_OUT: &'static str = "You have successfully logged out";

/// What to do for a logout request.
#[derive(Debug)]
pub struct LogOut {
    /// Whether to end the user's session.
    pub end_session: bool,
    pub reply: Reply,
}

/// Handles a logout request, given what reading the session gave: the
/// logged-in user's id, if any, or the text of the error that prevented
/// reading it. Whoever asks ends up on the login form.
pub fn log_out(session: Result<Option<u128>, String>) -> (r: LogOut)
    ensures
        match session {
            Ok(Some(_)) => r.end_session && redirects_with_flash(r.reply, "/login"@, FlashLevel::Info, LOGGED_OUT@),
            Ok(None) => !r.end_session && redirects_to(r.reply, "/login"@),
            Err(c) => !r.end_session && fails_with(r.reply, c@),
        },
{
    match session {
        Ok(Some(_)) => LogOut {
            end_session: true,
            reply: see_other_with_flash("/login", FlashLevel::Info, LOGGED_OUT),
        },
        Ok(None) => LogOut { end_session: false, reply: see_other("/login") },
        Err(c) => LogOut { end_session: false, reply: error500(c) },
    }
}

} // verus!
