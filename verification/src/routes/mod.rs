//! Decisions taken by the HTTP handlers. Each handler's I/O (sessions,
//! database queries, flash-message cookies) stays with the caller; the
//! functions here take what the I/O produced and say what to do next.

pub mod admin;
pub mod login;
pub mod tone;

use vstd::prelude::*;
use crate::frontend::PageData;

verus! {

/// The level a flash message is sent with.
#[derive(Debug, Clone, Copy, PartialEq, Eq, Structural)]
pub enum FlashLevel {
    Info,
    Error,
}

/// A one-shot message shown on the next page the user sees.
#[derive(Debug)]
pub struct FlashMessage {
    pub level: FlashLevel,
    pub content: String,
}

/// The HTTP response a handler answers with.
#[derive(Debug)]
pub enum Response {
    /// `303 See Other` to the given location.
    SeeOther(String),
    /// `200 OK` with the rendered page.
    Page(PageData),
    /// The response saved for the request's idempotency key: on a first
    /// submission the one just saved, on a repeat the one saved by the first.
    Saved,
    /// `400 Bad Request`, with the error's text.
    BadRequest(String),
    /// `500 Internal Server Error`, with the error's text.
    InternalError(String),
}

/// A response, and the flash message to send along with it.
#[derive(Debug)]
pub struct Reply {
    pub flash: Option<FlashMessage>,
    pub response: Response,
}

/// `flash` is a message of level `level` with text `text`.
pub open spec fn flash_is(flash: Option<FlashMessage>, level: FlashLevel, text: Seq<char>) -> bool {
    match flash {
        Some(f) => f.level == level && f.content@ == text,
        None => false,
    }
}

/// `reply` redirects to `location`, with no flash message.
pub open spec fn redirects_to(reply: Reply, location: Seq<char>) -> bool {
    &&& reply.flash is None
    &&& reply.response matches Response::SeeOther(l) && l@ == location
}

/// `reply` redirects to `location` and flashes `text` at `level`.
pub open spec fn redirects_with_flash(reply: Reply, location: Seq<char>, level: FlashLevel, text: Seq<char>) -> bool {
    &&& flash_is(reply.flash, level, text)
    &&& reply.response matches Response::SeeOther(l) && l@ == location
}

/// `reply` is a `500` with error text `cause` and no flash message.
pub open spec fn fails_with(reply: Reply, cause: Seq<char>) -> bool {
    &&& reply.flash is None
    &&& reply.response matches Response::InternalError(c) && c@ == cause
}

/// A redirect to `location`, with no flash message.
pub fn see_other(location: &str) -> (r: Reply)
    ensures
        redirects_to(r, location@),
{
    Reply { flash: None, response: Response::SeeOther(location.to_owned()) }
}

/// A redirect to `location` that flashes `text` at `level`.
pub fn see_other_with_flash(location: &str, level: FlashLevel, text: &str) -> (r: Reply)
    ensures
        redirects_with_flash(r, location@, level, text@),
{
    Reply {
        flash: Some(FlashMessage { level, content: text.to_owned() }),
        response: Response::SeeOther(location.to_owned()),
    }
}

/// A `500` carrying the error's text.
pub fn error500(cause: String) -> (r: Reply)
    ensures
        fails_with(r, cause@),
{
    Reply { flash: None, response: Response::InternalError(cause) }
}

} // verus!
