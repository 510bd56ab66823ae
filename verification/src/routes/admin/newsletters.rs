//! Composing and publishing a newsletter issue.

use uuid::Uuid;
use vstd::prelude::*;
use crate::frontend::PageData;
use crate::routes::{FlashLevel, FlashMessage, Reply, Response, error500, fails_with, flash_is};

verus! {

/// The newsletter form.
pub struct FormData {
    pub title: String,
    pub text_content: String,
    pub html_content: String,
    pub idempotency_key: String,
}

/// Shown once an issue has been accepted for delivery.
pub const ISSUE_ACCEPTED: &'static str = "The newsletter issue has been accepted - emails will go out shortly";

/// A lowercase hexadecimal digit.
pub open spec fn is_lower_hex(c: char) -> bool {
    ('0' <= c && c <= '9') || ('a' <= c && c <= 'f')
}

/// The positions of the hyphens in the hyphenated form of a UUID.
pub open spec fn is_uuid_hyphen_position(i: int) -> bool {
    i == 8 || i == 13 || i == 18 || i == 23
}

/// `s` is the lowercase hyphenated text of a random (version 4, RFC 4122
/// variant) UUID.
pub open spec fn is_v4_uuid_text(s: Seq<char>) -> bool {
    &&& s.len() == 36
    &&& forall|i: int| 0 <= i < 36 ==> if is_uuid_hyphen_position(i) {
        #[trigger] s[i] == '-'
    } else {
        is_lower_hex(s[i])
    }
    &&& s[14] == '4'
    &&& (s[19] == '8' || s[19] == '9' || s[19] == 'a' || s[19] == 'b')
}

/// Calls `uuid::Uuid::new_v4` and formats the UUID with its `Display` impl.
///
/// Trusted: the text is the lowercase hyphenated form of a version-4 UUID,
/// as the crate's `new_v4` (which fixes the version and variant bits) and
/// `format_hyphenated` show. Which UUID comes out is random and not stated.
#[verifier::external_body]
fn new_v4_text() -> (r: String)
    ensures
        is_v4_uuid_text(r@),
{
    Uuid::new_v4().to_string()
}

/// The newsletter form, with the pending flash messages and a fresh random
/// idempotency key.
pub fn newsletter_form(messages: Vec<String>) -> (r: PageData)
    ensures
        r matches PageData::Newsletters { messages: m, idempotency_key: k } && m@ == messages@ && is_v4_uuid_text(k@),
{
    let key = new_v4_text();
    PageData::Newsletters { messages, idempotency_key: key }
}

/// How to go on with a request, given whether its idempotency key was seen
/// before.
#[derive(Debug, Clone, Copy, PartialEq, Eq, Structural)]
pub enum NextAction {
    /// The key is new: process the request.
    StartProcessing,
    /// The request was already processed: answer with the saved response.
    ReturnSavedResponse,
}

/// What the publishing handler has just learnt.
pub enum PublishEvent {
    /// The form was submitted.
    Submitted,
    /// The submitted idempotency key was checked, or the text of the error
    /// that rejected it.
    KeyChecked(Result<(), String>),
    /// The idempotency store said how to go on, or the text of the error
    /// that prevented it.
    ProcessingDecided(Result<NextAction, String>),
    /// The issue was stored under this id, or the text of the error that
    /// prevented it.
    IssueStored(Result<u128, String>),
    /// A delivery task was queued for every confirmed subscriber, or the text
    /// of the error that prevented it.
    DeliveriesQueued(Result<(), String>),
    /// The response was saved under the idempotency key, or the text of the
    /// error that prevented it.
    ResponseSaved(Result<(), String>),
}

/// What the publishing handler does next.
#[derive(Debug)]
pub enum PublishAction {
    /// Check that this text is a well-formed idempotency key.
    CheckKey(String),
    /// Ask the idempotency store whether this user already submitted this
    /// key.
    TryProcessing { idempotency_key: String, user_id: u128 },
    /// Store an issue with this title and these contents.
    StoreIssue { title: String, text_content: String, html_content: String },
    /// Queue a delivery of the issue with this id to every confirmed
    /// subscriber.
    QueueDeliveries(u128),
    /// Save a redirect to `location` as this user's response for this key.
    SaveResponse { idempotency_key: String, user_id: u128, location: String },
    /// Answer with the reply.
    Respond(Reply),
}

/// `a` stores the issue written in `form`.
pub open spec fn stores_issue_of(a: PublishAction, form: FormData) -> bool {
    a matches PublishAction::StoreIssue { title, text_content, html_content }
        && title@ == form.title@ && text_content@ == form.text_content@
        && html_content@ == form.html_content@
}

/// `a` asks the idempotency store about the form's key for `user_id`.
pub open spec fn tries_key_of(a: PublishAction, form: FormData, user_id: u128) -> bool {
    a matches PublishAction::TryProcessing { idempotency_key, user_id: u }
        && idempotency_key@ == form.idempotency_key@ && u == user_id
}

/// `a` saves, for `user_id` and the form's key, a redirect back to the
/// newsletter form.
pub open spec fn saves_response_of(a: PublishAction, form: FormData, user_id: u128) -> bool {
    a matches PublishAction::SaveResponse { idempotency_key, user_id: u, location }
        && idempotency_key@ == form.idempotency_key@ && u == user_id
        && location@ == "/admin/newsletters"@
}

/// `a` answers with the saved response and the acceptance message.
pub open spec fn returns_accepted(a: PublishAction) -> bool {
    a matches PublishAction::Respond(reply) && flash_is(reply.flash, FlashLevel::Info, ISSUE_ACCEPTED@)
        && reply.response is Saved
}

/// `a` answers with a `400` carrying `cause`.
pub open spec fn rejects_key(a: PublishAction, cause: Seq<char>) -> bool {
    a matches PublishAction::Respond(reply) && reply.flash is None && is_bad_request(reply.response, cause)
}

/// `r` is a `400` carrying `cause`.
pub open spec fn is_bad_request(r: Response, cause: Seq<char>) -> bool {
    r matches Response::BadRequest(m) && m@ == cause
}

/// `a` answers with a `500` carrying `cause`.
pub open spec fn fails_publishing(a: PublishAction, cause: Seq<char>) -> bool {
    a matches PublishAction::Respond(reply) && fails_with(reply, cause)
}

/// A repeated submission is answered as the first one was: the same flash
/// message at the same level, and the saved response.
pub proof fn lemma_repeat_is_answered_like_first(first: PublishAction, repeat: PublishAction)
    requires
        returns_accepted(first),
        returns_accepted(repeat),
    ensures
        first matches PublishAction::Respond(a) && repeat matches PublishAction::Respond(b)
            && a.flash matches Some(fa) && b.flash matches Some(fb) && fa.level == fb.level
            && fa.content@ == fb.content@ && a.response is Saved && b.response is Saved,
{
}

fn accepted() -> (r: PublishAction)
    ensures
        returns_accepted(r),
{
    PublishAction::Respond(Reply {
        flash: Some(FlashMessage { level: FlashLevel::Info, content: ISSUE_ACCEPTED.to_owned() }),
        response: Response::Saved,
    })
}

/// The next step of publishing the issue submitted in `form` by the user
/// `user_id`. An issue is only stored when the idempotency store says the
/// key is new, and it holds the form's title and contents; a repeated
/// submission is answered exactly as the first one was.
pub fn publish_newsletter(form: &FormData, user_id: u128, event: PublishEvent) -> (r: PublishAction)
    ensures
        match event {
            PublishEvent::Submitted =>
                (r matches PublishAction::CheckKey(k) && k@ == form.idempotency_key@),
            PublishEvent::KeyChecked(Ok(())) => tries_key_of(r, *form, user_id),
            PublishEvent::KeyChecked(Err(c)) => rejects_key(r, c@),
            PublishEvent::ProcessingDecided(Ok(NextAction::StartProcessing)) => stores_issue_of(r, *form),
            PublishEvent::ProcessingDecided(Ok(NextAction::ReturnSavedResponse)) => returns_accepted(r),
            PublishEvent::ProcessingDecided(Err(c)) => fails_publishing(r, c@),
            PublishEvent::IssueStored(Ok(id)) => r == PublishAction::QueueDeliveries(id),
            PublishEvent::IssueStored(Err(_)) =>
                fails_publishing(r, "Failed to store newsletter issue details"@),
            PublishEvent::DeliveriesQueued(Ok(())) => saves_response_of(r, *form, user_id),
            PublishEvent::DeliveriesQueued(Err(_)) => fails_publishing(r, "Failed to enqueue delivery tasks"@),
            PublishEvent::ResponseSaved(Ok(())) => returns_accepted(r),
            PublishEvent::ResponseSaved(Err(c)) => fails_publishing(r, c@),
        },
{
    match event {
        PublishEvent::Submitted => PublishAction::CheckKey(form.idempotency_key.clone()),
        PublishEvent::KeyChecked(Ok(())) => {
            PublishAction::TryProcessing { idempotency_key: form.idempotency_key.clone(), user_id }
        },
        PublishEvent::KeyChecked(Err(c)) => {
            PublishAction::Respond(Reply { flash: None, response: Response::BadRequest(c) })
        },
        PublishEvent::ProcessingDecided(Ok(NextAction::StartProcessing)) => PublishAction::StoreIssue {
            title: form.title.clone(),
            text_content: form.text_content.clone(),
            html_content: form.html_content.clone(),
        },
        PublishEvent::ProcessingDecided(Ok(NextAction::ReturnSavedResponse)) => accepted(),
        PublishEvent::ProcessingDecided(Err(c)) => PublishAction::Respond(error500(c)),
        PublishEvent::IssueStored(Ok(id)) => PublishAction::QueueDeliveries(id),
        PublishEvent::IssueStored(Err(_)) => {
            PublishAction::Respond(error500("Failed to store newsletter issue details".to_owned()))
        },
        PublishEvent::DeliveriesQueued(Ok(())) => PublishAction::SaveResponse {
            idempotency_key: form.idempotency_key.clone(),
            user_id,
            location: "/admin/newsletters".to_owned(),
        },
        PublishEvent::DeliveriesQueued(Err(_)) => {
            PublishAction::Respond(error500("Failed to enqueue delivery tasks".to_owned()))
        },
        PublishEvent::ResponseSaved(Ok(())) => accepted(),
        PublishEvent::ResponseSaved(Err(c)) => PublishAction::Respond(error500(c)),
    }
}

} // verus!
