use zero2prod::authentication::AuthError;
use zero2prod::frontend::PageData;
use zero2prod::routes::admin::dashboard::{admin_dashboard, DashboardAction, DashboardEvent};
use zero2prod::routes::admin::logout::log_out;
use zero2prod::routes::admin::newsletters::{
    newsletter_form, publish_newsletter, FormData as NewsletterForm, NextAction, PublishAction,
    PublishEvent,
};
use zero2prod::routes::admin::password::{
    change_password, change_password_form, FormData, PasswordAction, PasswordEvent,
};
use zero2prod::routes::login::{login, login_redirect, LoginAction, LoginError};
use zero2prod::routes::{FlashLevel, Reply, Response};

fn assert_redirect(reply: &Reply, location: &str, flash: Option<(FlashLevel, &str)>) {
    match &reply.response {
        Response::SeeOther(l) => assert_eq!(l, location),
        other => panic!("expected a redirect, got {:?}", other),
    }
    match (&reply.flash, flash) {
        (None, None) => {}
        (Some(f), Some((level, text))) => {
            assert_eq!(f.level, level);
            assert_eq!(f.content, text);
        }
        (got, want) => panic!("flash mismatch: {:?} vs {:?}", got, want.map(|w| w.1)),
    }
}

fn assert_internal_error(reply: &Reply, cause: &str) {
    assert!(reply.flash.is_none());
    match &reply.response {
        Response::InternalError(c) => assert_eq!(c, cause),
        other => panic!("expected a 500, got {:?}", other),
    }
}

#[test]
fn valid_credentials_start_a_session_then_open_the_dashboard() {
    assert!(matches!(login(zero2prod::routes::login::LoginEvent::CredentialsChecked(Ok(7))), LoginAction::StartSession(7)));
    match login(zero2prod::routes::login::LoginEvent::SessionStored(Ok(()))) {
        LoginAction::Succeed(reply) => assert_redirect(&reply, "/admin/dashboard", None),
        other => panic!("{:?}", other),
    }
}

#[test]
fn rejected_credentials_flash_a_generic_message() {
    for cause in ["unknown username", "wrong password"] {
        match login(zero2prod::routes::login::LoginEvent::CredentialsChecked(Err(
            AuthError::InvalidCredentials(cause.to_owned()),
        ))) {
            LoginAction::Fail(f) => {
                assert_redirect(&f.reply, "/login", Some((FlashLevel::Error, "Authentication failed")));
                assert_eq!(f.error.source(), cause);
            }
            other => panic!("{:?}", other),
        }
    }
}

#[test]
fn unexpected_login_errors_flash_something_went_wrong() {
    match login(zero2prod::routes::login::LoginEvent::SessionStored(Err("redis down".to_owned()))) {
        LoginAction::Fail(f) => {
            assert_redirect(&f.reply, "/login", Some((FlashLevel::Error, "Something went wrong")));
            assert!(matches!(f.error, LoginError::UnexpectedError(_)));
        }
        other => panic!("{:?}", other),
    }
    let f = login_redirect(LoginError::UnexpectedError("pool timeout".to_owned()));
    assert_eq!(f.error.to_string(), "Something went wrong");
}

#[test]
fn anonymous_visitors_are_sent_to_login() {
    match admin_dashboard(DashboardEvent::SessionRead(Ok(None))) {
        DashboardAction::Respond(reply) => assert_redirect(&reply, "/login", None),
        other => panic!("{:?}", other),
    }
    assert_redirect(&change_password_form(Ok(None), vec![]), "/login", None);
}

#[test]
fn dashboard_greets_the_logged_in_user() {
    assert!(matches!(
        admin_dashboard(DashboardEvent::SessionRead(Ok(Some(42)))),
        DashboardAction::FetchUsername(42)
    ));
    match admin_dashboard(DashboardEvent::UsernameFetched(Ok("admin".to_owned()))) {
        DashboardAction::Respond(Reply { flash: None, response: Response::Page(PageData::Dashboard { username }) }) => {
            assert_eq!(username, "admin")
        }
        other => panic!("{:?}", other),
    }
    match admin_dashboard(DashboardEvent::SessionRead(Err("bad cookie".to_owned()))) {
        DashboardAction::Respond(reply) => assert_internal_error(&reply, "bad cookie"),
        other => panic!("{:?}", other),
    }
}

#[test]
fn logging_out() {
    let out = log_out(Ok(Some(1)));
    assert!(out.end_session);
    assert_redirect(&out.reply, "/login", Some((FlashLevel::Info, "You have successfully logged out")));
    let out = log_out(Ok(None));
    assert!(!out.end_session);
    assert_redirect(&out.reply, "/login", None);
    let out = log_out(Err("bad cookie".to_owned()));
    assert!(!out.end_session);
    assert_internal_error(&out.reply, "bad cookie");
}

#[test]
fn password_form_shows_pending_messages() {
    match change_password_form(Ok(Some(3)), vec!["hello".to_owned()]) {
        Reply { flash: None, response: Response::Page(PageData::Password { messages }) } => {
            assert_eq!(messages, vec!["hello".to_owned()])
        }
        other => panic!("{:?}", other),
    }
}

fn form(new: &str, check: &str) -> FormData {
    FormData {
        current_password: "old-pass".to_owned(),
        new_password: new.to_owned(),
        new_password_check: check.to_owned(),
    }
}

#[test]
fn new_passwords_must_match() {
    match change_password(&form("a-new-pass", "another-pass"), PasswordEvent::Submitted) {
        PasswordAction::Respond(reply) => assert_redirect(
            &reply,
            "/admin/password",
            Some((
                FlashLevel::Error,
                "You entered two different new passwords - the field values must match.",
            )),
        ),
        other => panic!("{:?}", other),
    }
}

#[test]
fn password_change_walks_through_the_checks() {
    let f = form("a-new-pass", "a-new-pass");
    assert!(matches!(change_password(&f, PasswordEvent::Submitted), PasswordAction::FetchUsername));
    match change_password(&f, PasswordEvent::UsernameFetched(Ok("admin".to_owned()))) {
        PasswordAction::CheckCredentials { username, password } => {
            assert_eq!(username, "admin");
            assert_eq!(password, "old-pass");
        }
        other => panic!("{:?}", other),
    }
    match change_password(&f, PasswordEvent::CredentialsChecked(Ok(()))) {
        PasswordAction::StorePassword(p) => assert_eq!(p, "a-new-pass"),
        other => panic!("{:?}", other),
    }
    match change_password(&f, PasswordEvent::PasswordStored(Ok(()))) {
        PasswordAction::Respond(reply) => assert_redirect(
            &reply,
            "/admin/password",
            Some((FlashLevel::Error, "Your password has been changed")),
        ),
        other => panic!("{:?}", other),
    }
}

#[test]
fn wrong_current_password_is_refused() {
    let f = form("a-new-pass", "a-new-pass");
    match change_password(&f, PasswordEvent::CredentialsChecked(Err(AuthError::InvalidCredentials("x".to_owned())))) {
        PasswordAction::Respond(reply) => assert_redirect(
            &reply,
            "/admin/password",
            Some((FlashLevel::Error, "The current password is incorrect")),
        ),
        other => panic!("{:?}", other),
    }
    match change_password(&f, PasswordEvent::CredentialsChecked(Err(AuthError::UnexpectedError("db".to_owned())))) {
        PasswordAction::Respond(reply) => assert_internal_error(&reply, "db"),
        other => panic!("{:?}", other),
    }
}

#[test]
fn newsletter_form_carries_a_fresh_v4_key() {
    match newsletter_form(vec!["m".to_owned()]) {
        PageData::Newsletters { messages, idempotency_key } => {
            assert_eq!(messages, vec!["m".to_owned()]);
            assert_eq!(idempotency_key.len(), 36);
            for (i, c) in idempotency_key.chars().enumerate() {
                if [8, 13, 18, 23].contains(&i) {
                    assert_eq!(c, '-');
                } else {
                    assert!(c.is_ascii_hexdigit() && !c.is_ascii_uppercase());
                }
            }
            assert_eq!(idempotency_key.chars().nth(14), Some('4'));
            assert!("89ab".contains(idempotency_key.chars().nth(19).unwrap()));
        }
        other => panic!("{:?}", other),
    }
}

#[test]
fn two_forms_get_different_keys() {
    let key = |p: PageData| match p {
        PageData::Newsletters { idempotency_key, .. } => idempotency_key,
        other => panic!("{:?}", other),
    };
    assert_ne!(key(newsletter_form(vec![])), key(newsletter_form(vec![])));
}

fn assert_accepted(action: PublishAction) {
    match action {
        PublishAction::Respond(Reply { flash: Some(f), response: Response::Saved }) => {
            assert_eq!(f.level, FlashLevel::Info);
            assert_eq!(f.content, "The newsletter issue has been accepted - emails will go out shortly");
        }
        other => panic!("{:?}", other),
    }
}

fn newsletter() -> NewsletterForm {
    NewsletterForm {
        title: "Newsletter title".to_owned(),
        text_content: "Newsletter body as plain text".to_owned(),
        html_content: "<p>Newsletter body as HTML</p>".to_owned(),
        idempotency_key: "2b1d6b1e-6f0a-4c1e-9a53-0c3b1f1e2d7a".to_owned(),
    }
}

#[test]
fn publishing_walks_through_the_steps() {
    let form = newsletter();
    let step = |event| publish_newsletter(&form, 77, event);
    match step(PublishEvent::Submitted) {
        PublishAction::CheckKey(k) => assert_eq!(k, form.idempotency_key),
        other => panic!("{:?}", other),
    }
    match step(PublishEvent::KeyChecked(Ok(()))) {
        PublishAction::TryProcessing { idempotency_key, user_id } => {
            assert_eq!(idempotency_key, form.idempotency_key);
            assert_eq!(user_id, 77);
        }
        other => panic!("{:?}", other),
    }
    match step(PublishEvent::ProcessingDecided(Ok(NextAction::StartProcessing))) {
        PublishAction::StoreIssue { title, text_content, html_content } => {
            assert_eq!(title, "Newsletter title");
            assert_eq!(text_content, "Newsletter body as plain text");
            assert_eq!(html_content, "<p>Newsletter body as HTML</p>");
        }
        other => panic!("{:?}", other),
    }
    assert!(matches!(step(PublishEvent::IssueStored(Ok(9))), PublishAction::QueueDeliveries(9)));
    match step(PublishEvent::DeliveriesQueued(Ok(()))) {
        PublishAction::SaveResponse { idempotency_key, user_id, location } => {
            assert_eq!(idempotency_key, form.idempotency_key);
            assert_eq!(user_id, 77);
            assert_eq!(location, "/admin/newsletters");
        }
        other => panic!("{:?}", other),
    }
    assert_accepted(step(PublishEvent::ResponseSaved(Ok(()))));
}

#[test]
fn repeated_submission_is_answered_like_the_first() {
    assert_accepted(publish_newsletter(
        &newsletter(),
        77,
        PublishEvent::ProcessingDecided(Ok(NextAction::ReturnSavedResponse)),
    ));
}

#[test]
fn newsletters_returns_400_for_invalid_key() {
    match publish_newsletter(
        &newsletter(),
        77,
        PublishEvent::KeyChecked(Err("The idempotency key cannot be empty".to_owned())),
    ) {
        PublishAction::Respond(Reply { flash: None, response: Response::BadRequest(m) }) => {
            assert_eq!(m, "The idempotency key cannot be empty")
        }
        other => panic!("{:?}", other),
    }
}

#[test]
fn publishing_failures_are_500s_with_context() {
    match publish_newsletter(&newsletter(), 77, PublishEvent::IssueStored(Err("unique violation".to_owned()))) {
        PublishAction::Respond(reply) => assert_internal_error(&reply, "Failed to store newsletter issue details"),
        other => panic!("{:?}", other),
    }
    match publish_newsletter(&newsletter(), 77, PublishEvent::DeliveriesQueued(Err("timeout".to_owned()))) {
        PublishAction::Respond(reply) => assert_internal_error(&reply, "Failed to enqueue delivery tasks"),
        other => panic!("{:?}", other),
    }
}
