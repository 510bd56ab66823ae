use fake::faker::internet::en::SafeEmail;
use fake::Fake;
use zero2prod::domain::subscriber_email::SubscriberEmail;

#[test]
fn empty_string_is_rejected() {
    let email = "".to_owned();

    assert!(SubscriberEmail::parse(email).is_err());
}

#[test]
fn email_missing_at_symbol_is_rejected() {
    let email = "domain.com".to_owned();

    assert!(SubscriberEmail::parse(email).is_err());
}

#[test]
fn email_missing_subject_is_rejected() {
    let email = "@domain.com".to_owned();

    assert!(SubscriberEmail::parse(email).is_err());
}

#[test]
fn valid_emails_are_parsed_successfully() {
    let email: String = SafeEmail().fake();

    assert!(SubscriberEmail::parse(email).is_ok());
}

#[test]
fn accepted_email_keeps_its_text() {
    let email = SubscriberEmail::parse("ursula@example.com".to_owned()).unwrap();
    assert_eq!(email.as_ref(), "ursula@example.com");
}

#[test]
fn accepted_email_is_accepted_again() {
    let email = SubscriberEmail::parse("le.guin@example.org".to_owned()).unwrap();
    assert!(SubscriberEmail::parse(email.as_ref().to_owned()).is_ok());
}

#[test]
fn rejection_names_the_address() {
    let err = SubscriberEmail::parse("not-an-email".to_owned()).unwrap_err();
    assert_eq!(err, "not-an-email is not a valid subscriber email");
}

#[test]
fn address_with_two_at_signs_is_rejected() {
    assert!(SubscriberEmail::parse("a@b@example.com".to_owned()).is_err());
}

#[test]
fn validation_answer_decides_the_result() {
    assert!(SubscriberEmail::from_validation("x".to_owned(), true).is_ok());
    assert_eq!(
        SubscriberEmail::from_validation("x@y.z".to_owned(), false).unwrap_err(),
        "x@y.z is not a valid subscriber email"
    );
}
