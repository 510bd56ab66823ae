//! A subscriber's e-mail address, accepted only once the `validator` crate has
//! judged it well formed.

use validator::ValidateEmail;
use vstd::prelude::*;

verus! {

/// What `validator::ValidateEmail::validate_email` answers for a string. The
/// check follows the HTML5 definition of a valid e-mail address (a regular
/// expression on the local part, a domain or address-literal check on the
/// domain part, IDNA conversion); it depends on the string alone.
pub uninterp spec fn email_is_valid(s: Seq<char>) -> bool;

/// Calls `validator::ValidateEmail::validate_email` on `s`.
///
/// Trusted: the result is `email_is_valid(s@)`. From the crate's source, an
/// accepted string is non-empty, holds an `@`, and does not start with `@`
/// (the local part before the last `@` must match a non-empty pattern that
/// excludes `@`). Nothing more of the check is stated.
#[verifier::external_body]
fn validate_email(s: &str) -> (r: bool)
    ensures
        r == email_is_valid(s@),
        r ==> s@.len() > 0,
        r ==> s@.contains('@'),
        r ==> s@[0] != '@',
{
    s.validate_email()
}

/// The text of the error returned for an address that fails validation.
pub open spec fn invalid_email_message(value: Seq<char>) -> Seq<char> {
    value + " is not a valid subscriber email"@
}

/// An e-mail address that passed validation.
#[derive(Debug)]
pub struct SubscriberEmail(String);

impl View for SubscriberEmail {
    type V = Seq<char>;

    closed spec fn view(&self) -> Seq<char> {
        self.0@
    }
}

impl SubscriberEmail {
    /// Validates `value` as a subscriber's e-mail address.
    pub fn parse(value: String) -> (r: Result<SubscriberEmail, String>)
        ensures
            r is Ok <==> email_is_valid(value@),
            r matches Ok(e) ==> e@ == value@,
            r matches Err(m) ==> m@ == invalid_email_message(value@),
            r is Ok ==> value@.len() > 0 && value@.contains('@') && value@[0] != '@',
    {
        let valid = validate_email(value.as_str());
        Self::from_validation(value, valid)
    }

    /// Builds the result of `parse` once the validator's answer `valid` for
    /// `value` is known.
    pub fn from_validation(value: String, valid: bool) -> (r: Result<SubscriberEmail, String>)
        ensures
            r is Ok <==> valid,
            r matches Ok(e) ==> e@ == value@,
            r matches Err(m) ==> m@ == invalid_email_message(value@),
    {
        if valid {
            Ok(SubscriberEmail(value))
        } else {
            Err(value.concat(" is not a valid subscriber email"))
        }
    }

    /// The address as text.
    pub fn as_ref(&self) -> (r: &str)
        ensures
            r@ == self@,
    {
        self.0.as_str()
    }
}

} // verus!
