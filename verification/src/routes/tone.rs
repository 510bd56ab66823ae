//! Every message the handlers flash is shown with the alert style that fits
//! it: the confirmations as successes, the refusals and failures as errors.

use vstd::prelude::*;
use crate::frontend::is_success_message;
use crate::routes::admin::logout::LOGGED_OUT;
use crate::routes::admin::newsletters::ISSUE_ACCEPTED;
use crate::routes::admin::password::{PASSWORDS_DIFFER, PASSWORD_CHANGED, WRONG_CURRENT_PASSWORD};
use crate::routes::login::{AUTHENTICATION_FAILED, SOMETHING_WENT_WRONG};
use crate::text::{occurs_at, seq_contains};

verus! {

proof fn lemma_occurrence_starts_with(h: Seq<char>, n: Seq<char>, i: int)
    requires
        n.len() >= 4,
        occurs_at(h, n, i),
    ensures
        h[i] == n[0],
        h[i + 1] == n[1],
        h[i + 2] == n[2],
        h[i + 3] == n[3],
{
    assert(h.subrange(i, i + n.len())[0] == n[0]);
    assert(h.subrange(i, i + n.len())[1] == n[1]);
    assert(h.subrange(i, i + n.len())[2] == n[2]);
    assert(h.subrange(i, i + n.len())[3] == n[3]);
}

proof fn lemma_not_success(h: Seq<char>)
    requires
        forall|i: int| 0 <= i && i + 3 < h.len() ==> !(#[trigger] h[i] == 's' && h[i + 1] == 'u' && h[i + 2] == 'c' && h[i + 3] == 'c'),
        forall|i: int| 0 <= i && i + 3 < h.len() ==> !(#[trigger] h[i] == 'a' && h[i + 1] == 'c' && h[i + 2] == 'c' && h[i + 3] == 'e'),
        forall|i: int| 0 <= i && i + 3 < h.len() ==> !(#[trigger] h[i] == 'c' && h[i + 1] == 'h' && h[i + 2] == 'a' && h[i + 3] == 'n'),
    ensures
        !is_success_message(h),
{
    reveal_strlit("successfully");
    reveal_strlit("accepted");
    reveal_strlit("changed");
    assert forall|i: int| !occurs_at(h, "successfully"@, i) by {
        if occurs_at(h, "successfully"@, i) {
            lemma_occurrence_starts_with(h, "successfully"@, i);
        }
    }
    assert forall|i: int| !occurs_at(h, "accepted"@, i) by {
        if occurs_at(h, "accepted"@, i) {
            lemma_occurrence_starts_with(h, "accepted"@, i);
        }
    }
    assert forall|i: int| !occurs_at(h, "changed"@, i) by {
        if occurs_at(h, "changed"@, i) {
            lemma_occurrence_starts_with(h, "changed"@, i);
        }
    }
}

/// The confirmations that the handlers flash (logged out, issue accepted,
/// password changed) are shown as successes; the refusals and failures
/// (different new passwords, wrong current password, failed login) are shown
/// as errors.
pub proof fn lemma_flash_messages_are_styled_by_tone()
    ensures
        is_success_message(LOGGED_OUT@),
        is_success_message(ISSUE_ACCEPTED@),
        is_success_message(PASSWORD_CHANGED@),
        !is_success_message(PASSWORDS_DIFFER@),
        !is_success_message(WRONG_CURRENT_PASSWORD@),
        !is_success_message(AUTHENTICATION_FAILED@),
        !is_success_message(SOMETHING_WENT_WRONG@),
{
    reveal_strlit("successfully");
    reveal_strlit("accepted");
    reveal_strlit("changed");
    reveal_strlit("You have successfully logged out");
    reveal_strlit("The newsletter issue has been accepted - emails will go out shortly");
    reveal_strlit("Your password has been changed");
    reveal_strlit("You entered two different new passwords - the field values must match.");
    reveal_strlit("The current password is incorrect");
    reveal_strlit("Authentication failed");
    reveal_strlit("Something went wrong");
    assert(LOGGED_OUT@.subrange(9, 21) =~= "successfully"@);
    assert(occurs_at(LOGGED_OUT@, "successfully"@, 9));
    assert(ISSUE_ACCEPTED@.subrange(30, 38) =~= "accepted"@);
    assert(occurs_at(ISSUE_ACCEPTED@, "accepted"@, 30));
    assert(PASSWORD_CHANGED@.subrange(23, 30) =~= "changed"@);
    assert(occurs_at(PASSWORD_CHANGED@, "changed"@, 23));
    lemma_not_success(PASSWORDS_DIFFER@);
    lemma_not_success(WRONG_CURRENT_PASSWORD@);
    lemma_not_success(AUTHENTICATION_FAILED@);
    lemma_not_success(SOMETHING_WENT_WRONG@);
}

} // verus!
