//! The validator: the structural rule a submission must pass before it is
//! persisted. The rule is deliberately weak and is reproduced exactly: the
//! name needs at least 2 characters, the email at least 3 characters and an
//! `@` somewhere in it; the message is unconstrained. Lengths are counted in
//! characters.

use vstd::prelude::*;
use crate::submission::{Submission, SubmissionModel};

verus! {

/// The validation rule itself, over the mathematical model.
pub open spec fn valid_submission(s: SubmissionModel) -> bool {
    &&& s.name.len() >= 2
    &&& s.email.len() >= 3
    &&& s.email.contains('@')
}

/// Whether the character `c` occurs anywhere in `s`.
fn str_contains_char(s: &str, c: char) -> (r: bool)
    ensures
        r == s@.contains(c),
{
    let n = s.unicode_len();
    let mut i: usize = 0;
    while i < n
        invariant
            n == s@.len(),
            i <= n,
            forall|j: int| 0 <= j < i ==> s@[j] != c,
        decreases n - i,
    {
        if s.get_char(i) == c {
            return true;
        }
        i = i + 1;
    }
    false
}

/// The validator's judgement on a submission, as a plain truth value.
pub fn validate(s: &Submission) -> (r: bool)
    ensures
        r == valid_submission(s@),
{
    let name_long_enough = s.name.as_str().unicode_len() >= 2;
    let email_long_enough = s.email.as_str().unicode_len() >= 3;
    let email_has_at = str_contains_char(s.email.as_str(), '@');
    name_long_enough && email_long_enough && email_has_at
}

/// The validator's judgement: a submission is either valid, or invalid with
/// the single combined failure message (there is no per-field detail).
pub enum Validity {
    Valid,
    Invalid { reason: String },
}

/// Checks a submission and, when it fails, attaches the fixed failure message.
pub fn check_submission(s: &Submission) -> (r: Validity)
    ensures
        valid_submission(s@) ==> r is Valid,
        !valid_submission(s@) ==> (r matches Validity::Invalid { reason } && reason@ == "Invalid input!"@),
{
    if validate(s) {
        Validity::Valid
    } else {
        Validity::Invalid { reason: "Invalid input!".to_owned() }
    }
}

} // verus!
