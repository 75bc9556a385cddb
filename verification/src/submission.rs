//! The submission record: one `(name, email, message)` triple.

use vstd::prelude::*;

verus! {

/// Mathematical model of a submission: each field as its character sequence.
pub struct SubmissionModel {
    pub name: Seq<char>,
    pub email: Seq<char>,
    pub message: Seq<char>,
}

/// One contact-form submission. Fields are free text; validity is a separate
/// judgement (see `validate`), so any triple of strings can be held.
pub struct Submission {
    pub name: String,
    pub email: String,
    pub message: String,
}

impl View for Submission {
    type V = SubmissionModel;

    open spec fn view(&self) -> SubmissionModel {
        SubmissionModel { name: self.name@, email: self.email@, message: self.message@ }
    }
}

impl Submission {
    pub fn new(name: String, email: String, message: String) -> (r: Submission)
        ensures
            r@.name == name@,
            r@.email == email@,
            r@.message == message@,
    {
        Submission { name, email, message }
    }
}

impl Clone for Submission {
    fn clone(&self) -> (r: Self)
        ensures
            r@ == self@,
    {
        Submission {
            name: self.name.clone(),
            email: self.email.clone(),
            message: self.message.clone(),
        }
    }
}

} // verus!
