//! The submit workflow: the states one submission passes through from
//! receipt to confirmation or rejection, the decisions taken at each step,
//! and the whole path run against the store. The insert into the real
//! relational store is I/O performed by the caller between `receive` and
//! `confirm`; every decision around it is made and verified here.

use vstd::prelude::*;
use crate::submission::{Submission, SubmissionModel};
use crate::store::Store;
use crate::validate::{valid_submission, validate};
use crate::render::{Page, PageModel};

verus! {

/// The states of one submission's workflow. `Rejected` and `Confirmed` are
/// terminal: they end the request, with no retry and no resumption.
pub enum Phase {
    /// Raw form fields have arrived.
    Received,
    /// Validation failed; the form is re-rendered with an error.
    Rejected,
    /// Validation passed; the row is about to be written.
    Accepted,
    /// The row has been written.
    Stored,
    /// The success view has been chosen; the request is answered.
    Confirmed,
}

/// Whether a phase ends the request.
pub open spec fn is_terminal(p: Phase) -> bool {
    p == Phase::Rejected || p == Phase::Confirmed
}

/// The transition relation of the workflow. `fields_valid` is the
/// validator's judgement on the submission; `persisted` is whether the
/// store accepted the row. A storage failure leaves the workflow in
/// `Accepted`: the failure is surfaced to the caller as an internal error,
/// never retried and never swallowed.
pub open spec fn next_phase(p: Phase, fields_valid: bool, persisted: bool) -> Phase {
    match p {
        Phase::Received => if fields_valid {
            Phase::Accepted
        } else {
            Phase::Rejected
        },
        Phase::Accepted => if persisted {
            Phase::Stored
        } else {
            Phase::Accepted
        },
        Phase::Stored => Phase::Confirmed,
        Phase::Rejected => Phase::Rejected,
        Phase::Confirmed => Phase::Confirmed,
    }
}

/// A valid submission whose row the store accepts drives the workflow from
/// `Received` through `Accepted` and `Stored` to the terminal `Confirmed`.
pub proof fn lemma_valid_submission_reaches_confirmed(fields: SubmissionModel)
    requires
        valid_submission(fields),
    ensures
        next_phase(Phase::Received, valid_submission(fields), true) == Phase::Accepted,
        next_phase(Phase::Accepted, valid_submission(fields), true) == Phase::Stored,
        next_phase(Phase::Stored, valid_submission(fields), true) == Phase::Confirmed,
        is_terminal(Phase::Confirmed),
{
}

/// An invalid submission is rejected in one step, whatever the store would
/// have done, and `Rejected` is terminal: the workflow never reaches
/// `Accepted`, so no row is ever written for it.
pub proof fn lemma_invalid_submission_rejected(fields: SubmissionModel, persisted: bool)
    requires
        !valid_submission(fields),
    ensures
        next_phase(Phase::Received, valid_submission(fields), persisted) == Phase::Rejected,
        next_phase(Phase::Rejected, valid_submission(fields), persisted) == Phase::Rejected,
        is_terminal(Phase::Rejected),
{
}

/// The decision on freshly received fields: reject with a view, or accept
/// and hand the fields on to be persisted.
pub enum SubmitDecision {
    /// Validation failed. The view echoes the submitted values with the
    /// inline error message; nothing is to be persisted.
    Reject { page: Page },
    /// Validation passed. The caller must persist these fields, then build
    /// the confirmation with `confirm`.
    Accept { fields: Submission },
}

/// `Received` → `Rejected` or `Accepted`: validates the fields and either
/// keeps them for persistence or builds the error view around them.
pub fn receive(fields: Submission) -> (r: SubmitDecision)
    ensures
        valid_submission(fields@) ==> (r matches SubmitDecision::Accept { fields: kept }
            && kept@ == fields@),
        !valid_submission(fields@) ==> (r matches SubmitDecision::Reject { page }
            && page@ == (PageModel::FormWithError {
            name: fields@.name,
            email: fields@.email,
            message: fields@.message,
            error_message: "Invalid input!"@,
        })),
{
    if validate(&fields) {
        SubmitDecision::Accept { fields }
    } else {
        SubmitDecision::Reject {
            page: Page::FormWithError {
                name: fields.name,
                email: fields.email,
                message: fields.message,
                error_message: "Invalid input!".to_owned(),
            },
        }
    }
}

/// What the caller reports about the insert of an accepted submission.
pub enum StoreOutcome {
    /// The row was written.
    Persisted,
    /// The store failed; the request must end in an internal error.
    Failed,
}

/// The end of an accepted submission's workflow: the success view, or a
/// storage failure to be surfaced as an internal error.
pub enum ConfirmResult {
    /// `Stored` → `Confirmed`: the success view naming the submitter.
    Confirmed { page: Page },
    /// The row could not be written; nothing is retried or swallowed.
    StorageFailure,
}

/// `Accepted` → `Stored` → `Confirmed` when the insert succeeded, and the
/// unrecoverable internal error when it did not.
pub fn confirm(name: String, outcome: StoreOutcome) -> (r: ConfirmResult)
    ensures
        outcome is Persisted ==> (r matches ConfirmResult::Confirmed { page }
            && page@ == (PageModel::Success { name: name@ })),
        outcome is Failed ==> r is StorageFailure,
{
    match outcome {
        StoreOutcome::Persisted => ConfirmResult::Confirmed { page: Page::Success { name } },
        StoreOutcome::Failed => ConfirmResult::StorageFailure,
    }
}

/// The whole submit path against the store: a valid submission is appended
/// to the table — and is then in the listing — and answered with the
/// success view naming the submitter; an invalid one leaves the table
/// untouched and is answered with the form echoing its values and the
/// inline error message.
pub fn handle_submit(store: &mut Store, fields: Submission) -> (r: Page)
    ensures
        valid_submission(fields@) ==> final(store)@ == old(store)@.push(fields@)
            && final(store)@.contains(fields@)
            && r@ == (PageModel::Success { name: fields@.name }),
        !valid_submission(fields@) ==> final(store)@ == old(store)@
            && r@ == (PageModel::FormWithError {
            name: fields@.name,
            email: fields@.email,
            message: fields@.message,
            error_message: "Invalid input!"@,
        }),
{
    let ghost fields_model = fields@;
    match receive(fields) {
        SubmitDecision::Reject { page } => page,
        SubmitDecision::Accept { fields } => {
            let name = fields.name.clone();
            store.insert(fields);
            proof {
                assert(store@.last() == fields_model);
            }
            Page::Success { name }
        },
    }
}

} // verus!
