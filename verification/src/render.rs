//! The presentation side: which view answers a request, and what happens when
//! rendering fails. The views themselves are fixed; turning one into HTML or
//! JSON is template and serializer work done outside this crate. This module
//! chooses the view and its data, and pins the two fixed literals: the
//! inline validation message and the status text.

use vstd::prelude::*;
use crate::submission::{Submission, SubmissionModel};

verus! {

/// Model of a view: its name and the data it carries, over character
/// sequences.
pub enum PageModel {
    EmptyForm,
    FormWithError { name: Seq<char>, email: Seq<char>, message: Seq<char>, error_message: Seq<char> },
    Success { name: Seq<char> },
    SubmissionList { rows: Seq<SubmissionModel> },
}

/// One of the fixed views the service can answer with.
pub enum Page {
    /// The blank contact form.
    EmptyForm,
    /// The form again, pre-filled with what was submitted, plus the inline
    /// error message.
    FormWithError { name: String, email: String, message: String, error_message: String },
    /// The success view naming the submitter.
    Success { name: String },
    /// Every stored submission, to be serialized as a JSON array.
    SubmissionList { rows: Vec<Submission> },
}

impl View for Page {
    type V = PageModel;

    open spec fn view(&self) -> PageModel {
        match self {
            Page::EmptyForm => PageModel::EmptyForm,
            Page::FormWithError { name, email, message, error_message } => PageModel::FormWithError {
                name: name@,
                email: email@,
                message: message@,
                error_message: error_message@,
            },
            Page::Success { name } => PageModel::Success { name: name@ },
            Page::SubmissionList { rows } => PageModel::SubmissionList {
                rows: rows@.map_values(|s: Submission| s@),
            },
        }
    }
}

/// The view for a bare `GET` of the form: the blank form, no data.
pub fn empty_form_page() -> (r: Page)
    ensures
        r@ == PageModel::EmptyForm,
{
    Page::EmptyForm
}

/// The outcome of rendering a view: either the finished text, or a failure
/// to be answered with an opaque internal-error status.
pub enum Rendered {
    Body(String),
    Failure,
}

/// Model of a rendering outcome.
pub enum RenderedModel {
    Body(Seq<char>),
    Failure,
}

impl View for Rendered {
    type V = RenderedModel;

    open spec fn view(&self) -> RenderedModel {
        match self {
            Rendered::Body(s) => RenderedModel::Body(s@),
            Rendered::Failure => RenderedModel::Failure,
        }
    }
}

/// Maps a template engine's result to the response rule: rendered text is
/// served as the body, and a rendering error — whatever its cause — becomes
/// an internal error, never a crash and never a leaked detail.
pub fn finish_render(outcome: Result<String, String>) -> (r: Rendered)
    ensures
        outcome matches Ok(body) ==> r@ == RenderedModel::Body(body@),
        outcome is Err ==> r@ == RenderedModel::Failure,
{
    match outcome {
        Ok(body) => Rendered::Body(body),
        Err(_) => Rendered::Failure,
    }
}

/// The fixed status text. It is the same on every call, whatever the state
/// of the database: this endpoint does not probe anything.
pub fn db_status() -> (r: String)
    ensures
        r@ == "Status Ok1"@,
{
    "Status Ok1".to_owned()
}

} // verus!
