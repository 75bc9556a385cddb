//! Contact-form intake: validation of submitted fields, an in-memory model of
//! the submission store, the submit workflow, and selection of the response
//! views. The surrounding HTTP server, database connection and template
//! engine live outside this crate and call into it for every decision.

pub mod submission;
pub mod validate;
pub mod store;
pub mod render;
pub mod workflow;

pub use submission::Submission;
pub use submission::SubmissionModel;
pub use validate::Validity;
pub use validate::validate;
pub use validate::valid_submission;
pub use validate::check_submission;
pub use store::Store;
pub use render::Page;
pub use render::Rendered;
pub use render::empty_form_page;
pub use render::finish_render;
pub use render::db_status;
pub use workflow::SubmitDecision;
pub use workflow::StoreOutcome;
pub use workflow::ConfirmResult;
pub use workflow::receive;
pub use workflow::confirm;
pub use workflow::handle_submit;
