use form_intake::ConfirmResult;
use form_intake::Page;
use form_intake::Rendered;
use form_intake::Store;
use form_intake::StoreOutcome;
use form_intake::Submission;
use form_intake::SubmitDecision;
use form_intake::Validity;
use form_intake::check_submission;
use form_intake::confirm;
use form_intake::db_status;
use form_intake::empty_form_page;
use form_intake::finish_render;
use form_intake::handle_submit;
use form_intake::receive;
use form_intake::validate;

fn sub(name: &str, email: &str, message: &str) -> Submission {
    Submission::new(name.to_string(), email.to_string(), message.to_string())
}

#[test]
fn boundary_name_length_two_accepted() {
    assert!(validate(&sub("Al", "a@b", "anything")));
}

#[test]
fn boundary_name_length_one_rejected() {
    assert!(!validate(&sub("A", "a@b", "anything")));
}

#[test]
fn boundary_email_length_three_with_at_accepted() {
    assert!(validate(&sub("Al", "a@b", "")));
}

#[test]
fn boundary_email_length_two_rejected_despite_at() {
    assert!(!validate(&sub("Al", "a@", "")));
    assert!(!validate(&sub("Al", "ab", "")));
}

#[test]
fn email_without_at_rejected() {
    assert!(!validate(&sub("Alice", "alice.example.com", "hello")));
}

#[test]
fn empty_fields_rejected() {
    assert!(!validate(&sub("", "", "")));
}

#[test]
fn message_is_unconstrained() {
    assert!(validate(&sub("Al", "a@b", "")));
    assert!(validate(&sub("Al", "a@b", "a very long message indeed")));
}

#[test]
fn check_submission_valid() {
    assert!(matches!(check_submission(&sub("Ann", "a@b.co", "hi")), Validity::Valid));
}

#[test]
fn check_submission_invalid_reason() {
    match check_submission(&sub("A", "a@b.co", "hi")) {
        Validity::Invalid { reason } => assert_eq!(reason, "Invalid input!"),
        Validity::Valid => panic!("expected the submission to be invalid"),
    }
}

#[test]
fn valid_submission_confirmed_and_listed() {
    let mut store = Store::new();
    let page = handle_submit(&mut store, sub("Ann", "a@b.co", "hi"));
    match page {
        Page::Success { name } => assert_eq!(name, "Ann"),
        _ => panic!("expected the success view"),
    }
    let rows = store.list_all();
    assert_eq!(rows.len(), 1);
    assert_eq!(rows[0].name, "Ann");
}

#[test]
fn invalid_submission_rejected_echoes_fields() {
    let mut store = Store::new();
    let page = handle_submit(&mut store, sub("A", "not-an-email", "keep me"));
    match page {
        Page::FormWithError { name, email, message, error_message } => {
            assert_eq!(name, "A");
            assert_eq!(email, "not-an-email");
            assert_eq!(message, "keep me");
            assert_eq!(error_message, "Invalid input!");
        }
        _ => panic!("expected the form view with an error"),
    }
    assert_eq!(store.len(), 0);
}

#[test]
fn round_trip_inserted_row_verbatim() {
    let mut store = Store::new();
    store.insert(sub("Ann", "a@b.co", "hi"));
    let rows = store.list_all();
    assert_eq!(rows.len(), 1);
    assert_eq!(rows[0].name, "Ann");
    assert_eq!(rows[0].email, "a@b.co");
    assert_eq!(rows[0].message, "hi");
}

#[test]
fn listing_twice_without_insert_is_identical() {
    let mut store = Store::new();
    store.insert(sub("Ann", "a@b.co", "hi"));
    store.insert(sub("Bob", "b@c.de", "yo"));
    let first: Vec<(String, String, String)> = store
        .list_all()
        .iter()
        .map(|s| (s.name.clone(), s.email.clone(), s.message.clone()))
        .collect();
    let second: Vec<(String, String, String)> = store
        .list_all()
        .iter()
        .map(|s| (s.name.clone(), s.email.clone(), s.message.clone()))
        .collect();
    assert_eq!(first, second);
}

#[test]
fn duplicate_rows_are_kept() {
    let mut store = Store::new();
    store.insert(sub("Ann", "a@b.co", "hi"));
    store.insert(sub("Ann", "a@b.co", "hi"));
    assert_eq!(store.len(), 2);
}

#[test]
fn many_submissions_no_lost_writes() {
    let mut store = Store::new();
    let n = 10;
    for i in 0..n {
        let name = format!("User{i}");
        let email = format!("user{i}@example.com");
        let message = format!("message {i}");
        let page = handle_submit(&mut store, sub(&name, &email, &message));
        assert!(matches!(page, Page::Success { .. }));
    }
    let rows = store.list_all();
    assert_eq!(rows.len(), n);
    for i in 0..n {
        assert_eq!(rows[i].name, format!("User{i}"));
        assert_eq!(rows[i].email, format!("user{i}@example.com"));
        assert_eq!(rows[i].message, format!("message {i}"));
    }
}

#[test]
fn receive_accepts_valid_fields_unchanged() {
    match receive(sub("Ann", "a@b.co", "hi")) {
        SubmitDecision::Accept { fields } => {
            assert_eq!(fields.name, "Ann");
            assert_eq!(fields.email, "a@b.co");
            assert_eq!(fields.message, "hi");
        }
        SubmitDecision::Reject { .. } => panic!("expected the fields to be accepted"),
    }
}

#[test]
fn receive_rejects_invalid_fields_with_error_view() {
    match receive(sub("A", "a@b.co", "hi")) {
        SubmitDecision::Reject { page } => match page {
            Page::FormWithError { name, email, message, error_message } => {
                assert_eq!(name, "A");
                assert_eq!(email, "a@b.co");
                assert_eq!(message, "hi");
                assert_eq!(error_message, "Invalid input!");
            }
            _ => panic!("expected the form view with an error"),
        },
        SubmitDecision::Accept { .. } => panic!("expected the fields to be rejected"),
    }
}

#[test]
fn confirm_persisted_names_submitter() {
    match confirm("Ann".to_string(), StoreOutcome::Persisted) {
        ConfirmResult::Confirmed { page } => match page {
            Page::Success { name } => assert_eq!(name, "Ann"),
            _ => panic!("expected the success view"),
        },
        ConfirmResult::StorageFailure => panic!("expected a confirmation"),
    }
}

#[test]
fn confirm_failed_surfaces_storage_failure() {
    assert!(matches!(
        confirm("Ann".to_string(), StoreOutcome::Failed),
        ConfirmResult::StorageFailure
    ));
}

#[test]
fn empty_form_page_carries_no_data() {
    assert!(matches!(empty_form_page(), Page::EmptyForm));
}

#[test]
fn finish_render_serves_rendered_body() {
    match finish_render(Ok("<html></html>".to_string())) {
        Rendered::Body(body) => assert_eq!(body, "<html></html>"),
        Rendered::Failure => panic!("expected the rendered body"),
    }
}

#[test]
fn finish_render_maps_error_to_failure() {
    assert!(matches!(
        finish_render(Err("template broke".to_string())),
        Rendered::Failure
    ));
}

#[test]
fn db_status_fixed_literal() {
    assert_eq!(db_status(), "Status Ok1");
    assert_eq!(db_status(), "Status Ok1");
}
