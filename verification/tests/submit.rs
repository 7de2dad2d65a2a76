use post_intake::error::NewPostError;
use post_intake::submit::{
    conclude, decide_admission, redirect_to_login, Admission, Redirect, STATUS_FOUND,
    STATUS_SEE_OTHER,
};
use post_intake::error::NewUserError;
use post_intake::user::{accept_fields, conclude_registration, NewUserForm, STATUS_OK};

#[test]
fn known_user_proceeds() {
    let identity: Result<Option<u32>, String> = Ok(Some(7));
    assert_eq!(decide_admission(identity), Ok(Admission::Proceed(7)));
}

#[test]
fn unauthenticated_request_is_sent_to_login_before_anything_is_read() {
    let identity: Result<Option<u32>, String> = Ok(None);
    assert_eq!(decide_admission(identity), Ok(Admission::RedirectToLogin));
    let redirect = redirect_to_login();
    assert_eq!(redirect, Redirect { status: 303, location: "/login".to_string() });
}

#[test]
fn unreadable_session_denies_permission() {
    let identity: Result<Option<u32>, String> = Err("session store down".to_string());
    assert_eq!(decide_admission(identity), Err(NewPostError::PermissionDenied));
    assert_eq!(NewPostError::PermissionDenied.status_code(), 403);
}

#[test]
fn stored_post_redirects_to_the_index() {
    let stored: Result<(), String> = Ok(());
    assert_eq!(conclude(stored), Ok(Redirect { status: 302, location: "/".to_string() }));
}

#[test]
fn failed_store_is_a_query_error() {
    let stored: Result<(), String> = Err("connection reset".to_string());
    assert_eq!(conclude(stored), Err(NewPostError::QueryError));
}

#[test]
fn redirect_status_constants() {
    assert_eq!(STATUS_SEE_OTHER, 303);
    assert_eq!(STATUS_FOUND, 302);
}

#[test]
fn registration_form_holds_its_fields() {
    let form = NewUserForm {
        username: "ana".to_string(),
        email: "ana@example.org".to_string(),
        password: "pw".to_string(),
        password_ver: "pw".to_string(),
    };
    assert_eq!(form.clone(), form);
    assert_eq!(form.username, "ana");
    assert_eq!(form.email, "ana@example.org");
    assert_eq!(form.password, form.password_ver);
}

#[test]
fn validated_fields_go_on() {
    let validated: Result<u8, String> = Ok(3);
    assert_eq!(accept_fields(validated), Ok(3));
}

#[test]
fn refused_fields_are_a_parse_error() {
    let validated: Result<u8, String> = Err("the two passwords differ".to_string());
    assert_eq!(accept_fields(validated), Err(NewUserError::ParseError));
    assert_eq!(NewUserError::ParseError.status_code(), 400);
}

#[test]
fn stored_account_is_answered_with_ok() {
    let stored: Result<(), String> = Ok(());
    assert_eq!(conclude_registration(stored), Ok(200));
    assert_eq!(STATUS_OK, 200);
}

#[test]
fn failed_account_store_is_a_query_error() {
    let stored: Result<(), String> = Err("unique violation".to_string());
    assert_eq!(conclude_registration(stored), Err(NewUserError::QueryError));
    assert_eq!(NewUserError::QueryError.status_code(), 500);
}
