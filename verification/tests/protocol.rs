use authflow::{Config, DecodeError, Method, Session};

fn test_config() -> Config {
    Config::new(
        String::from("http://rpc.example.com"),
        String::from("http://broker.example.com"),
        String::from("rpc.example.com"),
        String::from("id"),
        String::from("cookies.json"),
    )
}

#[test]
fn login_response_decodes_session() {
    let r = Session::login_response("{\"session\":\"abc123\"}").unwrap();
    assert_eq!(r.session, "abc123");
}

#[test]
fn login_response_rejects_non_json() {
    let r = Session::login_response("<html>busy</html>");
    assert_eq!(r.unwrap_err(), DecodeError::Login);
}

#[test]
fn login_response_rejects_null_session() {
    let r = Session::login_response("{\"session\": null}");
    assert_eq!(r.unwrap_err(), DecodeError::Login);
}

#[test]
fn login_response_rejects_missing_member() {
    let r = Session::login_response("{}");
    assert_eq!(r.unwrap_err(), DecodeError::Login);
}

#[test]
fn login_response_accepts_whitespace_and_extra_members() {
    let r = Session::login_response(" { \"note\" : null , \"session\" : \"s1\" } ").unwrap();
    assert_eq!(r.session, "s1");
}

#[test]
fn login_response_decodes_escapes() {
    let r = Session::login_response("{\"session\":\"a\\\"b\\n\\\\c\\/d\"}").unwrap();
    assert_eq!(r.session, "a\"b\n\\c/d");
}

#[test]
fn login_response_rejects_trailing_garbage() {
    let r = Session::login_response("{\"session\":\"abc\"} extra");
    assert_eq!(r.unwrap_err(), DecodeError::Login);
}

#[test]
fn confirm_response_decodes_id_token() {
    let r = Session::confirm_response("{\"id_token\":\"tok\"}").unwrap();
    assert_eq!(r.id_token, "tok");
}

#[test]
fn confirm_response_rejects_non_json() {
    let r = Session::confirm_response("no");
    assert_eq!(r.unwrap_err(), DecodeError::Confirm);
}

#[test]
fn whoami_response_null_email_is_not_an_error() {
    let u = Session::whoami_response("{\"email\": null}").unwrap();
    assert_eq!(u.email, None);
    assert!(!Session::is_authenticated(&u));
    assert_eq!(Session::identity_report(&u), "Unable to login. Please try again");
}

#[test]
fn whoami_response_missing_email_is_not_an_error() {
    let u = Session::whoami_response("{}").unwrap();
    assert_eq!(u.email, None);
}

#[test]
fn whoami_response_reports_identity() {
    let u = Session::whoami_response("{\"email\":\"a@b.com\"}").unwrap();
    assert_eq!(u.email.as_deref(), Some("a@b.com"));
    assert!(Session::is_authenticated(&u));
    assert_eq!(Session::identity_report(&u), "Logged in as: a@b.com");
}

#[test]
fn whoami_response_rejects_non_object() {
    let r = Session::whoami_response("null");
    assert_eq!(r.unwrap_err(), DecodeError::Whoami);
}

#[test]
fn decode_error_messages_name_the_step() {
    assert_eq!(DecodeError::Login.message(), "Failed to parse response as JSON");
    assert_eq!(
        DecodeError::Confirm.message(),
        "Failed to parse confirmation response as JSON"
    );
    assert_eq!(DecodeError::Whoami.message(), "Failed to parse user data as JSON");
}

#[test]
fn login_request_is_a_form_post_to_login() {
    let cfg = test_config();
    let r = Session::login_request(&cfg, "user@example.com");
    assert_eq!(r.method, Method::Post);
    assert_eq!(r.url, "http://rpc.example.com/login");
    assert_eq!(r.form.len(), 1);
    assert_eq!(r.form[0].name, "email");
    assert_eq!(r.form[0].value, "user@example.com");
}

#[test]
fn confirm_request_goes_to_the_broker() {
    let cfg = test_config();
    let r = Session::confirm_request(&cfg, "abc123", "000000");
    assert_eq!(r.method, Method::Post);
    assert_eq!(r.url, "http://broker.example.com/confirm");
    assert_eq!(r.form.len(), 2);
    assert_eq!(r.form[0].name, "session");
    assert_eq!(r.form[0].value, "abc123");
    assert_eq!(r.form[1].name, "code");
    assert_eq!(r.form[1].value, "000000");
}

#[test]
fn claim_request_spends_the_id_token() {
    let cfg = test_config();
    let r = Session::claim_request(&cfg, "tok");
    assert_eq!(r.method, Method::Post);
    assert_eq!(r.url, "http://rpc.example.com/claim");
    assert_eq!(r.form.len(), 1);
    assert_eq!(r.form[0].name, "id_token");
    assert_eq!(r.form[0].value, "tok");
}

#[test]
fn whoami_request_is_a_bare_get() {
    let cfg = test_config();
    let r = Session::whoami_request(&cfg);
    assert_eq!(r.method, Method::Get);
    assert_eq!(r.url, "http://rpc.example.com/whoami");
    assert!(r.form.is_empty());
}
