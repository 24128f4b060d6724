use social_graph::error::ServiceError;
use social_graph::models::CreateTweetRequest;
use social_graph::models::LoginRequest;
use social_graph::models::RegisterRequest;

fn request(username: &str, email: &str, password: &str, display_name: &str) -> RegisterRequest {
    RegisterRequest {
        username: username.to_string(),
        email: email.to_string(),
        password: password.to_string(),
        display_name: display_name.to_string(),
    }
}

#[test]
fn register_request_that_is_fine() {
    assert_eq!(request("ann", "ann@example.com", "secret", "A").validate(), Ok(()));
    let name = "n".repeat(30);
    let shown = "d".repeat(100);
    assert_eq!(request(&name, "ann@example.com", "secret", &shown).validate(), Ok(()));
}

#[test]
fn register_request_username_bounds() {
    let r = request("an", "ann@example.com", "secret", "Ann");
    assert_eq!(r.validate(), Err(ServiceError::UsernameLength));
    let name = "n".repeat(31);
    let r = request(&name, "ann@example.com", "secret", "Ann");
    assert_eq!(r.validate(), Err(ServiceError::UsernameLength));
    let r = request("", "ann@example.com", "secret", "Ann");
    assert_eq!(r.validate(), Err(ServiceError::UsernameLength));
}

#[test]
fn register_request_email_rule() {
    for bad in ["", "ann", "ann@", "@example.com", "ann example@x.org", "a@b@c@"] {
        let r = request("ann", bad, "secret", "Ann");
        assert_eq!(r.validate(), Err(ServiceError::EmailFormat), "{:?}", bad);
    }
    for good in ["ann@example.com", "a.b+c@sub.example.org", "x@localhost"] {
        let r = request("ann", good, "secret", "Ann");
        assert_eq!(r.validate(), Ok(()), "{:?}", good);
    }
}

#[test]
fn register_request_password_and_display_name() {
    let r = request("ann", "ann@example.com", "12345", "Ann");
    assert_eq!(r.validate(), Err(ServiceError::PasswordLength));
    let r = request("ann", "ann@example.com", "123456", "");
    assert_eq!(r.validate(), Err(ServiceError::DisplayNameLength));
    let shown = "d".repeat(101);
    let r = request("ann", "ann@example.com", "123456", &shown);
    assert_eq!(r.validate(), Err(ServiceError::DisplayNameLength));
}

#[test]
fn register_request_reports_the_first_broken_rule() {
    let r = request("x", "nope", "1", "");
    assert_eq!(r.validate(), Err(ServiceError::UsernameLength));
    let r = request("xyz", "nope", "1", "");
    assert_eq!(r.validate(), Err(ServiceError::EmailFormat));
    let r = request("xyz", "x@example.com", "1", "");
    assert_eq!(r.validate(), Err(ServiceError::PasswordLength));
}

#[test]
fn register_request_check_takes_the_verdict_as_given() {
    let r = request("ann", "whatever", "secret", "Ann");
    assert_eq!(r.check(true), Ok(()));
    assert_eq!(r.check(false), Err(ServiceError::EmailFormat));
}

#[test]
fn login_request_needs_an_address() {
    let ok = LoginRequest { email: String::from("ann@example.com"), password: String::new() };
    assert_eq!(ok.validate(), Ok(()));
    let bad = LoginRequest { email: String::from("ann"), password: String::from("secret") };
    assert_eq!(bad.validate(), Err(ServiceError::EmailFormat));
}

#[test]
fn create_tweet_request_bounds() {
    let make = |n: usize| CreateTweetRequest { content: "c".repeat(n), image_url: None };
    assert_eq!(make(0).validate(), Err(ServiceError::ContentLength));
    assert_eq!(make(1).validate(), Ok(()));
    assert_eq!(make(280).validate(), Ok(()));
    assert_eq!(make(281).validate(), Err(ServiceError::ContentLength));
}
