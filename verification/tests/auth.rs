use social_graph::auth::bearer_token;
use social_graph::auth::get_user_id_from_token;
use social_graph::auth::hash_password;
use social_graph::auth::parse_user_id;
use social_graph::auth::user_id_from_claims;
use social_graph::auth::user_id_text;
use social_graph::auth::verify_password;
use social_graph::auth::Claims;
use social_graph::auth::TOKEN_LIFETIME_SECS;
use social_graph::error::ErrorKind;
use social_graph::error::ServiceError;

#[test]
fn verify_password_against_a_known_hash() {
    let hash = "$2a$04$UuTkLRZZ6QofpDOlMz32MuuxEHA43WOemOYHPz6.SjsVsyO1tDU96";
    assert!(verify_password("password", hash).unwrap());
    assert!(!verify_password("passw0rd", hash).unwrap());
}

#[test]
fn verify_password_refuses_an_unreadable_hash() {
    assert!(verify_password("password", "password").is_err());
    assert!(verify_password("password", "").is_err());
}

#[test]
fn hash_password_gives_a_salted_hash() {
    let hash = hash_password("hunter22").expect("a hash");
    assert_eq!(hash.len(), 60);
    assert!(hash.starts_with("$2b$12$"));
    assert_ne!(hash, "hunter22");
}

#[test]
fn identifier_text_is_hyphenated_hex() {
    let id = 0xa1a2a3a4b1b2c1c2d1d2d3d4d5d6d7d8u128;
    assert_eq!(user_id_text(id), "a1a2a3a4-b1b2-c1c2-d1d2-d3d4d5d6d7d8");
    assert_eq!(user_id_text(1), "00000000-0000-0000-0000-000000000001");
    assert_eq!(user_id_text(0), "00000000-0000-0000-0000-000000000000");
}

#[test]
fn identifier_text_reads_back() {
    for id in [0u128, 1, 42, u128::MAX, 0x550e8400e29b41d4a716446655440000] {
        assert_eq!(parse_user_id(&user_id_text(id)), Some(id));
    }
    assert_eq!(
        parse_user_id("550e8400-e29b-41d4-a716-446655440000"),
        Some(0x550e8400e29b41d4a716446655440000)
    );
    assert_eq!(
        parse_user_id("550E8400E29B41D4A716446655440000"),
        Some(0x550e8400e29b41d4a716446655440000)
    );
}

#[test]
fn identifier_text_that_is_none() {
    assert_eq!(parse_user_id(""), None);
    assert_eq!(parse_user_id("alice"), None);
    assert_eq!(parse_user_id("550e8400-e29b-41d4-a716-44665544000"), None);
    assert_eq!(parse_user_id("550e8400-e29b-41d4-a716-44665544000g"), None);
}

#[test]
fn claims_issued_at_hold_seven_days() {
    assert_eq!(TOKEN_LIFETIME_SECS, 7 * 24 * 60 * 60);
    let claims = Claims::issued_at(42, String::from("a@example.com"), 1_700_000_000);
    assert_eq!(claims.sub, "00000000-0000-0000-0000-00000000002a");
    assert_eq!(claims.email, "a@example.com");
    assert_eq!(claims.iat, 1_700_000_000);
    assert_eq!(claims.exp, 1_700_604_800);
}

#[test]
fn claims_new_reads_the_clock() {
    let claims = Claims::new(7, String::from("b@example.com"));
    assert_eq!(claims.exp - claims.iat, 604_800);
    assert!(claims.iat > 1_600_000_000);
    assert_eq!(claims.sub, user_id_text(7));
    assert_eq!(claims.email, "b@example.com");
    assert_eq!(user_id_from_claims(Some(&claims)), Ok(7));
}

#[test]
fn bearer_token_is_what_follows_the_scheme() {
    assert_eq!(bearer_token(Some("Bearer abc.def.ghi")), Ok("abc.def.ghi"));
    assert_eq!(bearer_token(Some("Bearer ")), Ok(""));
    assert_eq!(bearer_token(Some("Bearer Bearer x")), Ok("Bearer x"));
}

#[test]
fn bearer_token_failures() {
    assert_eq!(bearer_token(None), Err(ServiceError::MissingAuthHeader));
    assert_eq!(bearer_token(Some("")), Err(ServiceError::InvalidAuthFormat));
    assert_eq!(bearer_token(Some("Bearer")), Err(ServiceError::InvalidAuthFormat));
    assert_eq!(bearer_token(Some("bearer abc")), Err(ServiceError::InvalidAuthFormat));
    assert_eq!(bearer_token(Some("Basic abc")), Err(ServiceError::InvalidAuthFormat));
    assert_eq!(bearer_token(Some(" Bearer abc")), Err(ServiceError::InvalidAuthFormat));
    assert_eq!(ServiceError::MissingAuthHeader.kind(), ErrorKind::Auth);
    assert_eq!(ServiceError::InvalidAuthFormat.kind(), ErrorKind::Auth);
}

#[test]
fn caller_from_claims() {
    let good = Claims {
        sub: String::from("00000000-0000-0000-0000-000000000010"),
        email: String::from("c@example.com"),
        exp: 2,
        iat: 1,
    };
    assert_eq!(user_id_from_claims(Some(&good)), Ok(16));
    let bad = Claims { sub: String::from("sixteen"), email: String::new(), exp: 2, iat: 1 };
    assert_eq!(user_id_from_claims(Some(&bad)), Err(ServiceError::InvalidUserId));
    assert_eq!(user_id_from_claims(None), Err(ServiceError::InvalidToken));
    assert_eq!(ServiceError::InvalidToken.kind(), ErrorKind::Auth);
    assert_eq!(ServiceError::InvalidUserId.kind(), ErrorKind::Auth);
}

#[test]
fn caller_from_header_and_claims() {
    let claims = Claims::issued_at(5, String::from("e@example.com"), 100);
    assert_eq!(get_user_id_from_token(Some("Bearer t"), Some(&claims)), Ok(5));
    assert_eq!(
        get_user_id_from_token(Some("Bearer t"), None),
        Err(ServiceError::InvalidToken)
    );
    assert_eq!(
        get_user_id_from_token(None, Some(&claims)),
        Err(ServiceError::MissingAuthHeader)
    );
    assert_eq!(
        get_user_id_from_token(Some("Token t"), Some(&claims)),
        Err(ServiceError::InvalidAuthFormat)
    );
    let odd = Claims { sub: String::from("five"), email: String::new(), exp: 2, iat: 1 };
    assert_eq!(
        get_user_id_from_token(Some("Bearer t"), Some(&odd)),
        Err(ServiceError::InvalidUserId)
    );
    assert_eq!(get_user_id_from_token(Some("Basic t"), None), Err(ServiceError::InvalidAuthFormat));
}

#[test]
fn bearer_token_with_wide_characters() {
    assert_eq!(bearer_token(Some("Bearer \u{e9}t\u{e9}")), Ok("\u{e9}t\u{e9}"));
    assert_eq!(bearer_token(Some("Bear\u{e9}r x")), Err(ServiceError::InvalidAuthFormat));
    assert_eq!(bearer_token(Some("\u{e9}\u{e9}\u{e9}\u{e9}\u{e9}\u{e9}\u{e9}\u{e9}")), Err(ServiceError::InvalidAuthFormat));
}
