use social_graph::error::ErrorKind;
use social_graph::error::ServiceError;
use social_graph::models::UpdateProfileRequest;
use social_graph::models::User;
use social_graph::models::UserResponse;
use social_graph::store::identity::credentials_outcome;
use social_graph::store::Store;

const HASH_OF_PASSWORD: &str = "$2a$04$UuTkLRZZ6QofpDOlMz32MuuxEHA43WOemOYHPz6.SjsVsyO1tDU96";

fn sample_user() -> User {
    User {
        id: 9,
        username: String::from("zoe"),
        email: String::from("zoe@example.com"),
        password_hash: String::from("secret-hash"),
        display_name: String::from("Zoe"),
        bio: Some(String::from("hi")),
        profile_image: None,
        banner_image: Some(String::from("b.png")),
        followers_count: 3,
        following_count: 4,
        verified: true,
        created_at: 55,
    }
}

#[test]
fn insert_user_fills_the_row() {
    let mut store = Store::new();
    let user = store
        .insert_user("ann", "ann@example.com", String::from("h"), "Ann A.", 123)
        .expect("a new user");
    assert_eq!(user.id, 1);
    assert_eq!(user.username, "ann");
    assert_eq!(user.email, "ann@example.com");
    assert_eq!(user.password_hash, "h");
    assert_eq!(user.display_name, "Ann A.");
    assert!(user.bio.is_none());
    assert!(user.profile_image.is_none());
    assert!(user.banner_image.is_none());
    assert_eq!(user.followers_count, 0);
    assert_eq!(user.following_count, 0);
    assert!(!user.verified);
    assert_eq!(user.created_at, 123);
    let next = store.insert_user("ben", "ben@example.com", String::from("h"), "Ben", 124).unwrap();
    assert_eq!(next.id, 2);
}

#[test]
fn duplicate_username_or_email_is_a_conflict() {
    let mut store = Store::new();
    store.insert_user("ann", "ann@example.com", String::from("h"), "Ann", 1).unwrap();
    let same_name = store.insert_user("ann", "other@example.com", String::from("h"), "Ann", 2);
    assert_eq!(same_name.unwrap_err(), ServiceError::UserExists);
    let same_mail = store.insert_user("other", "ann@example.com", String::from("h"), "Ann", 2);
    assert_eq!(same_mail.unwrap_err(), ServiceError::UserExists);
    assert_eq!(ServiceError::UserExists.kind(), ErrorKind::Conflict);
    assert!(store.user_by_username("other").is_none());
    let case_differs = store.insert_user("Ann", "Ann@example.com", String::from("h"), "Ann", 3);
    assert!(case_differs.is_ok());
}

#[test]
fn register_refuses_a_taken_name_without_hashing() {
    let mut store = Store::new();
    store.insert_user("ann", "ann@example.com", String::from("h"), "Ann", 1).unwrap();
    let again = store.register("ann", "new@example.com", "password", "Ann", 2);
    assert_eq!(again.unwrap_err(), ServiceError::UserExists);
    let again = store.register("new", "ann@example.com", "password", "Ann", 2);
    assert_eq!(again.unwrap_err(), ServiceError::UserExists);
}

#[test]
fn register_stores_a_hash_not_the_password() {
    let mut store = Store::new();
    let user = store.register("ann", "ann@example.com", "open sesame", "Ann", 9).expect("user");
    assert_ne!(user.password_hash, "open sesame");
    assert_eq!(user.password_hash.len(), 60);
    assert!(user.password_hash.starts_with("$2b$12$"));
    assert_eq!(user.id, 1);
    assert_eq!(user.created_at, 9);
    let stored = store.user_by_username("ann").expect("stored");
    assert_eq!(stored.password_hash, user.password_hash);
}

#[test]
fn insert_user_without_identifier_left_is_a_storage_failure() {
    let mut store = Store::with_first_id(u128::MAX);
    let r = store.insert_user("ann", "ann@example.com", String::from("h"), "Ann", 1);
    assert_eq!(r.unwrap_err(), ServiceError::IdsExhausted);
    assert!(store.user_by_username("ann").is_none());
}

#[test]
fn authenticate_with_the_right_password() {
    let mut store = Store::new();
    store
        .insert_user("ann", "ann@example.com", HASH_OF_PASSWORD.to_string(), "Ann", 1)
        .unwrap();
    let user = store.authenticate("ann@example.com", "password").expect("accepted");
    assert_eq!(user.username, "ann");
}

#[test]
fn authenticate_failures_look_alike() {
    let mut store = Store::new();
    store
        .insert_user("ann", "ann@example.com", HASH_OF_PASSWORD.to_string(), "Ann", 1)
        .unwrap();
    store.insert_user("bad", "bad@example.com", String::from("not a hash"), "Bad", 2).unwrap();
    let wrong = store.authenticate("ann@example.com", "wrong").unwrap_err();
    let unknown = store.authenticate("who@example.com", "password").unwrap_err();
    let unreadable = store.authenticate("bad@example.com", "password").unwrap_err();
    assert_eq!(wrong, ServiceError::InvalidCredentials);
    assert_eq!(unknown, ServiceError::InvalidCredentials);
    assert_eq!(unreadable, ServiceError::InvalidCredentials);
    assert_eq!(ServiceError::InvalidCredentials.kind(), ErrorKind::Auth);
}

#[test]
fn credentials_outcome_needs_user_and_match() {
    assert_eq!(credentials_outcome(Some(sample_user()), Some(true)).unwrap().id, 9);
    assert_eq!(
        credentials_outcome(Some(sample_user()), Some(false)).unwrap_err(),
        ServiceError::InvalidCredentials
    );
    assert_eq!(
        credentials_outcome(Some(sample_user()), None).unwrap_err(),
        ServiceError::InvalidCredentials
    );
    assert_eq!(credentials_outcome(None, Some(true)).unwrap_err(), ServiceError::InvalidCredentials);
    assert_eq!(credentials_outcome(None, None).unwrap_err(), ServiceError::InvalidCredentials);
}

#[test]
fn lookups_by_id_and_name() {
    let mut store = Store::new();
    let ann = store.insert_user("ann", "ann@example.com", String::from("h"), "Ann", 1).unwrap();
    let ben = store.insert_user("ben", "ben@example.com", String::from("h"), "Ben", 2).unwrap();
    assert_eq!(store.user_by_id(ann.id).unwrap().username, "ann");
    assert_eq!(store.user_by_id(ben.id).unwrap().username, "ben");
    assert_eq!(store.user_by_username("ben").unwrap().id, ben.id);
    assert!(store.user_by_id(77).is_none());
    assert!(store.user_by_username("BEN").is_none());
}

#[test]
fn update_profile_changes_supplied_fields_only() {
    let mut store = Store::new();
    let ann = store.insert_user("ann", "ann@example.com", String::from("h"), "Ann", 1).unwrap();
    let first = UpdateProfileRequest {
        display_name: None,
        bio: Some(String::from("reads a lot")),
        profile_image: Some(String::from("p.png")),
        banner_image: None,
    };
    let row = store.update_profile(ann.id, &first).expect("updated");
    assert_eq!(row.display_name, "Ann");
    assert_eq!(row.bio.as_deref(), Some("reads a lot"));
    assert_eq!(row.profile_image.as_deref(), Some("p.png"));
    assert!(row.banner_image.is_none());
    let second = UpdateProfileRequest {
        display_name: Some(String::from("Ann B.")),
        bio: None,
        profile_image: None,
        banner_image: Some(String::from("b.png")),
    };
    let row = store.update_profile(ann.id, &second).expect("updated");
    assert_eq!(row.display_name, "Ann B.");
    assert_eq!(row.bio.as_deref(), Some("reads a lot"));
    assert_eq!(row.profile_image.as_deref(), Some("p.png"));
    assert_eq!(row.banner_image.as_deref(), Some("b.png"));
    assert_eq!(row.username, "ann");
    assert_eq!(row.email, "ann@example.com");
    assert_eq!(row.password_hash, "h");
    let stored = store.user_by_id(ann.id).unwrap();
    assert_eq!(stored.display_name, "Ann B.");
}

#[test]
fn update_profile_keeps_counters() {
    let mut store = Store::new();
    let ann = store.insert_user("ann", "ann@example.com", String::from("h"), "Ann", 1).unwrap();
    store.insert_user("ben", "ben@example.com", String::from("h"), "Ben", 2).unwrap();
    store.follow(ann.id, "ben", 3).unwrap();
    let update = UpdateProfileRequest {
        display_name: Some(String::from("A")),
        bio: None,
        profile_image: None,
        banner_image: None,
    };
    let row = store.update_profile(ann.id, &update).unwrap();
    assert_eq!(row.following_count, 1);
    assert_eq!(row.followers_count, 0);
}

#[test]
fn update_profile_of_unknown_user_is_not_found() {
    let mut store = Store::new();
    let update = UpdateProfileRequest {
        display_name: Some(String::from("x")),
        bio: None,
        profile_image: None,
        banner_image: None,
    };
    assert_eq!(store.update_profile(3, &update).unwrap_err(), ServiceError::UserNotFound);
}

#[test]
fn public_shape_leaves_the_hash_out() {
    let shown = UserResponse::from(sample_user());
    assert_eq!(shown.id, 9);
    assert_eq!(shown.username, "zoe");
    assert_eq!(shown.email, "zoe@example.com");
    assert_eq!(shown.display_name, "Zoe");
    assert_eq!(shown.bio.as_deref(), Some("hi"));
    assert!(shown.profile_image.is_none());
    assert_eq!(shown.banner_image.as_deref(), Some("b.png"));
    assert_eq!(shown.followers_count, 3);
    assert_eq!(shown.following_count, 4);
    assert!(shown.verified);
    assert_eq!(shown.created_at, 55);
    assert!(!format!("{:?}", shown).contains("secret-hash"));
}

#[test]
fn default_store_is_empty_and_numbers_from_one() {
    let mut store = Store::default();
    assert!(store.user_by_id(1).is_none());
    assert!(store.audit());
    let first = store.insert_user("ann", "ann@example.com", String::from("h"), "Ann", 1).unwrap();
    assert_eq!(first.id, 1);
    assert!(format!("{:?}", store).contains("ann@example.com"));
}
