use social_graph::error::ErrorKind;
use social_graph::error::ServiceError;
use social_graph::store::Store;

fn reader(store: &mut Store, name: &str) -> u128 {
    let email = format!("{}@example.net", name);
    store.insert_user(name, &email, String::from("hash"), name, 0).expect("a new user").id
}

#[test]
fn like_twice_is_a_conflict() {
    let mut store = Store::new();
    let ann = reader(&mut store, "ann");
    let ben = reader(&mut store, "ben");
    let post = store.create_post(ben, "first", None, 5).unwrap().id;
    assert_eq!(store.like(ann, post, 6), Ok(()));
    assert_eq!(store.like(ann, post, 7), Err(ServiceError::AlreadyLiked));
    assert_eq!(ServiceError::AlreadyLiked.kind(), ErrorKind::Conflict);
    assert_eq!(store.tweet_by_id(post).unwrap().likes_count, 1);
}

#[test]
fn unlike_without_like_is_not_found() {
    let mut store = Store::new();
    let ann = reader(&mut store, "ann");
    let ben = reader(&mut store, "ben");
    let post = store.create_post(ben, "first", None, 5).unwrap().id;
    store.like(ben, post, 6).unwrap();
    assert_eq!(store.unlike(ann, post), Err(ServiceError::LikeNotFound));
    assert_eq!(ServiceError::LikeNotFound.kind(), ErrorKind::NotFound);
    assert_eq!(store.tweet_by_id(post).unwrap().likes_count, 1);
    assert!(store.is_liked(ben, post));
}

#[test]
fn like_of_missing_post_is_not_found() {
    let mut store = Store::new();
    let ann = reader(&mut store, "ann");
    assert_eq!(store.like(ann, 4242, 1), Err(ServiceError::TweetNotFound));
    assert!(!store.is_liked(ann, 4242));
}

#[test]
fn like_by_unknown_user_is_not_found() {
    let mut store = Store::new();
    let ben = reader(&mut store, "ben");
    let post = store.create_post(ben, "first", None, 5).unwrap().id;
    assert_eq!(store.like(777, post, 6), Err(ServiceError::UserNotFound));
    assert_eq!(store.tweet_by_id(post).unwrap().likes_count, 0);
}

#[test]
fn likes_of_several_users_add_up() {
    let mut store = Store::new();
    let ann = reader(&mut store, "ann");
    let ben = reader(&mut store, "ben");
    let cat = reader(&mut store, "cat");
    let one = store.create_post(ben, "one", None, 5).unwrap().id;
    let two = store.create_post(ben, "two", None, 6).unwrap().id;
    store.like(ann, one, 7).unwrap();
    store.like(ben, one, 8).unwrap();
    store.like(cat, one, 9).unwrap();
    store.like(cat, two, 10).unwrap();
    assert_eq!(store.tweet_by_id(one).unwrap().likes_count, 3);
    assert_eq!(store.tweet_by_id(two).unwrap().likes_count, 1);
    store.unlike(ben, one).unwrap();
    assert_eq!(store.tweet_by_id(one).unwrap().likes_count, 2);
    assert_eq!(store.tweet_by_id(two).unwrap().likes_count, 1);
    assert!(store.is_liked(ann, one));
    assert!(!store.is_liked(ben, one));
    assert!(store.is_liked(cat, two));
}

#[test]
fn like_unlike_like_again() {
    let mut store = Store::new();
    let ann = reader(&mut store, "ann");
    let post = store.create_post(ann, "mine", None, 5).unwrap().id;
    assert_eq!(store.like(ann, post, 6), Ok(()));
    assert_eq!(store.unlike(ann, post), Ok(()));
    assert_eq!(store.unlike(ann, post), Err(ServiceError::LikeNotFound));
    assert_eq!(store.like(ann, post, 7), Ok(()));
    assert_eq!(store.tweet_by_id(post).unwrap().likes_count, 1);
}

#[test]
fn like_without_identifier_left_is_a_storage_failure() {
    let mut store = Store::with_first_id(u128::MAX - 2);
    let ann = reader(&mut store, "ann");
    let post = store.create_post(ann, "last", None, 5).unwrap().id;
    assert_eq!(post, u128::MAX - 1);
    assert_eq!(store.like(ann, post, 6), Err(ServiceError::IdsExhausted));
    assert_eq!(store.tweet_by_id(post).unwrap().likes_count, 0);
    assert!(!store.is_liked(ann, post));
}
