use social_graph::error::ServiceError;
use social_graph::models::RegisterRequest;
use social_graph::service::register;
use social_graph::store::Store;

const PASSWORD_HASH: &str = "$2a$04$UuTkLRZZ6QofpDOlMz32MuuxEHA43WOemOYHPz6.SjsVsyO1tDU96";

fn add_user(store: &mut Store, name: &str) -> u128 {
    let email = format!("{}@example.com", name);
    store
        .insert_user(name, &email, PASSWORD_HASH.to_string(), name, 1_000)
        .expect("a new user")
        .id
}

fn followers(store: &Store, name: &str) -> i32 {
    store.user_by_username(name).expect("user").followers_count
}

fn following(store: &Store, name: &str) -> i32 {
    store.user_by_username(name).expect("user").following_count
}

#[test]
fn follow_raises_both_counters() {
    let mut store = Store::new();
    let alice = add_user(&mut store, "alice");
    let _bob = add_user(&mut store, "bob");
    assert_eq!(followers(&store, "alice"), 0);
    assert_eq!(store.follow(alice, "bob", 2_000), Ok(()));
    assert_eq!(followers(&store, "bob"), 1);
    assert_eq!(following(&store, "alice"), 1);
    assert_eq!(followers(&store, "alice"), 0);
    assert_eq!(following(&store, "bob"), 0);
}

#[test]
fn post_starts_without_likes() {
    let mut store = Store::new();
    let bob = add_user(&mut store, "bob");
    let tweet = store.create_post(bob, "hello", None, 3_000).expect("a post");
    assert_eq!(tweet.content, "hello");
    assert_eq!(tweet.content.chars().count(), 5);
    assert_eq!(tweet.likes_count, 0);
    assert_eq!(tweet.user_id, bob);
}

#[test]
fn timeline_shows_followed_post_unliked() {
    let mut store = Store::new();
    let alice = add_user(&mut store, "alice");
    let bob = add_user(&mut store, "bob");
    store.follow(alice, "bob", 2_000).unwrap();
    let tweet = store.create_post(bob, "hello", None, 3_000).unwrap();
    let feed = store.timeline(alice);
    assert_eq!(feed.len(), 1);
    assert_eq!(feed[0].id, tweet.id);
    assert_eq!(feed[0].content, "hello");
    assert_eq!(feed[0].user.username, "bob");
    assert!(!feed[0].is_liked);
}

#[test]
fn like_shows_to_the_liker_only() {
    let mut store = Store::new();
    let alice = add_user(&mut store, "alice");
    let bob = add_user(&mut store, "bob");
    store.follow(alice, "bob", 2_000).unwrap();
    let tweet = store.create_post(bob, "hello", None, 3_000).unwrap();
    assert_eq!(store.like(alice, tweet.id, 4_000), Ok(()));
    assert_eq!(store.tweet_by_id(tweet.id).unwrap().likes_count, 1);
    let feed = store.timeline(alice);
    assert_eq!(feed.len(), 1);
    assert!(feed[0].is_liked);
    assert_eq!(feed[0].likes_count, 1);
    let public = store.user_posts("bob");
    assert_eq!(public.len(), 1);
    assert_eq!(public[0].id, tweet.id);
    assert!(!public[0].is_liked);
    assert_eq!(public[0].likes_count, 1);
    let own = store.timeline(bob);
    assert_eq!(own.len(), 1);
    assert!(!own[0].is_liked);
}

#[test]
fn unlike_lowers_the_counter() {
    let mut store = Store::new();
    let alice = add_user(&mut store, "alice");
    let bob = add_user(&mut store, "bob");
    let tweet = store.create_post(bob, "hello", None, 3_000).unwrap();
    store.like(alice, tweet.id, 4_000).unwrap();
    assert_eq!(store.unlike(alice, tweet.id), Ok(()));
    assert_eq!(store.tweet_by_id(tweet.id).unwrap().likes_count, 0);
    assert!(!store.is_liked(alice, tweet.id));
}

#[test]
fn self_follow_leaves_counters_alone() {
    let mut store = Store::new();
    let alice = add_user(&mut store, "alice");
    let _bob = add_user(&mut store, "bob");
    store.follow(alice, "bob", 2_000).unwrap();
    assert_eq!(store.follow(alice, "alice", 5_000), Err(ServiceError::SelfFollow));
    assert_eq!(followers(&store, "alice"), 0);
    assert_eq!(following(&store, "alice"), 1);
    assert_eq!(followers(&store, "bob"), 1);
    assert_eq!(following(&store, "bob"), 0);
    assert!(!store.is_following(alice, alice));
}

fn sign_up(store: &mut Store, name: &str) -> u128 {
    let req = RegisterRequest {
        username: name.to_string(),
        email: format!("{}@example.com", name),
        password: format!("{}-password", name),
        display_name: name.to_string(),
    };
    register(store, &req, 1).expect("registered").id
}

#[test]
fn whole_walkthrough_in_one_store() {
    let mut store = Store::new();
    let alice = sign_up(&mut store, "alice");
    let bob = sign_up(&mut store, "bob");
    assert_eq!(followers(&store, "alice"), 0);
    store.follow(alice, "bob", 10).unwrap();
    assert_eq!(followers(&store, "bob"), 1);
    assert_eq!(following(&store, "alice"), 1);
    let tweet = store.create_post(bob, "hello", None, 20).unwrap();
    assert_eq!(tweet.likes_count, 0);
    assert!(!store.timeline(alice)[0].is_liked);
    store.like(alice, tweet.id, 30).unwrap();
    assert_eq!(store.tweet_by_id(tweet.id).unwrap().likes_count, 1);
    assert!(store.timeline(alice)[0].is_liked);
    assert!(!store.user_posts("bob")[0].is_liked);
    store.unlike(alice, tweet.id).unwrap();
    assert_eq!(store.tweet_by_id(tweet.id).unwrap().likes_count, 0);
    assert_eq!(store.follow(alice, "alice", 40), Err(ServiceError::SelfFollow));
    assert_eq!(followers(&store, "bob"), 1);
    assert_eq!(following(&store, "alice"), 1);
}
