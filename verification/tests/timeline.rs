use social_graph::models::Tweet;
use social_graph::models::TweetResponse;
use social_graph::models::TweetWithUser;
use social_graph::models::User;
use social_graph::store::timeline::is_newer;
use social_graph::store::timeline::TIMELINE_CAP;
use social_graph::store::Store;

fn writer(store: &mut Store, name: &str) -> u128 {
    let email = format!("{}@example.com", name);
    store.insert_user(name, &email, String::from("hash"), name, 0).expect("a new user").id
}

fn texts(feed: &[TweetResponse]) -> Vec<String> {
    feed.iter().map(|t| t.content.clone()).collect()
}

fn post_at(id: u128, at: i64) -> Tweet {
    Tweet {
        id,
        user_id: 1,
        content: String::from("x"),
        image_url: None,
        likes_count: 0,
        retweets_count: 0,
        replies_count: 0,
        created_at: at,
    }
}

#[test]
fn newer_goes_by_instant_then_identifier() {
    assert!(is_newer(&post_at(1, 20), &post_at(2, 10)));
    assert!(!is_newer(&post_at(2, 10), &post_at(1, 20)));
    assert!(is_newer(&post_at(2, 10), &post_at(1, 10)));
    assert!(!is_newer(&post_at(1, 10), &post_at(2, 10)));
    assert!(!is_newer(&post_at(1, 10), &post_at(1, 10)));
}

#[test]
fn timeline_has_own_posts_with_zero_follows() {
    let mut store = Store::new();
    let ann = writer(&mut store, "ann");
    let ben = writer(&mut store, "ben");
    store.create_post(ann, "mine", None, 10).unwrap();
    store.create_post(ben, "theirs", None, 20).unwrap();
    assert_eq!(store.user_by_id(ann).unwrap().following_count, 0);
    assert_eq!(texts(&store.timeline(ann)), vec!["mine"]);
}

#[test]
fn timeline_is_newest_first() {
    let mut store = Store::new();
    let ann = writer(&mut store, "ann");
    let ben = writer(&mut store, "ben");
    let cat = writer(&mut store, "cat");
    store.follow(ann, "ben", 1).unwrap();
    store.create_post(ben, "b-30", None, 30).unwrap();
    store.create_post(ann, "a-10", None, 10).unwrap();
    store.create_post(cat, "c-25", None, 25).unwrap();
    store.create_post(ben, "b-20", None, 20).unwrap();
    store.create_post(ann, "a-40", None, 40).unwrap();
    assert_eq!(texts(&store.timeline(ann)), vec!["a-40", "b-30", "b-20", "a-10"]);
    assert_eq!(texts(&store.timeline(cat)), vec!["c-25"]);
    assert_eq!(texts(&store.timeline(ben)), vec!["b-30", "b-20"]);
}

#[test]
fn timeline_breaks_ties_by_identifier() {
    let mut store = Store::new();
    let ann = writer(&mut store, "ann");
    store.create_post(ann, "first made", None, 5).unwrap();
    store.create_post(ann, "second made", None, 5).unwrap();
    store.create_post(ann, "third made", None, 5).unwrap();
    assert_eq!(texts(&store.timeline(ann)), vec!["third made", "second made", "first made"]);
    assert_eq!(texts(&store.user_posts("ann")), vec!["third made", "second made", "first made"]);
}

#[test]
fn timeline_is_cut_to_fifty() {
    assert_eq!(TIMELINE_CAP, 50);
    let mut store = Store::new();
    let ann = writer(&mut store, "ann");
    let ben = writer(&mut store, "ben");
    store.follow(ann, "ben", 0).unwrap();
    for n in 0..60i64 {
        let who = if n % 2 == 0 { ann } else { ben };
        let at = (n * 37) % 61;
        store.create_post(who, &format!("post {}", at), None, at).unwrap();
    }
    let feed = store.timeline(ann);
    assert_eq!(feed.len(), 50);
    let mut all: Vec<i64> = (0..60i64).map(|n| (n * 37) % 61).collect();
    all.sort();
    all.reverse();
    let expected: Vec<i64> = all.into_iter().take(50).collect();
    let shown: Vec<i64> = feed.iter().map(|t| t.created_at).collect();
    assert_eq!(shown, expected);
    assert_eq!(feed[0].content, format!("post {}", expected[0]));
}

#[test]
fn timeline_of_exactly_fifty_is_whole() {
    let mut store = Store::new();
    let ann = writer(&mut store, "ann");
    for n in 0..50i64 {
        store.create_post(ann, "p", None, n).unwrap();
    }
    assert_eq!(store.timeline(ann).len(), 50);
    store.create_post(ann, "one more", None, -1).unwrap();
    let feed = store.timeline(ann);
    assert_eq!(feed.len(), 50);
    assert!(feed.iter().all(|t| t.content != "one more"));
}

#[test]
fn timeline_drops_posts_after_unfollow() {
    let mut store = Store::new();
    let ann = writer(&mut store, "ann");
    let ben = writer(&mut store, "ben");
    store.create_post(ben, "from ben", None, 5).unwrap();
    assert_eq!(store.timeline(ann).len(), 0);
    store.follow(ann, "ben", 6).unwrap();
    assert_eq!(texts(&store.timeline(ann)), vec!["from ben"]);
    store.unfollow(ann, "ben").unwrap();
    assert_eq!(store.timeline(ann).len(), 0);
}

#[test]
fn timeline_carries_owner_profile_and_like_flag() {
    let mut store = Store::new();
    let ann = writer(&mut store, "ann");
    let ben = writer(&mut store, "ben");
    store.follow(ann, "ben", 1).unwrap();
    let liked = store.create_post(ben, "liked", Some(String::from("i.png")), 10).unwrap().id;
    let plain = store.create_post(ben, "plain", None, 20).unwrap().id;
    store.like(ann, liked, 30).unwrap();
    store.like(ben, plain, 31).unwrap();
    let feed = store.timeline(ann);
    assert_eq!(feed.len(), 2);
    assert_eq!(feed[0].id, plain);
    assert!(!feed[0].is_liked);
    assert_eq!(feed[0].likes_count, 1);
    assert_eq!(feed[1].id, liked);
    assert!(feed[1].is_liked);
    assert_eq!(feed[1].image_url.as_deref(), Some("i.png"));
    assert_eq!(feed[1].user.id, ben);
    assert_eq!(feed[1].user.username, "ben");
    assert_eq!(feed[1].user.email, "ben@example.com");
    assert_eq!(feed[1].user.followers_count, 1);
    assert_eq!(feed[1].user.following_count, 0);
}

#[test]
fn timeline_of_unknown_viewer_is_empty() {
    let mut store = Store::new();
    let ann = writer(&mut store, "ann");
    store.create_post(ann, "hi", None, 1).unwrap();
    assert_eq!(store.timeline(404).len(), 0);
}

#[test]
fn user_posts_lists_everything_newest_first() {
    let mut store = Store::new();
    let ann = writer(&mut store, "ann");
    let ben = writer(&mut store, "ben");
    for n in 0..55i64 {
        store.create_post(ann, &format!("n{}", n), None, 100 - n).unwrap();
    }
    store.create_post(ben, "other", None, 1000).unwrap();
    let posts = store.user_posts("ann");
    assert_eq!(posts.len(), 55);
    assert_eq!(posts[0].content, "n0");
    assert_eq!(posts[54].content, "n54");
    assert!(posts.windows(2).all(|w| w[0].created_at > w[1].created_at));
    assert!(posts.iter().all(|t| t.user.username == "ann" && !t.is_liked));
    assert_eq!(store.user_posts("nobody").len(), 0);
}

#[test]
fn joined_row_maps_to_public_shape() {
    let tweet = Tweet {
        id: 7,
        user_id: 3,
        content: String::from("text"),
        image_url: Some(String::from("pic")),
        likes_count: 2,
        retweets_count: 0,
        replies_count: 0,
        created_at: 99,
    };
    let owner = User {
        id: 3,
        username: String::from("own"),
        email: String::from("own@example.com"),
        password_hash: String::from("never shown"),
        display_name: String::from("Owner"),
        bio: None,
        profile_image: Some(String::from("face")),
        banner_image: None,
        followers_count: 5,
        following_count: 6,
        verified: true,
        created_at: 11,
    };
    let row = TweetWithUser::join(&tweet, &owner);
    assert_eq!(row.id, 7);
    assert_eq!(row.user_id, 3);
    assert_eq!(row.user_username, "own");
    assert_eq!(row.user_created_at, 11);
    let shown = TweetResponse::from_row(row, true);
    assert_eq!(shown.id, 7);
    assert_eq!(shown.content, "text");
    assert_eq!(shown.image_url.as_deref(), Some("pic"));
    assert_eq!(shown.likes_count, 2);
    assert_eq!(shown.created_at, 99);
    assert!(shown.is_liked);
    assert_eq!(shown.user.id, 3);
    assert_eq!(shown.user.display_name, "Owner");
    assert_eq!(shown.user.profile_image.as_deref(), Some("face"));
    assert_eq!(shown.user.followers_count, 5);
    assert_eq!(shown.user.following_count, 6);
    assert!(shown.user.verified);
    assert_eq!(shown.user.created_at, 11);
    assert!(!format!("{:?}", shown).contains("never shown"));
}
