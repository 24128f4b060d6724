use social_graph::store::audit::same_count;
use social_graph::store::Store;

fn person(store: &mut Store, name: &str) -> u128 {
    let email = format!("{}@example.com", name);
    store.insert_user(name, &email, String::from("hash"), name, 0).expect("a new user").id
}

#[test]
fn recounts_match_the_edges() {
    let mut store = Store::new();
    let ann = person(&mut store, "ann");
    let ben = person(&mut store, "ben");
    let cat = person(&mut store, "cat");
    store.follow(ann, "ben", 1).unwrap();
    store.follow(cat, "ben", 2).unwrap();
    store.follow(ben, "ann", 3).unwrap();
    assert_eq!(store.count_followers(ben), 2);
    assert_eq!(store.count_followers(ann), 1);
    assert_eq!(store.count_followers(cat), 0);
    assert_eq!(store.count_following(ann), 1);
    assert_eq!(store.count_following(ben), 1);
    assert_eq!(store.count_following(cat), 1);
    assert_eq!(store.count_followers(12345), 0);
    let post = store.create_post(ben, "hi", None, 4).unwrap().id;
    store.like(ann, post, 5).unwrap();
    store.like(cat, post, 6).unwrap();
    assert_eq!(store.count_likes(post), 2);
    assert_eq!(store.count_likes(post + 1), 0);
    store.unlike(ann, post).unwrap();
    assert_eq!(store.count_likes(post), 1);
}

#[test]
fn counters_reconcile_after_every_move() {
    let mut store = Store::new();
    assert!(store.counters_reconcile());
    let names = ["a", "b", "c", "d"];
    let mut ids = Vec::new();
    for name in names.iter() {
        ids.push(person(&mut store, name));
        assert!(store.counters_reconcile());
    }
    let mut posts = Vec::new();
    for (n, &id) in ids.iter().enumerate() {
        posts.push(store.create_post(id, "text", None, n as i64).unwrap().id);
        assert!(store.counters_reconcile());
    }
    for step in 0..200u32 {
        let who = ids[(step as usize * 7 + 1) % ids.len()];
        let name = names[(step as usize * 5 + 2) % names.len()];
        let post = posts[(step as usize * 3) % posts.len()];
        match step % 5 {
            0 => {
                let _ = store.follow(who, name, step as i64);
            }
            1 => {
                let _ = store.like(who, post, step as i64);
            }
            2 => {
                let _ = store.unfollow(who, name);
            }
            3 => {
                let _ = store.unlike(who, post);
            }
            _ => {
                let _ = store.follow(who, "nobody", step as i64);
                let _ = store.like(who, 1_000_000, step as i64);
            }
        }
        assert!(store.counters_reconcile(), "after step {}", step);
        assert!(store.audit(), "after step {}", step);
        for (i, &id) in ids.iter().enumerate() {
            let row = store.user_by_username(names[i]).unwrap();
            assert_eq!(row.followers_count as usize, store.count_followers(id));
            assert_eq!(row.following_count as usize, store.count_following(id));
        }
        for &p in posts.iter() {
            let row = store.tweet_by_id(p).unwrap();
            assert_eq!(row.likes_count as usize, store.count_likes(p));
        }
    }
    store.delete_post(posts[0], ids[0]).unwrap();
    assert!(store.counters_reconcile());
    assert!(store.audit());
    assert_eq!(store.count_likes(posts[0]), 0);
}

#[test]
fn same_count_compares_across_types() {
    assert!(same_count(0, 0));
    assert!(same_count(7, 7));
    assert!(!same_count(7, 8));
    assert!(!same_count(-1, 0));
    assert!(same_count(i32::MAX, i32::MAX as usize));
    assert!(!same_count(i32::MAX, i32::MAX as usize + 1));
    assert!(!same_count(-1, usize::MAX));
}

#[test]
fn audit_passes_on_every_table() {
    let mut store = Store::new();
    assert!(store.audit());
    let ann = person(&mut store, "ann");
    let ben = person(&mut store, "ben");
    let post = store.create_post(ann, "hello", None, 1).unwrap().id;
    store.follow(ben, "ann", 2).unwrap();
    store.like(ben, post, 3).unwrap();
    assert!(store.users_in_order());
    assert!(store.tweets_in_order());
    assert!(store.follows_in_order());
    assert!(store.likes_in_order());
    assert!(store.counters_reconcile());
    assert!(store.audit());
    store.unfollow(ben, "ann").unwrap();
    store.delete_post(post, ann).unwrap();
    assert!(store.audit());
}

#[test]
fn audit_passes_on_a_store_at_its_last_identifiers() {
    let mut store = Store::with_first_id(u128::MAX - 1);
    let ann = person(&mut store, "ann");
    assert_eq!(ann, u128::MAX - 1);
    assert!(store.audit());
    assert!(store.insert_user("ben", "ben@example.com", String::from("h"), "ben", 0).is_err());
    assert!(store.audit());
}
