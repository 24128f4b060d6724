//! The operations of the service as a caller meets them: each takes the
//! caller's identity as already resolved, or the reason it could not be,
//! checks the request, moves the store and answers with a status code and
//! an envelope.

use vstd::prelude::*;
use crate::auth::bcrypt_verdict;
use crate::error::ServiceError;
use crate::models::enriched;
use crate::models::public_profile;
use crate::models::ApiResponse;
use crate::models::AuthResponse;
use crate::models::CreateTweetRequest;
use crate::models::LoginRequest;
use crate::models::RegisterRequest;
use crate::models::TweetResponse;
use crate::models::TweetWithUser;
use crate::models::UpdateProfileRequest;
use crate::models::User;
use crate::models::UserResponse;
use crate::store::content::fresh_tweet;
use crate::store::identity::fresh_user;
use crate::store::identity::patched;
use crate::store::moved;
use crate::store::Store;

verus! {

/// An answer: a status code and the envelope sent with it.
#[derive(Debug)]
pub struct Reply<T> {
    pub status: u16,
    pub body: ApiResponse<T>,
}

impl<T> Reply<T> {
    /// Whether this answer reports the failure `e`: its status, its message,
    /// and no data.
    pub open spec fn is_failure(self, e: ServiceError) -> bool {
        &&& self.status == e.spec_status()
        &&& !self.body.success
        &&& self.body.data is None
        &&& self.body.message matches Some(m) && m@ == e.text()
    }

    /// Whether this answer reports success under `status` with `data` and,
    /// where one is given, the message `message`.
    pub open spec fn is_success(self, status: u16, data: T, message: Option<Seq<char>>) -> bool {
        &&& self.status == status
        &&& self.body.success
        &&& self.body.data == Some(data)
        &&& match message {
            Some(text) => self.body.message matches Some(m) && m@ == text,
            None => self.body.message is None,
        }
    }

    /// The answer that reports the failure `e`.
    pub fn failure(e: ServiceError) -> (r: Reply<T>)
        ensures
            r.is_failure(e),
            r.body.well_formed(),
    {
        Reply { status: e.status(), body: ApiResponse::fail(e.message()) }
    }

    /// The answer that reports success under `status`.
    pub fn success(status: u16, data: T, message: Option<String>) -> (r: Reply<T>)
        ensures
            r.status == status,
            r.body.success,
            r.body.data == Some(data),
            r.body.message == message,
            r.body.well_formed(),
    {
        Reply { status, body: ApiResponse::ok(data, message) }
    }
}

impl Reply<String> {
    /// Whether this answer confirms an action with the words `text`.
    pub open spec fn is_done(self, text: Seq<char>) -> bool {
        &&& self.status == 200
        &&& self.body.success
        &&& self.body.data matches Some(d) && d@ == text
        &&& self.body.message is None
    }

    /// The answer that confirms an action with the words `text`.
    pub fn done(text: &str) -> (r: Reply<String>)
        ensures
            r.is_done(text@),
            r.body.well_formed(),
    {
        Reply::success(200, String::from_str(text), None)
    }

    /// Whether this answer reports how an action without a result went:
    /// confirmed with the words `text`, or failed.
    pub open spec fn reports(self, outcome: Result<(), ServiceError>, text: Seq<char>) -> bool {
        match outcome {
            Ok(_) => self.is_done(text),
            Err(e) => self.is_failure(e),
        }
    }

    /// The answer that reports how an action without a result went.
    pub fn report(outcome: Result<(), ServiceError>, text: &str) -> (r: Reply<String>)
        ensures
            r.reports(outcome, text@),
            r.body.well_formed(),
    {
        match outcome {
            Ok(_) => Reply::done(text),
            Err(e) => Reply::failure(e),
        }
    }
}

/// Answers that the service is up.
pub fn health_check() -> (r: Reply<String>)
    ensures
        r.is_done("Social graph API is running"@),
{
    Reply::done("Social graph API is running")
}

/// Registers a user from a request: checks the request, then registers.
///
/// A request that breaks a format rule is refused before the store is
/// read. On any failure the store is unchanged.
pub fn register(store: &mut Store, req: &RegisterRequest, now: i64) -> (r: Result<
    User,
    ServiceError,
>)
    requires
        old(store).wf(),
    ensures
        final(store).wf(),
        match req.issue() {
            Some(issue) => r == Err::<User, ServiceError>(issue),
            None => {
                &&& (r == Err::<User, ServiceError>(ServiceError::UserExists)) <==> (old(
                    store,
                )@.has_username(req.username@) || old(store)@.has_email(req.email@))
                &&& r matches Err(e) ==> e == ServiceError::HashFailed || old(
                    store,
                )@.register_issue(req.username@, req.email@) == Some(e)
            },
        },
        match r {
            Ok(u) => {
                &&& old(store)@.register_issue(req.username@, req.email@) is None
                &&& fresh_user(
                    u,
                    old(store)@.next_id,
                    req.username@,
                    req.email@,
                    u.password_hash@,
                    req.display_name@,
                    now,
                )
                &&& bcrypt_verdict(req.password@, u.password_hash@) == Some(true)
                &&& final(store)@ == old(store)@.with_user(u)
            },
            Err(_) => final(store)@ == old(store)@,
        },
{
    match req.validate() {
        Err(e) => Err(e),
        Ok(_) => store.register(
            req.username.as_str(),
            req.email.as_str(),
            req.password.as_str(),
            req.display_name.as_str(),
            now,
        ),
    }
}

/// Checks the credentials of a request: checks the request, then the
/// address and the password against the store.
pub fn login(store: &Store, req: &LoginRequest) -> (r: Result<User, ServiceError>)
    requires
        store.wf(),
    ensures
        r == match req.issue() {
            Some(issue) => Err::<User, ServiceError>(issue),
            None => store@.authenticate_result(req.email@, req.password@),
        },
{
    match req.validate() {
        Err(e) => Err(e),
        Ok(_) => store.authenticate(req.email.as_str(), req.password.as_str()),
    }
}

/// Whether `r` answers a registration or a login that went as `outcome`
/// says, with `token` the token minted for the user, if one could be.
pub open spec fn is_session_reply(
    r: Reply<AuthResponse>,
    outcome: Result<User, ServiceError>,
    token: Option<String>,
    status: u16,
    words: Seq<char>,
) -> bool {
    match outcome {
        Err(e) => r.is_failure(e),
        Ok(user) => match token {
            None => r.is_failure(ServiceError::TokenFailed),
            Some(t) => r.is_success(
                status,
                AuthResponse { token: t, user: public_profile(user) },
                Some(words),
            ),
        },
    }
}

/// Answers a registration: the new user with a token, under status 201; the
/// failure where it failed, or where no token could be minted.
pub fn register_reply(outcome: Result<User, ServiceError>, token: Option<String>) -> (r: Reply<
    AuthResponse,
>)
    ensures
        is_session_reply(r, outcome, token, 201, "User registered successfully"@),
        r.body.well_formed(),
{
    match outcome {
        Err(e) => Reply::failure(e),
        Ok(user) => match token {
            None => Reply::failure(ServiceError::TokenFailed),
            Some(t) => Reply::success(
                201,
                AuthResponse { token: t, user: UserResponse::from(user) },
                Some(String::from_str("User registered successfully")),
            ),
        },
    }
}

/// Answers a login: the user with a token, under status 200; the failure
/// where it failed, or where no token could be minted.
pub fn login_reply(outcome: Result<User, ServiceError>, token: Option<String>) -> (r: Reply<
    AuthResponse,
>)
    ensures
        is_session_reply(r, outcome, token, 200, "Login successful"@),
        r.body.well_formed(),
{
    match outcome {
        Err(e) => Reply::failure(e),
        Ok(user) => match token {
            None => Reply::failure(ServiceError::TokenFailed),
            Some(t) => Reply::success(
                200,
                AuthResponse { token: t, user: UserResponse::from(user) },
                Some(String::from_str("Login successful")),
            ),
        },
    }
}

/// Whether `r` shows the user `found`, or reports that there is none.
pub open spec fn is_profile_reply(r: Reply<UserResponse>, found: Option<User>) -> bool {
    match found {
        Some(u) => r.is_success(200, public_profile(u), None),
        None => r.is_failure(ServiceError::UserNotFound),
    }
}

/// Shows the caller's own profile.
pub fn get_me(store: &Store, caller: Result<u128, ServiceError>) -> (r: Reply<UserResponse>)
    requires
        store.wf(),
    ensures
        match caller {
            Err(e) => r.is_failure(e),
            Ok(id) => is_profile_reply(r, store@.user_by_id(id)),
        },
        r.body.well_formed(),
{
    match caller {
        Err(e) => Reply::failure(e),
        Ok(id) => match store.user_by_id(id) {
            Some(u) => Reply::success(200, UserResponse::from(u), None),
            None => Reply::failure(ServiceError::UserNotFound),
        },
    }
}

/// Shows the profile of the user named `username`.
pub fn get_user_by_username(store: &Store, username: &str) -> (r: Reply<UserResponse>)
    requires
        store.wf(),
    ensures
        is_profile_reply(r, store@.user_by_username(username@)),
        r.body.well_formed(),
{
    match store.user_by_username(username) {
        Some(u) => Reply::success(200, UserResponse::from(u), None),
        None => Reply::failure(ServiceError::UserNotFound),
    }
}

/// Updates the caller's profile with the fields supplied and shows it.
pub fn update_profile(
    store: &mut Store,
    caller: Result<u128, ServiceError>,
    update: &UpdateProfileRequest,
) -> (r: Reply<UserResponse>)
    requires
        old(store).wf(),
    ensures
        final(store).wf(),
        r.body.well_formed(),
        match caller {
            Err(e) => r.is_failure(e) && final(store)@ == old(store)@,
            Ok(id) => match old(store)@.user_by_id(id) {
                Some(before) => {
                    &&& r.is_success(
                        200,
                        public_profile(patched(before, *update)),
                        Some("Profile updated successfully"@),
                    )
                    &&& final(store)@ == old(store)@.after_update_profile(id, *update)
                },
                None => r.is_failure(ServiceError::UserNotFound) && final(store)@ == old(store)@,
            },
        },
{
    match caller {
        Err(e) => Reply::failure(e),
        Ok(id) => match store.update_profile(id, update) {
            Ok(u) => Reply::success(
                200,
                UserResponse::from(u),
                Some(String::from_str("Profile updated successfully")),
            ),
            Err(e) => Reply::failure(e),
        },
    }
}

/// Creates a post of the caller and shows it.
///
/// The content is checked first, before the caller's identity is looked at.
pub fn create_tweet(
    store: &mut Store,
    caller: Result<u128, ServiceError>,
    req: CreateTweetRequest,
    now: i64,
) -> (r: Reply<TweetResponse>)
    requires
        old(store).wf(),
    ensures
        final(store).wf(),
        r.body.well_formed(),
        match (req.issue(), caller) {
            (Some(issue), _) => r.is_failure(issue) && final(store)@ == old(store)@,
            (None, Err(e)) => r.is_failure(e) && final(store)@ == old(store)@,
            (None, Ok(id)) => match old(store)@.create_post_issue(id, req.content@) {
                Some(e) => r.is_failure(e) && final(store)@ == old(store)@,
                None => {
                    &&& r.status == 201
                    &&& r.body.success
                    &&& r.body.message matches Some(m) && m@ == "Tweet created successfully"@
                    &&& r.body.data matches Some(shown)
                    &&& final(store)@.tweets.len() == old(store)@.tweets.len() + 1
                    &&& fresh_tweet(
                        final(store)@.tweets.last(),
                        old(store)@.next_id,
                        id,
                        req.content@,
                        req.image_url,
                        now,
                    )
                    &&& final(store)@ == old(store)@.with_tweet(final(store)@.tweets.last())
                    &&& shown == enriched(
                        final(store)@.tweets.last(),
                        old(store)@.user_by_id(id).unwrap(),
                        false,
                    )
                },
            },
        },
{
    match req.validate() {
        Err(e) => {
            return Reply::failure(e);
        },
        Ok(_) => {},
    }
    let id = match caller {
        Err(e) => {
            return Reply::failure(e);
        },
        Ok(id) => id,
    };
    let owner = match store.user_by_id(id) {
        Some(owner) => owner,
        None => {
            return Reply::failure(ServiceError::UserNotFound);
        },
    };
    match store.create_post(id, req.content.as_str(), req.image_url, now) {
        Err(e) => Reply::failure(e),
        Ok(tweet) => {
            proof {
                assert(store@.tweets.last() == tweet);
            }
            let row = TweetWithUser::join(&tweet, &owner);
            Reply::success(
                201,
                TweetResponse::from_row(row, false),
                Some(String::from_str("Tweet created successfully")),
            )
        },
    }
}

/// Shows the caller's timeline.
pub fn get_timeline(store: &Store, caller: Result<u128, ServiceError>) -> (r: Reply<
    Vec<TweetResponse>,
>)
    requires
        store.wf(),
    ensures
        r.body.well_formed(),
        match caller {
            Err(e) => r.is_failure(e),
            Ok(id) => {
                &&& r.status == 200
                &&& r.body.success
                &&& r.body.message is None
                &&& r.body.data matches Some(feed) && store@.is_timeline(id, feed@)
            },
        },
{
    match caller {
        Err(e) => Reply::failure(e),
        Ok(id) => Reply::success(200, store.timeline(id), None),
    }
}

/// Shows the posts of the user named `username`, to anyone.
pub fn get_user_tweets(store: &Store, username: &str) -> (r: Reply<Vec<TweetResponse>>)
    requires
        store.wf(),
    ensures
        r.body.well_formed(),
        r.status == 200,
        r.body.success,
        r.body.message is None,
        r.body.data matches Some(feed) && store@.is_user_posts(username@, feed@),
{
    Reply::success(200, store.user_posts(username), None)
}

/// Deletes a post of the caller.
pub fn delete_tweet(store: &mut Store, caller: Result<u128, ServiceError>, tweet_id: u128) -> (r:
    Reply<String>)
    requires
        old(store).wf(),
    ensures
        final(store).wf(),
        r.body.well_formed(),
        match caller {
            Err(e) => r.is_failure(e) && final(store)@ == old(store)@,
            Ok(id) => if old(store)@.owns_tweet(id, tweet_id) {
                &&& r.is_done("Tweet deleted successfully"@)
                &&& final(store)@ == old(store)@.after_delete_post(tweet_id)
            } else {
                &&& r.is_failure(ServiceError::TweetNotFound)
                &&& final(store)@ == old(store)@
            },
        },
{
    match caller {
        Err(e) => Reply::failure(e),
        Ok(id) => Reply::report(store.delete_post(tweet_id, id), "Tweet deleted successfully"),
    }
}

/// Records that the caller likes a post.
pub fn like_tweet(
    store: &mut Store,
    caller: Result<u128, ServiceError>,
    tweet_id: u128,
    now: i64,
) -> (r: Reply<String>)
    requires
        old(store).wf(),
    ensures
        final(store).wf(),
        r.body.well_formed(),
        match caller {
            Err(e) => r.is_failure(e) && final(store)@ == old(store)@,
            Ok(id) => {
                &&& r.reports(old(store)@.like_outcome(id, tweet_id), "Tweet liked successfully"@)
                &&& final(store)@ == moved(
                    old(store)@.like_outcome(id, tweet_id),
                    old(store)@,
                    old(store)@.after_like(id, tweet_id, now),
                )
            },
        },
{
    match caller {
        Err(e) => Reply::failure(e),
        Ok(id) => Reply::report(store.like(id, tweet_id, now), "Tweet liked successfully"),
    }
}

/// Withdraws the caller's like of a post.
pub fn unlike_tweet(store: &mut Store, caller: Result<u128, ServiceError>, tweet_id: u128) -> (r:
    Reply<String>)
    requires
        old(store).wf(),
    ensures
        final(store).wf(),
        r.body.well_formed(),
        match caller {
            Err(e) => r.is_failure(e) && final(store)@ == old(store)@,
            Ok(id) => {
                &&& r.reports(
                    old(store)@.unlike_outcome(id, tweet_id),
                    "Tweet unliked successfully"@,
                )
                &&& final(store)@ == moved(
                    old(store)@.unlike_outcome(id, tweet_id),
                    old(store)@,
                    old(store)@.after_unlike(id, tweet_id),
                )
            },
        },
{
    match caller {
        Err(e) => Reply::failure(e),
        Ok(id) => Reply::report(store.unlike(id, tweet_id), "Tweet unliked successfully"),
    }
}

/// Records that the caller follows the user named `username`.
pub fn follow_user(
    store: &mut Store,
    caller: Result<u128, ServiceError>,
    username: &str,
    now: i64,
) -> (r: Reply<String>)
    requires
        old(store).wf(),
    ensures
        final(store).wf(),
        r.body.well_formed(),
        match caller {
            Err(e) => r.is_failure(e) && final(store)@ == old(store)@,
            Ok(id) => {
                &&& r.reports(
                    old(store)@.follow_outcome(id, username@),
                    "User followed successfully"@,
                )
                &&& final(store)@ == moved(
                    old(store)@.follow_outcome(id, username@),
                    old(store)@,
                    old(store)@.after_follow(
                        id,
                        old(store)@.user_by_username(username@).unwrap().id,
                        now,
                    ),
                )
            },
        },
{
    match caller {
        Err(e) => Reply::failure(e),
        Ok(id) => Reply::report(store.follow(id, username, now), "User followed successfully"),
    }
}

/// Records that the caller no longer follows the user named `username`.
pub fn unfollow_user(store: &mut Store, caller: Result<u128, ServiceError>, username: &str) -> (r:
    Reply<String>)
    requires
        old(store).wf(),
    ensures
        final(store).wf(),
        r.body.well_formed(),
        match caller {
            Err(e) => r.is_failure(e) && final(store)@ == old(store)@,
            Ok(id) => {
                &&& r.reports(
                    old(store)@.unfollow_outcome(id, username@),
                    "User unfollowed successfully"@,
                )
                &&& final(store)@ == moved(
                    old(store)@.unfollow_outcome(id, username@),
                    old(store)@,
                    old(store)@.after_unfollow(
                        id,
                        old(store)@.user_by_username(username@).unwrap().id,
                    ),
                )
            },
        },
{
    match caller {
        Err(e) => Reply::failure(e),
        Ok(id) => Reply::report(store.unfollow(id, username), "User unfollowed successfully"),
    }
}

} // verus!
