//! Stored records, request shapes and public response shapes.
//!
//! Identifiers are 128-bit numbers and instants are whole numbers on the
//! caller's clock. The public shapes leave the credential hash out.

use vstd::prelude::*;
use vstd::std_specs::convert::FromSpecImpl;

verus! {

// ---------------------------------------------------------------- stored records

/// A registered identity, as stored.
#[derive(Debug)]
pub struct User {
    pub id: u128,
    pub username: String,
    pub email: String,
    pub password_hash: String,
    pub display_name: String,
    pub bio: Option<String>,
    pub profile_image: Option<String>,
    pub banner_image: Option<String>,
    pub followers_count: i32,
    pub following_count: i32,
    pub verified: bool,
    pub created_at: i64,
}

/// A post, as stored.
#[derive(Debug)]
pub struct Tweet {
    pub id: u128,
    pub user_id: u128,
    pub content: String,
    pub image_url: Option<String>,
    pub likes_count: i32,
    pub retweets_count: i32,
    pub replies_count: i32,
    pub created_at: i64,
}

/// The fact that `user_id` likes `tweet_id`.
#[derive(Clone, Copy, Debug, PartialEq, Eq, Structural)]
pub struct Like {
    pub id: u128,
    pub user_id: u128,
    pub tweet_id: u128,
    pub created_at: i64,
}

/// The fact that `follower_id` follows `following_id`.
#[derive(Clone, Copy, Debug, PartialEq, Eq, Structural)]
pub struct Follow {
    pub id: u128,
    pub follower_id: u128,
    pub following_id: u128,
    pub created_at: i64,
}

/// A post joined with the public fields of its owner.
#[derive(Debug)]
pub struct TweetWithUser {
    pub id: u128,
    pub user_id: u128,
    pub content: String,
    pub image_url: Option<String>,
    pub likes_count: i32,
    pub retweets_count: i32,
    pub replies_count: i32,
    pub created_at: i64,
    pub user_username: String,
    pub user_display_name: String,
    pub user_email: String,
    pub user_bio: Option<String>,
    pub user_profile_image: Option<String>,
    pub user_banner_image: Option<String>,
    pub user_followers_count: i32,
    pub user_following_count: i32,
    pub user_verified: bool,
    pub user_created_at: i64,
}

// ---------------------------------------------------------------- requests

#[derive(Debug)]
pub struct RegisterRequest {
    pub username: String,
    pub email: String,
    pub password: String,
    pub display_name: String,
}

#[derive(Debug)]
pub struct LoginRequest {
    pub email: String,
    pub password: String,
}

#[derive(Debug)]
pub struct CreateTweetRequest {
    pub content: String,
    pub image_url: Option<String>,
}

/// A partial profile update: a field left `None` keeps its stored value.
#[derive(Debug)]
pub struct UpdateProfileRequest {
    pub display_name: Option<String>,
    pub bio: Option<String>,
    pub profile_image: Option<String>,
    pub banner_image: Option<String>,
}

// ---------------------------------------------------------------- responses

/// The envelope of every answer.
#[derive(Debug)]
pub struct ApiResponse<T> {
    pub success: bool,
    pub data: Option<T>,
    pub message: Option<String>,
}

/// The public shape of a user.
#[derive(Debug)]
pub struct UserResponse {
    pub id: u128,
    pub username: String,
    pub email: String,
    pub display_name: String,
    pub bio: Option<String>,
    pub profile_image: Option<String>,
    pub banner_image: Option<String>,
    pub followers_count: i32,
    pub following_count: i32,
    pub verified: bool,
    pub created_at: i64,
}

#[derive(Debug)]
pub struct AuthResponse {
    pub token: String,
    pub user: UserResponse,
}

/// The public shape of a post, with its owner and the viewer's like flag.
#[derive(Debug)]
pub struct TweetResponse {
    pub id: u128,
    pub content: String,
    pub image_url: Option<String>,
    pub likes_count: i32,
    pub retweets_count: i32,
    pub replies_count: i32,
    pub created_at: i64,
    pub user: UserResponse,
    pub is_liked: bool,
}

// ---------------------------------------------------------------- copies

/// A copy of an optional text.
pub fn clone_text(o: &Option<String>) -> (r: Option<String>)
    ensures
        r == *o,
{
    match o {
        Some(s) => Some(s.clone()),
        None => None,
    }
}

impl Clone for User {
    fn clone(&self) -> (r: Self)
        ensures
            r == *self,
    {
        User {
            id: self.id,
            username: self.username.clone(),
            email: self.email.clone(),
            password_hash: self.password_hash.clone(),
            display_name: self.display_name.clone(),
            bio: clone_text(&self.bio),
            profile_image: clone_text(&self.profile_image),
            banner_image: clone_text(&self.banner_image),
            followers_count: self.followers_count,
            following_count: self.following_count,
            verified: self.verified,
            created_at: self.created_at,
        }
    }
}

impl Clone for Tweet {
    fn clone(&self) -> (r: Self)
        ensures
            r == *self,
    {
        Tweet {
            id: self.id,
            user_id: self.user_id,
            content: self.content.clone(),
            image_url: clone_text(&self.image_url),
            likes_count: self.likes_count,
            retweets_count: self.retweets_count,
            replies_count: self.replies_count,
            created_at: self.created_at,
        }
    }
}

impl Clone for UserResponse {
    fn clone(&self) -> (r: Self)
        ensures
            r == *self,
    {
        UserResponse {
            id: self.id,
            username: self.username.clone(),
            email: self.email.clone(),
            display_name: self.display_name.clone(),
            bio: clone_text(&self.bio),
            profile_image: clone_text(&self.profile_image),
            banner_image: clone_text(&self.banner_image),
            followers_count: self.followers_count,
            following_count: self.following_count,
            verified: self.verified,
            created_at: self.created_at,
        }
    }
}

impl Clone for TweetResponse {
    fn clone(&self) -> (r: Self)
        ensures
            r == *self,
    {
        TweetResponse {
            id: self.id,
            content: self.content.clone(),
            image_url: clone_text(&self.image_url),
            likes_count: self.likes_count,
            retweets_count: self.retweets_count,
            replies_count: self.replies_count,
            created_at: self.created_at,
            user: self.user.clone(),
            is_liked: self.is_liked,
        }
    }
}

// ---------------------------------------------------------------- mappings

/// The public shape of a stored user: every field but the credential hash.
pub open spec fn public_profile(user: User) -> UserResponse {
    UserResponse {
        id: user.id,
        username: user.username,
        email: user.email,
        display_name: user.display_name,
        bio: user.bio,
        profile_image: user.profile_image,
        banner_image: user.banner_image,
        followers_count: user.followers_count,
        following_count: user.following_count,
        verified: user.verified,
        created_at: user.created_at,
    }
}

impl From<User> for UserResponse {
    fn from(user: User) -> (r: UserResponse) {
        UserResponse {
            id: user.id,
            username: user.username,
            email: user.email,
            display_name: user.display_name,
            bio: user.bio,
            profile_image: user.profile_image,
            banner_image: user.banner_image,
            followers_count: user.followers_count,
            following_count: user.following_count,
            verified: user.verified,
            created_at: user.created_at,
        }
    }
}

impl FromSpecImpl<User> for UserResponse {
    open spec fn obeys_from_spec() -> bool {
        true
    }

    open spec fn from_spec(user: User) -> UserResponse {
        public_profile(user)
    }
}

/// A post joined with its owner.
pub open spec fn joined(tweet: Tweet, owner: User) -> TweetWithUser {
    TweetWithUser {
        id: tweet.id,
        user_id: tweet.user_id,
        content: tweet.content,
        image_url: tweet.image_url,
        likes_count: tweet.likes_count,
        retweets_count: tweet.retweets_count,
        replies_count: tweet.replies_count,
        created_at: tweet.created_at,
        user_username: owner.username,
        user_display_name: owner.display_name,
        user_email: owner.email,
        user_bio: owner.bio,
        user_profile_image: owner.profile_image,
        user_banner_image: owner.banner_image,
        user_followers_count: owner.followers_count,
        user_following_count: owner.following_count,
        user_verified: owner.verified,
        user_created_at: owner.created_at,
    }
}

/// The public shape of a joined row, as seen by a viewer who likes it or not.
pub open spec fn row_response(row: TweetWithUser, is_liked: bool) -> TweetResponse {
    TweetResponse {
        id: row.id,
        content: row.content,
        image_url: row.image_url,
        likes_count: row.likes_count,
        retweets_count: row.retweets_count,
        replies_count: row.replies_count,
        created_at: row.created_at,
        user: UserResponse {
            id: row.user_id,
            username: row.user_username,
            email: row.user_email,
            display_name: row.user_display_name,
            bio: row.user_bio,
            profile_image: row.user_profile_image,
            banner_image: row.user_banner_image,
            followers_count: row.user_followers_count,
            following_count: row.user_following_count,
            verified: row.user_verified,
            created_at: row.user_created_at,
        },
        is_liked,
    }
}

/// The public shape of a post of `owner`, as seen by a viewer who likes it or not.
pub open spec fn enriched(tweet: Tweet, owner: User, is_liked: bool) -> TweetResponse {
    row_response(joined(tweet, owner), is_liked)
}

impl TweetWithUser {
    /// Joins a post with its owner.
    pub fn join(tweet: &Tweet, owner: &User) -> (row: TweetWithUser)
        ensures
            row == joined(*tweet, *owner),
    {
        TweetWithUser {
            id: tweet.id,
            user_id: tweet.user_id,
            content: tweet.content.clone(),
            image_url: clone_text(&tweet.image_url),
            likes_count: tweet.likes_count,
            retweets_count: tweet.retweets_count,
            replies_count: tweet.replies_count,
            created_at: tweet.created_at,
            user_username: owner.username.clone(),
            user_display_name: owner.display_name.clone(),
            user_email: owner.email.clone(),
            user_bio: clone_text(&owner.bio),
            user_profile_image: clone_text(&owner.profile_image),
            user_banner_image: clone_text(&owner.banner_image),
            user_followers_count: owner.followers_count,
            user_following_count: owner.following_count,
            user_verified: owner.verified,
            user_created_at: owner.created_at,
        }
    }
}

impl TweetResponse {
    /// Maps a joined row to its public shape.
    pub fn from_row(row: TweetWithUser, is_liked: bool) -> (r: TweetResponse)
        ensures
            r == row_response(row, is_liked),
    {
        TweetResponse {
            id: row.id,
            content: row.content,
            image_url: row.image_url,
            likes_count: row.likes_count,
            retweets_count: row.retweets_count,
            replies_count: row.replies_count,
            created_at: row.created_at,
            user: UserResponse {
                id: row.user_id,
                username: row.user_username,
                email: row.user_email,
                display_name: row.user_display_name,
                bio: row.user_bio,
                profile_image: row.user_profile_image,
                banner_image: row.user_banner_image,
                followers_count: row.user_followers_count,
                following_count: row.user_following_count,
                verified: row.user_verified,
                created_at: row.user_created_at,
            },
            is_liked,
        }
    }
}

// ---------------------------------------------------------------- envelope

impl<T> ApiResponse<T> {
    /// A failed answer never carries data.
    pub open spec fn well_formed(self) -> bool {
        !self.success ==> self.data is None
    }

    /// A successful answer.
    pub fn ok(data: T, message: Option<String>) -> (r: Self)
        ensures
            r.success,
            r.data == Some(data),
            r.message == message,
            r.well_formed(),
    {
        ApiResponse { success: true, data: Some(data), message }
    }

    /// A failed answer, with its message and no data.
    pub fn fail(message: String) -> (r: Self)
        ensures
            !r.success,
            r.data is None,
            r.message == Some(message),
            r.well_formed(),
    {
        ApiResponse { success: false, data: None, message: Some(message) }
    }
}

} // verus!
