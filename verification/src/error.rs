//! The failures an operation can report, grouped into five kinds.

use vstd::prelude::*;

verus! {

/// The five kinds of failure.
#[derive(Clone, Copy, Debug, PartialEq, Eq, Structural)]
pub enum ErrorKind {
    /// Malformed or out-of-range input.
    Validation,
    /// Missing, invalid or expired credential.
    Auth,
    /// A referenced entity or relationship is absent, or looks absent to the caller.
    NotFound,
    /// The fact to record is already recorded.
    Conflict,
    /// The store could not carry the operation out.
    Storage,
}

/// Every failure the service reports.
#[derive(Clone, Copy, Debug, PartialEq, Eq, Structural)]
pub enum ServiceError {
    /// A user name shorter than 3 or longer than 30 characters.
    UsernameLength,
    /// An address that is not well formed.
    EmailFormat,
    /// A password shorter than 6 characters.
    PasswordLength,
    /// A display name that is empty or longer than 100 characters.
    DisplayNameLength,
    /// A post that is empty or longer than 280 characters.
    ContentLength,
    /// A user asked to follow themselves.
    SelfFollow,
    /// The request carries no `Authorization` header.
    MissingAuthHeader,
    /// The `Authorization` header does not start with `Bearer `.
    InvalidAuthFormat,
    /// The token is malformed, wrongly signed or expired.
    InvalidToken,
    /// The token names no user identifier.
    InvalidUserId,
    /// The address is unknown or the password is wrong.
    InvalidCredentials,
    /// No such user.
    UserNotFound,
    /// No such post, or a post that is not the caller's to delete.
    TweetNotFound,
    /// The user does not like the post.
    LikeNotFound,
    /// The follower does not follow the user.
    NotFollowing,
    /// The user name or the address is taken.
    UserExists,
    /// The user already likes the post.
    AlreadyLiked,
    /// The follower already follows the user.
    AlreadyFollowing,
    /// The password could not be hashed.
    HashFailed,
    /// No token could be minted.
    TokenFailed,
    /// The store has handed out its last identifier.
    IdsExhausted,
    /// A counter stands at its largest value.
    CounterOverflow,
}

impl ErrorKind {
    /// The HTTP-style status class of a kind. A conflict is reported as a plain
    /// client error; only the message tells it from a validation failure.
    pub open spec fn spec_status(self) -> u16 {
        match self {
            ErrorKind::Validation => 400,
            ErrorKind::Auth => 401,
            ErrorKind::NotFound => 404,
            ErrorKind::Conflict => 400,
            ErrorKind::Storage => 500,
        }
    }

    /// The HTTP-style status class of a kind.
    #[verifier::when_used_as_spec(spec_status)]
    pub fn status(self) -> (code: u16)
        ensures
            code == self.spec_status(),
    {
        match self {
            ErrorKind::Validation => 400,
            ErrorKind::Auth => 401,
            ErrorKind::NotFound => 404,
            ErrorKind::Conflict => 400,
            ErrorKind::Storage => 500,
        }
    }
}

impl ServiceError {
    /// The kind a failure belongs to.
    pub open spec fn spec_kind(self) -> ErrorKind {
        match self {
            ServiceError::UsernameLength
            | ServiceError::EmailFormat
            | ServiceError::PasswordLength
            | ServiceError::DisplayNameLength
            | ServiceError::ContentLength
            | ServiceError::SelfFollow => ErrorKind::Validation,
            ServiceError::MissingAuthHeader
            | ServiceError::InvalidAuthFormat
            | ServiceError::InvalidToken
            | ServiceError::InvalidUserId
            | ServiceError::InvalidCredentials => ErrorKind::Auth,
            ServiceError::UserNotFound
            | ServiceError::TweetNotFound
            | ServiceError::LikeNotFound
            | ServiceError::NotFollowing => ErrorKind::NotFound,
            ServiceError::UserExists
            | ServiceError::AlreadyLiked
            | ServiceError::AlreadyFollowing => ErrorKind::Conflict,
            ServiceError::HashFailed
            | ServiceError::TokenFailed
            | ServiceError::IdsExhausted
            | ServiceError::CounterOverflow => ErrorKind::Storage,
        }
    }

    /// The kind a failure belongs to.
    #[verifier::when_used_as_spec(spec_kind)]
    pub fn kind(self) -> (k: ErrorKind)
        ensures
            k == self.spec_kind(),
    {
        match self {
            ServiceError::UsernameLength
            | ServiceError::EmailFormat
            | ServiceError::PasswordLength
            | ServiceError::DisplayNameLength
            | ServiceError::ContentLength
            | ServiceError::SelfFollow => ErrorKind::Validation,
            ServiceError::MissingAuthHeader
            | ServiceError::InvalidAuthFormat
            | ServiceError::InvalidToken
            | ServiceError::InvalidUserId
            | ServiceError::InvalidCredentials => ErrorKind::Auth,
            ServiceError::UserNotFound
            | ServiceError::TweetNotFound
            | ServiceError::LikeNotFound
            | ServiceError::NotFollowing => ErrorKind::NotFound,
            ServiceError::UserExists
            | ServiceError::AlreadyLiked
            | ServiceError::AlreadyFollowing => ErrorKind::Conflict,
            ServiceError::HashFailed
            | ServiceError::TokenFailed
            | ServiceError::IdsExhausted
            | ServiceError::CounterOverflow => ErrorKind::Storage,
        }
    }

    /// The status code a failure is reported under: that of its kind.
    pub open spec fn spec_status(self) -> u16 {
        self.spec_kind().spec_status()
    }

    /// The status code a failure is reported under.
    #[verifier::when_used_as_spec(spec_status)]
    pub fn status(self) -> (code: u16)
        ensures
            code == self.spec_status(),
    {
        self.kind().status()
    }

    /// The human-readable message of a failure, as a sequence of characters.
    pub open spec fn text(self) -> Seq<char> {
        match self {
            ServiceError::UsernameLength => "Validation error: username must have 3 to 30 characters"@,
            ServiceError::EmailFormat => "Validation error: email is not a valid address"@,
            ServiceError::PasswordLength => "Validation error: password must have at least 6 characters"@,
            ServiceError::DisplayNameLength => "Validation error: display_name must have 1 to 100 characters"@,
            ServiceError::ContentLength => "Validation error: content must have 1 to 280 characters"@,
            ServiceError::SelfFollow => "Cannot follow yourself"@,
            ServiceError::MissingAuthHeader => "Missing authorization header"@,
            ServiceError::InvalidAuthFormat => "Invalid authorization format"@,
            ServiceError::InvalidToken => "Invalid or expired token"@,
            ServiceError::InvalidUserId => "Invalid user ID in token"@,
            ServiceError::InvalidCredentials => "Invalid credentials"@,
            ServiceError::UserNotFound => "User not found"@,
            ServiceError::TweetNotFound => "Tweet not found or unauthorized"@,
            ServiceError::LikeNotFound => "Like not found"@,
            ServiceError::NotFollowing => "Not following this user"@,
            ServiceError::UserExists => "User with this email or username already exists"@,
            ServiceError::AlreadyLiked => "Already liked this tweet"@,
            ServiceError::AlreadyFollowing => "Already following this user"@,
            ServiceError::HashFailed => "Failed to hash password"@,
            ServiceError::TokenFailed => "Failed to create token"@,
            ServiceError::IdsExhausted => "Storage error: no identifier left"@,
            ServiceError::CounterOverflow => "Storage error: counter out of range"@,
        }
    }

    /// The human-readable message of a failure.
    pub fn message(self) -> (m: String)
        ensures
            m@ == self.text(),
    {
        match self {
            ServiceError::UsernameLength => String::from_str("Validation error: username must have 3 to 30 characters"),
            ServiceError::EmailFormat => String::from_str("Validation error: email is not a valid address"),
            ServiceError::PasswordLength => String::from_str("Validation error: password must have at least 6 characters"),
            ServiceError::DisplayNameLength => String::from_str("Validation error: display_name must have 1 to 100 characters"),
            ServiceError::ContentLength => String::from_str("Validation error: content must have 1 to 280 characters"),
            ServiceError::SelfFollow => String::from_str("Cannot follow yourself"),
            ServiceError::MissingAuthHeader => String::from_str("Missing authorization header"),
            ServiceError::InvalidAuthFormat => String::from_str("Invalid authorization format"),
            ServiceError::InvalidToken => String::from_str("Invalid or expired token"),
            ServiceError::InvalidUserId => String::from_str("Invalid user ID in token"),
            ServiceError::InvalidCredentials => String::from_str("Invalid credentials"),
            ServiceError::UserNotFound => String::from_str("User not found"),
            ServiceError::TweetNotFound => String::from_str("Tweet not found or unauthorized"),
            ServiceError::LikeNotFound => String::from_str("Like not found"),
            ServiceError::NotFollowing => String::from_str("Not following this user"),
            ServiceError::UserExists => String::from_str("User with this email or username already exists"),
            ServiceError::AlreadyLiked => String::from_str("Already liked this tweet"),
            ServiceError::AlreadyFollowing => String::from_str("Already following this user"),
            ServiceError::HashFailed => String::from_str("Failed to hash password"),
            ServiceError::TokenFailed => String::from_str("Failed to create token"),
            ServiceError::IdsExhausted => String::from_str("Storage error: no identifier left"),
            ServiceError::CounterOverflow => String::from_str("Storage error: counter out of range"),
        }
    }
}

} // verus!
