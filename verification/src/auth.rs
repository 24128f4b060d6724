//! Credentials: password hashes, token claims, and the steps that lead from
//! an `Authorization` header to the identifier of the caller.
//!
//! Hashing, identifier text and the clock come from outside crates. What is
//! believed of them is written on the functions that call them.

use vstd::prelude::*;
use crate::error::ServiceError;

verus! {

/// How long a token stays valid: seven days, in seconds.
pub const TOKEN_LIFETIME_SECS: i64 = 604_800;

/// The scheme word an `Authorization` header starts with.
pub open spec fn bearer_prefix() -> Seq<char> {
    "Bearer "@
}

/// The failure of `bcrypt`, carried through unread.
#[verifier::external_type_specification]
#[verifier::external_body]
pub struct ExBcryptError(bcrypt::BcryptError);

/// What `bcrypt::verify` answers for a password and a stored hash: whether
/// they match, or `None` where the hash cannot be read.
pub uninterp spec fn bcrypt_verdict(password: Seq<char>, hash: Seq<char>) -> Option<bool>;

/// The text `uuid::Uuid` prints for a 128-bit identifier.
pub uninterp spec fn uuid_text(id: u128) -> Seq<char>;

/// The identifier `uuid::Uuid::parse_str` reads from a text, if it reads one.
pub uninterp spec fn uuid_parse(text: Seq<char>) -> Option<u128>;

/// Hashes a password with `bcrypt::hash` at the default cost.
///
/// The salt is drawn at random, so the hash is not a function of the
/// password. Believed of it: a hash that was produced verifies against the
/// password it was made from.
#[verifier::external_body]
pub fn hash_password(password: &str) -> (r: Result<String, bcrypt::BcryptError>)
    ensures
        r matches Ok(h) ==> bcrypt_verdict(password@, h@) == Some(true),
{
    bcrypt::hash(password, bcrypt::DEFAULT_COST)
}

/// Checks a password against a stored hash with `bcrypt::verify`.
///
/// Believed of it: the answer depends on the two texts alone.
#[verifier::external_body]
pub fn verify_password(password: &str, hash: &str) -> (r: Result<bool, bcrypt::BcryptError>)
    ensures
        match r {
            Ok(b) => bcrypt_verdict(password@, hash@) == Some(b),
            Err(_) => bcrypt_verdict(password@, hash@) is None,
        },
{
    bcrypt::verify(password, hash)
}

/// Prints an identifier as `uuid::Uuid` does: 32 hexadecimal digits in five
/// hyphenated groups.
///
/// Believed of it: the text depends on the identifier alone, and
/// `Uuid::parse_str` reads the same identifier back from it.
#[verifier::external_body]
fn uuid_to_string(id: u128) -> (s: String)
    ensures
        s@ == uuid_text(id),
        uuid_parse(s@) == Some(id),
{
    uuid::Uuid::from_u128(id).to_string()
}

/// Reads an identifier with `uuid::Uuid::parse_str`.
///
/// Believed of it: the answer depends on the text alone.
#[verifier::external_body]
fn uuid_from_str(text: &str) -> (r: Option<u128>)
    ensures
        r == uuid_parse(text@),
{
    uuid::Uuid::parse_str(text).ok().map(|u| u.as_u128())
}

/// The seconds since the Unix epoch, read from `chrono::Utc::now`.
///
/// The reading depends on the machine's clock, and `Utc::now` panics where
/// that clock stands before 1970. Believed of it: the count is a number of
/// days held in 32 bits, times 86 400, plus a number of seconds held in 32
/// bits, so its magnitude stays below 2^50.
#[verifier::external_body]
fn unix_now() -> (t: i64)
    ensures
        -0x4_0000_0000_0000 < t < 0x4_0000_0000_0000,
{
    chrono::Utc::now().timestamp()
}

/// The text form of a user identifier.
pub fn user_id_text(id: u128) -> (s: String)
    ensures
        s@ == uuid_text(id),
        uuid_parse(s@) == Some(id),
{
    uuid_to_string(id)
}

/// The user identifier a text stands for, if it stands for one.
pub fn parse_user_id(text: &str) -> (r: Option<u128>)
    ensures
        r == uuid_parse(text@),
{
    uuid_from_str(text)
}

/// What a token asserts: who it was issued to, and for how long it holds.
#[derive(Debug)]
pub struct Claims {
    /// The user identifier, in text form.
    pub sub: String,
    pub email: String,
    /// The instant the token expires, in seconds since the Unix epoch.
    pub exp: i64,
    /// The instant the token was issued, in seconds since the Unix epoch.
    pub iat: i64,
}

impl Claims {
    /// Whether these claims name `user_id` and `email` and hold for seven
    /// days from `now`.
    pub open spec fn issued_to(self, user_id: u128, email: Seq<char>, now: int) -> bool {
        &&& self.sub@ == uuid_text(user_id)
        &&& uuid_parse(self.sub@) == Some(user_id)
        &&& self.email@ == email
        &&& self.iat == now
        &&& self.exp == now + TOKEN_LIFETIME_SECS
    }

    /// Claims issued at `now`, valid for seven days.
    pub fn issued_at(user_id: u128, email: String, now: i64) -> (c: Claims)
        requires
            now + TOKEN_LIFETIME_SECS <= i64::MAX,
        ensures
            c.issued_to(user_id, email@, now as int),
            c.email == email,
    {
        Claims { sub: user_id_text(user_id), email, exp: now + TOKEN_LIFETIME_SECS, iat: now }
    }

    /// Claims issued now, valid for seven days.
    pub fn new(user_id: u128, email: String) -> (c: Claims)
        ensures
            c.issued_to(user_id, email@, c.iat as int),
            c.email == email,
    {
        let now = unix_now();
        Claims::issued_at(user_id, email, now)
    }
}

/// What reading an `Authorization` header gives: the token that follows
/// `Bearer `, or why there is none.
pub open spec fn bearer_result(auth_header: Option<Seq<char>>) -> Result<Seq<char>, ServiceError> {
    match auth_header {
        None => Err(ServiceError::MissingAuthHeader),
        Some(h) => if bearer_prefix().is_prefix_of(h) {
            Ok(h.skip(bearer_prefix().len() as int))
        } else {
            Err(ServiceError::InvalidAuthFormat)
        },
    }
}

/// The token an `Authorization` header carries: what follows `Bearer `.
pub fn bearer_token<'a>(auth_header: Option<&'a str>) -> (r: Result<&'a str, ServiceError>)
    ensures
        match bearer_result(
            match auth_header {
                Some(h) => Some(h@),
                None => None,
            },
        ) {
            Ok(token) => r matches Ok(t) && t@ == token,
            Err(e) => r == Err::<&str, ServiceError>(e),
        },
{
    let h = match auth_header {
        None => {
            return Err(ServiceError::MissingAuthHeader);
        },
        Some(h) => h,
    };
    let prefix = "Bearer ";
    proof {
        reveal_strlit("Bearer ");
    }
    let n = h.unicode_len();
    if n < 7 {
        return Err(ServiceError::InvalidAuthFormat);
    }
    let mut i: usize = 0;
    while i < 7
        invariant
            i <= 7,
            auth_header == Some(h),
            n == h@.len(),
            n >= 7,
            prefix@ == bearer_prefix(),
            prefix@.len() == 7,
            forall|j: int| 0 <= j < i ==> h@[j] == prefix@[j],
        decreases 7 - i,
    {
        if h.get_char(i) != prefix.get_char(i) {
            proof {
                assert(h@.subrange(0, 7)[i as int] != prefix@[i as int]);
            }
            return Err(ServiceError::InvalidAuthFormat);
        }
        i = i + 1;
    }
    proof {
        assert(h@.subrange(0, 7) =~= prefix@);
        assert(h@.skip(7) =~= h@.subrange(7, n as int));
    }
    Ok(h.substring_char(7, n))
}

/// The caller that claims name: the identifier their subject stands for.
pub open spec fn claims_result(decoded: Option<Claims>) -> Result<u128, ServiceError> {
    match decoded {
        None => Err(ServiceError::InvalidToken),
        Some(c) => match uuid_parse(c.sub@) {
            Some(id) => Ok(id),
            None => Err(ServiceError::InvalidUserId),
        },
    }
}

/// The caller a decoded token names. `decoded` is `None` where the token
/// was refused: malformed, wrongly signed or expired.
pub fn user_id_from_claims(decoded: Option<&Claims>) -> (r: Result<u128, ServiceError>)
    ensures
        r == claims_result(
            match decoded {
                Some(c) => Some(*c),
                None => None,
            },
        ),
{
    match decoded {
        None => Err(ServiceError::InvalidToken),
        Some(c) => match parse_user_id(c.sub.as_str()) {
            Some(id) => Ok(id),
            None => Err(ServiceError::InvalidUserId),
        },
    }
}

/// The caller behind an `Authorization` header, given what decoding the
/// token it carries gave: `None` where the token was refused.
///
/// The header is judged first: without a header, or with one that does not
/// start with `Bearer `, the claims are not looked at.
pub fn get_user_id_from_token(auth_header: Option<&str>, decoded: Option<&Claims>) -> (r: Result<
    u128,
    ServiceError,
>)
    ensures
        r == match bearer_result(
            match auth_header {
                Some(h) => Some(h@),
                None => None,
            },
        ) {
            Err(e) => Err::<u128, ServiceError>(e),
            Ok(_) => claims_result(
                match decoded {
                    Some(c) => Some(*c),
                    None => None,
                },
            ),
        },
{
    match bearer_token(auth_header) {
        Err(e) => Err(e),
        Ok(_) => user_id_from_claims(decoded),
    }
}

} // verus!
