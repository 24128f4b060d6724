//! Format rules for incoming requests. They are checked before the store is
//! touched; the first rule that fails, in field order, is the one reported.

use vstd::prelude::*;
use crate::error::ServiceError;
use crate::models::CreateTweetRequest;
use crate::models::LoginRequest;
use crate::models::RegisterRequest;
use crate::store::content_len_ok;

verus! {

/// What `validator`'s e-mail rule answers for a text.
pub uninterp spec fn email_well_formed(text: Seq<char>) -> bool;

/// Applies the e-mail rule of the `validator` crate,
/// `ValidateEmail::validate_email`, to a text.
///
/// Believed of it: the answer depends on the text alone.
#[verifier::external_body]
fn email_is_valid(text: &str) -> (ok: bool)
    ensures
        ok == email_well_formed(text@),
{
    validator::ValidateEmail::validate_email(&text)
}

/// The first rule a registration breaks, given the lengths of its fields in
/// characters and whether its address is well formed.
pub open spec fn register_issue(
    username_len: nat,
    email_ok: bool,
    password_len: nat,
    display_name_len: nat,
) -> Option<ServiceError> {
    if !(3 <= username_len <= 30) {
        Some(ServiceError::UsernameLength)
    } else if !email_ok {
        Some(ServiceError::EmailFormat)
    } else if password_len < 6 {
        Some(ServiceError::PasswordLength)
    } else if !(1 <= display_name_len <= 100) {
        Some(ServiceError::DisplayNameLength)
    } else {
        None
    }
}

/// The rule a post's content breaks, if any.
pub open spec fn content_issue(content: Seq<char>) -> Option<ServiceError> {
    if content_len_ok(content.len()) {
        None
    } else {
        Some(ServiceError::ContentLength)
    }
}

/// Checks the length of a post's content: 1 to 280 characters.
pub fn check_content(content: &str) -> (r: Result<(), ServiceError>)
    ensures
        r == match content_issue(content@) {
            Some(e) => Err::<(), ServiceError>(e),
            None => Ok(()),
        },
{
    let n = content.unicode_len();
    if 1 <= n && n <= 280 {
        Ok(())
    } else {
        Err(ServiceError::ContentLength)
    }
}

impl RegisterRequest {
    /// The first rule this request breaks, if any.
    pub open spec fn issue(self) -> Option<ServiceError> {
        register_issue(
            self.username@.len(),
            email_well_formed(self.email@),
            self.password@.len(),
            self.display_name@.len(),
        )
    }

    /// Checks the request, given the verdict on its address.
    pub fn check(&self, email_ok: bool) -> (r: Result<(), ServiceError>)
        ensures
            r == match register_issue(
                self.username@.len(),
                email_ok,
                self.password@.len(),
                self.display_name@.len(),
            ) {
                Some(e) => Err::<(), ServiceError>(e),
                None => Ok(()),
            },
    {
        let username_len = self.username.as_str().unicode_len();
        let password_len = self.password.as_str().unicode_len();
        let display_name_len = self.display_name.as_str().unicode_len();
        if !(3 <= username_len && username_len <= 30) {
            Err(ServiceError::UsernameLength)
        } else if !email_ok {
            Err(ServiceError::EmailFormat)
        } else if password_len < 6 {
            Err(ServiceError::PasswordLength)
        } else if !(1 <= display_name_len && display_name_len <= 100) {
            Err(ServiceError::DisplayNameLength)
        } else {
            Ok(())
        }
    }

    /// Checks the request: a name of 3 to 30 characters, a well-formed
    /// address, a password of at least 6 and a display name of 1 to 100.
    pub fn validate(&self) -> (r: Result<(), ServiceError>)
        ensures
            r == match self.issue() {
                Some(e) => Err::<(), ServiceError>(e),
                None => Ok(()),
            },
    {
        let email_ok = email_is_valid(self.email.as_str());
        self.check(email_ok)
    }
}

impl LoginRequest {
    /// The rule this request breaks, if any.
    pub open spec fn issue(self) -> Option<ServiceError> {
        if email_well_formed(self.email@) {
            None
        } else {
            Some(ServiceError::EmailFormat)
        }
    }

    /// Checks the request: its address must be well formed.
    pub fn validate(&self) -> (r: Result<(), ServiceError>)
        ensures
            r == match self.issue() {
                Some(e) => Err::<(), ServiceError>(e),
                None => Ok(()),
            },
    {
        if email_is_valid(self.email.as_str()) {
            Ok(())
        } else {
            Err(ServiceError::EmailFormat)
        }
    }
}

impl CreateTweetRequest {
    /// The rule this request breaks, if any.
    pub open spec fn issue(self) -> Option<ServiceError> {
        content_issue(self.content@)
    }

    /// Checks the request: a content of 1 to 280 characters.
    pub fn validate(&self) -> (r: Result<(), ServiceError>)
        ensures
            r == match self.issue() {
                Some(e) => Err::<(), ServiceError>(e),
                None => Ok(()),
            },
    {
        check_content(self.content.as_str())
    }
}

} // verus!
