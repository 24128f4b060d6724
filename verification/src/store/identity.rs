//! The identity directory: registration, credential checks, lookups and
//! partial profile updates.

use vstd::prelude::*;
use crate::auth::bcrypt_verdict;
use crate::auth::hash_password;
use crate::auth::verify_password;
use crate::counting::lemma_count_none;
use crate::error::ServiceError;
use crate::models::UpdateProfileRequest;
use crate::models::User;
use crate::store::follows_from;
use crate::store::follows_to;
use crate::store::graph::lemma_same_identities;
use crate::store::lemma_user_index;
use crate::store::State;
use crate::store::Store;

verus! {

/// Whether `u` is the row of a user registered at `now` under identifier
/// `id`: the given texts, no profile fields, no edges, not verified.
pub open spec fn fresh_user(
    u: User,
    id: u128,
    username: Seq<char>,
    email: Seq<char>,
    password_hash: Seq<char>,
    display_name: Seq<char>,
    now: i64,
) -> bool {
    &&& u.id == id
    &&& u.username@ == username
    &&& u.email@ == email
    &&& u.password_hash@ == password_hash
    &&& u.display_name@ == display_name
    &&& u.bio is None
    &&& u.profile_image is None
    &&& u.banner_image is None
    &&& u.followers_count == 0
    &&& u.following_count == 0
    &&& !u.verified
    &&& u.created_at == now
}

/// A user row after a partial update: a field that is supplied replaces the
/// stored one, a field that is not keeps it.
pub open spec fn patched(u: User, p: UpdateProfileRequest) -> User {
    User {
        display_name: match p.display_name {
            Some(d) => d,
            None => u.display_name,
        },
        bio: match p.bio {
            Some(b) => Some(b),
            None => u.bio,
        },
        profile_image: match p.profile_image {
            Some(i) => Some(i),
            None => u.profile_image,
        },
        banner_image: match p.banner_image {
            Some(i) => Some(i),
            None => u.banner_image,
        },
        ..u
    }
}

/// What a credential check answers, given the user found under the address
/// and the verdict on the password: the user where both are there and the
/// password matches, one and the same failure otherwise.
pub open spec fn credentials_result(user: Option<User>, verdict: Option<bool>) -> Result<
    User,
    ServiceError,
> {
    match (user, verdict) {
        (Some(u), Some(true)) => Ok(u),
        _ => Err(ServiceError::InvalidCredentials),
    }
}

/// Decides a credential check from the user found under the address and the
/// verdict on the password.
pub fn credentials_outcome(user: Option<User>, verdict: Option<bool>) -> (r: Result<
    User,
    ServiceError,
>)
    ensures
        r == credentials_result(user, verdict),
{
    match user {
        Some(u) => match verdict {
            Some(true) => Ok(u),
            _ => Err(ServiceError::InvalidCredentials),
        },
        None => Err(ServiceError::InvalidCredentials),
    }
}

impl State {
    /// Why a user cannot be inserted under this name and address, if so.
    pub open spec fn register_issue(self, username: Seq<char>, email: Seq<char>) -> Option<
        ServiceError,
    > {
        if self.has_username(username) || self.has_email(email) {
            Some(ServiceError::UserExists)
        } else if self.next_id == u128::MAX {
            Some(ServiceError::IdsExhausted)
        } else {
            None
        }
    }

    /// The state after the row `u` was inserted under the next identifier.
    pub open spec fn with_user(self, u: User) -> State {
        State { users: self.users.push(u), next_id: (self.next_id + 1) as u128, ..self }
    }

    /// The state after the profile of user `id` was updated.
    pub open spec fn after_update_profile(self, id: u128, p: UpdateProfileRequest) -> State {
        State {
            users: self.users.update(
                self.user_index(id),
                patched(self.users[self.user_index(id)], p),
            ),
            ..self
        }
    }

    /// What a credential check answers in this state.
    pub open spec fn authenticate_result(self, email: Seq<char>, password: Seq<char>) -> Result<
        User,
        ServiceError,
    > {
        match self.user_by_email(email) {
            Some(u) => credentials_result(Some(u), bcrypt_verdict(password, u.password_hash@)),
            None => Err(ServiceError::InvalidCredentials),
        }
    }
}

/// Inserting a user with a new name, a new address, the next identifier and
/// no edges keeps the store's invariant.
pub proof fn lemma_register_keeps_wf(s: State, u: User)
    requires
        s.wf(),
        s.register_issue(u.username@, u.email@) is None,
        u.id == s.next_id,
        u.followers_count == 0,
        u.following_count == 0,
    ensures
        s.with_user(u).wf(),
        forall|id: u128| s.has_user(id) ==> s.with_user(u).has_user(id),
{
    let t = s.with_user(u);
    assert forall|id: u128| s.has_user(id) implies t.has_user(id) by {
        let k = s.user_index(id);
        assert(t.users[k].id == id);
    }
    assert(t.users_wf()) by {
        assert forall|i: int, j: int| 0 <= i < j < t.users.len() implies {
            &&& (#[trigger] t.users[i]).id != (#[trigger] t.users[j]).id
            &&& t.users[i].username@ != t.users[j].username@
            &&& t.users[i].email@ != t.users[j].email@
        } by {
            assert(t.users[i] == s.users[i]);
            if j < s.users.len() {
                assert(t.users[j] == s.users[j]);
            }
        }
    }
    assert(t.counters_wf()) by {
        assert forall|i: int| 0 <= i < t.users.len() implies {
            &&& (#[trigger] t.users[i]).followers_count == t.followers_of(t.users[i].id)
            &&& t.users[i].following_count == t.following_of(t.users[i].id)
        } by {
            if i < s.users.len() {
                assert(t.users[i] == s.users[i]);
            } else {
                assert forall|k: int| 0 <= k < s.follows.len() implies !follows_to(u.id)(
                    #[trigger] s.follows[k],
                ) && !follows_from(u.id)(s.follows[k]) by {
                    let a = s.user_index(s.follows[k].follower_id);
                    let b = s.user_index(s.follows[k].following_id);
                    assert(s.users[a].id < s.next_id && s.users[b].id < s.next_id);
                }
                lemma_count_none(s.follows, follows_to(u.id));
                lemma_count_none(s.follows, follows_from(u.id));
            }
        }
    }
}

/// A partial profile update keeps the store's invariant.
pub proof fn lemma_update_profile_keeps_wf(s: State, id: u128, p: UpdateProfileRequest)
    requires
        s.wf(),
        s.has_user(id),
    ensures
        s.after_update_profile(id, p).wf(),
{
    let t = s.after_update_profile(id, p);
    assert(s.same_identities(t));
    lemma_same_identities(s, t);
}

impl Store {
    /// Inserts a user whose password is already hashed.
    ///
    /// The name and the address must both be new. The row gets the next
    /// identifier, no profile fields and counters at zero.
    pub fn insert_user(
        &mut self,
        username: &str,
        email: &str,
        password_hash: String,
        display_name: &str,
        now: i64,
    ) -> (r: Result<User, ServiceError>)
        requires
            old(self).wf(),
        ensures
            final(self).wf(),
            match r {
                Ok(u) => {
                    &&& old(self)@.register_issue(username@, email@) is None
                    &&& fresh_user(
                        u,
                        old(self)@.next_id,
                        username@,
                        email@,
                        password_hash@,
                        display_name@,
                        now,
                    )
                    &&& final(self)@ == old(self)@.with_user(u)
                },
                Err(e) => {
                    &&& old(self)@.register_issue(username@, email@) == Some(e)
                    &&& final(self)@ == old(self)@
                },
            },
    {
        if self.find_username(username).is_some() || self.find_email(email).is_some() {
            return Err(ServiceError::UserExists);
        }
        if self.next_id == u128::MAX {
            return Err(ServiceError::IdsExhausted);
        }
        let user = User {
            id: self.next_id,
            username: String::from_str(username),
            email: String::from_str(email),
            password_hash,
            display_name: String::from_str(display_name),
            bio: None,
            profile_image: None,
            banner_image: None,
            followers_count: 0,
            following_count: 0,
            verified: false,
            created_at: now,
        };
        let stored = user.clone();
        self.users.push(stored);
        self.next_id = self.next_id + 1;
        proof {
            lemma_register_keeps_wf(old(self)@, user);
            assert(self@ == old(self)@.with_user(user));
        }
        Ok(user)
    }

    /// Registers a user: hashes the password, then inserts the row.
    ///
    /// A name or an address that is taken is refused before anything else is
    /// done. The hash is salted at random; whatever hash is stored, it
    /// verifies against `password`. On any failure the store is unchanged.
    pub fn register(
        &mut self,
        username: &str,
        email: &str,
        password: &str,
        display_name: &str,
        now: i64,
    ) -> (r: Result<User, ServiceError>)
        requires
            old(self).wf(),
        ensures
            final(self).wf(),
            (r == Err::<User, ServiceError>(ServiceError::UserExists)) <==> (old(
                self,
            )@.has_username(username@) || old(self)@.has_email(email@)),
            match r {
                Ok(u) => {
                    &&& old(self)@.register_issue(username@, email@) is None
                    &&& fresh_user(
                        u,
                        old(self)@.next_id,
                        username@,
                        email@,
                        u.password_hash@,
                        display_name@,
                        now,
                    )
                    &&& bcrypt_verdict(password@, u.password_hash@) == Some(true)
                    &&& final(self)@ == old(self)@.with_user(u)
                },
                Err(e) => {
                    &&& e == ServiceError::HashFailed || old(self)@.register_issue(
                        username@,
                        email@,
                    ) == Some(e)
                    &&& final(self)@ == old(self)@
                },
            },
    {
        if self.find_username(username).is_some() || self.find_email(email).is_some() {
            return Err(ServiceError::UserExists);
        }
        match hash_password(password) {
            Ok(hash) => self.insert_user(username, email, hash, display_name, now),
            Err(_) => Err(ServiceError::HashFailed),
        }
    }

    /// Checks an address and a password.
    ///
    /// Answers the user stored under the address where the password
    /// verifies against the stored hash. An unknown address, a wrong
    /// password and an unreadable hash give one and the same failure.
    pub fn authenticate(&self, email: &str, password: &str) -> (r: Result<User, ServiceError>)
        requires
            self.wf(),
        ensures
            r == self@.authenticate_result(email@, password@),
    {
        match self.find_email(email) {
            Some(i) => {
                proof {
                    lemma_user_index(self@, i as int);
                }
                let verdict = match verify_password(password, self.users[i].password_hash.as_str()) {
                    Ok(b) => Some(b),
                    Err(_) => None,
                };
                credentials_outcome(Some(self.users[i].clone()), verdict)
            },
            None => Err(ServiceError::InvalidCredentials),
        }
    }

    /// The user with identifier `id`, if there is one.
    pub fn user_by_id(&self, id: u128) -> (r: Option<User>)
        requires
            self.wf(),
        ensures
            r == self@.user_by_id(id),
    {
        match self.find_user(id) {
            Some(i) => {
                proof {
                    lemma_user_index(self@, i as int);
                }
                Some(self.users[i].clone())
            },
            None => None,
        }
    }

    /// The user named `username`, if there is one.
    pub fn user_by_username(&self, username: &str) -> (r: Option<User>)
        requires
            self.wf(),
        ensures
            r == self@.user_by_username(username@),
    {
        match self.find_username(username) {
            Some(i) => {
                proof {
                    lemma_user_index(self@, i as int);
                }
                Some(self.users[i].clone())
            },
            None => None,
        }
    }

    /// Updates the profile of user `id` with the fields that `update`
    /// supplies, and answers the row as it then stands.
    pub fn update_profile(&mut self, id: u128, update: &UpdateProfileRequest) -> (r: Result<
        User,
        ServiceError,
    >)
        requires
            old(self).wf(),
        ensures
            final(self).wf(),
            match r {
                Ok(u) => {
                    &&& old(self)@.user_by_id(id) matches Some(before)
                    &&& u == patched(before, *update)
                    &&& final(self)@ == old(self)@.after_update_profile(id, *update)
                },
                Err(e) => {
                    &&& e == ServiceError::UserNotFound
                    &&& !old(self)@.has_user(id)
                    &&& final(self)@ == old(self)@
                },
            },
    {
        let i = match self.find_user(id) {
            Some(i) => i,
            None => {
                return Err(ServiceError::UserNotFound);
            },
        };
        proof {
            lemma_user_index(self@, i as int);
            lemma_update_profile_keeps_wf(self@, id, *update);
        }
        match &update.display_name {
            Some(d) => {
                self.users[i].display_name = d.clone();
            },
            None => {},
        }
        match &update.bio {
            Some(b) => {
                self.users[i].bio = Some(b.clone());
            },
            None => {},
        }
        match &update.profile_image {
            Some(p) => {
                self.users[i].profile_image = Some(p.clone());
            },
            None => {},
        }
        match &update.banner_image {
            Some(p) => {
                self.users[i].banner_image = Some(p.clone());
            },
            None => {},
        }
        proof {
            assert(self@.users =~= old(self)@.after_update_profile(id, *update).users);
            assert(self@ == old(self)@.after_update_profile(id, *update));
        }
        Ok(self.users[i].clone())
    }
}

} // verus!
