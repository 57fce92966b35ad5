//! The user entity and its store operations.

use vstd::prelude::*;

use crate::auth::bcrypt_accepts;
use crate::auth::bcrypt_hash;
use crate::auth::validate_token_spec;
use crate::auth::validate_token;
use crate::auth::AuthConfig;
use crate::auth::TokenType;
use crate::errors::ApiError;
use crate::location::Location;
use crate::store::same_alert_types;
use crate::store::same_alerts;
use crate::store::same_device_tokens;
use crate::store::same_locations;
use crate::store::same_tokens;
use crate::store::same_users;
use crate::store::unchanged;
use crate::store::DeviceTokenRow;
use crate::store::Store;

verus! {

/// Whether some account carries this email.
pub open spec fn has_user_with_email(users: Seq<crate::user::User>, email: Seq<char>) -> bool {
    exists|i: int| 0 <= i < users.len() && #[trigger] users[i].email@ == email
}

/// Whether some account carries this identifier.
pub open spec fn has_user_with_id(users: Seq<crate::user::User>, id: i64) -> bool {
    exists|i: int| 0 <= i < users.len() && #[trigger] users[i].id == id
}

/// What marking an account verified leaves behind: only the flag and the
/// update time of that row change.
pub open spec fn user_verified_ok(pre: Seq<User>, post: Seq<User>, id: i64, u: User, now: i64) -> bool {
    exists|i: int|
        {
            &&& 0 <= i < pre.len()
            &&& (#[trigger] pre[i]).id == id
            &&& u == (User { verified: true, updated_at: now, ..pre[i] })
            &&& post == pre.update(i, u)
        }
}

/// What replacing an account's password leaves behind: only the password
/// cell of that row changes.
pub open spec fn password_reset_ok(pre: Seq<User>, post: Seq<User>, id: i64, u: User) -> bool {
    exists|i: int|
        {
            &&& 0 <= i < pre.len()
            &&& (#[trigger] pre[i]).id == id
            &&& u == (User { password: u.password, ..pre[i] })
            &&& post == pre.update(i, u)
        }
}

/// What upserting a device token leaves behind: exactly one row for the
/// user carries the token, fresh; every other row is untouched.
pub open spec fn device_token_upsert_ok(
    pre: Seq<crate::store::DeviceTokenRow>,
    post: Seq<crate::store::DeviceTokenRow>,
    user_id: i64,
    token: Seq<char>,
    now: i64,
) -> bool {
    exists|i: int|
        {
            &&& 0 <= i < post.len()
            &&& (#[trigger] post[i]).user_id == user_id
            &&& post[i].token@ == token
            &&& post[i].updated_at == now
            &&& if 0 <= i < pre.len() && pre[i].user_id == user_id {
                post == pre.update(i, post[i])
            } else {
                i == pre.len() && post == pre.push(post[i])
            }
        }
}

/// A registered account.  `password` holds the bcrypt hash, never the
/// plaintext.  Created unverified; `verified` is set once a verification
/// token is consumed.
#[derive(Debug)]
pub struct User {
    pub id: i64,
    pub name: String,
    pub email: String,
    pub password: String,
    pub phone: Option<String>,
    pub verified: bool,
    pub created_at: i64,
    pub updated_at: i64,
}

impl Clone for User {
    fn clone(&self) -> (r: Self)
        ensures
            r == *self,
    {
        User {
            id: self.id,
            name: self.name.clone(),
            email: self.email.clone(),
            password: self.password.clone(),
            phone: self.phone.clone(),
            verified: self.verified,
            created_at: self.created_at,
            updated_at: self.updated_at,
        }
    }
}

/// What a client supplies to register an account.
#[derive(Debug)]
pub struct UserInput {
    pub name: String,
    pub email: String,
    pub password: String,
    pub phone: Option<String>,
}

impl User {
    /// Registers an account: hashes the password and inserts the row,
    /// unverified, refusing an email that another account already carries.
    pub fn init(input: &UserInput, store: &mut Store, now: i64) -> (r: Result<User, ApiError>)
        requires
            old(store).wf(),
        ensures
            final(store).wf(),
            same_locations(*old(store), *final(store)),
            same_alerts(*old(store), *final(store)),
            same_alert_types(*old(store), *final(store)),
            same_device_tokens(*old(store), *final(store)),
            same_tokens(*old(store), *final(store)),
            r == Err::<User, ApiError>(ApiError::DuplicateEmail) <==> has_user_with_email(
                old(store).users@,
                input.email@,
            ),
            match r {
                Ok(u) => {
                    &&& old(store).next_user_id < i64::MAX
                    &&& final(store).users@ == old(store).users@.push(u)
                    &&& final(store).next_user_id == old(store).next_user_id + 1
                    &&& u.id == old(store).next_user_id
                    &&& u.name@ == input.name@
                    &&& u.email@ == input.email@
                    &&& bcrypt_accepts(input.password@, u.password@)
                    &&& u.phone == input.phone
                    &&& !u.verified
                    &&& u.created_at == now
                    &&& u.updated_at == now
                },
                Err(e) => {
                    &&& unchanged(*old(store), *final(store))
                    &&& (e == ApiError::StoreUnavailable <==> (!has_user_with_email(
                        old(store).users@,
                        input.email@,
                    ) && old(store).next_user_id == i64::MAX))
                    &&& (e == ApiError::HashingFailed ==> !has_user_with_email(
                        old(store).users@,
                        input.email@,
                    ) && old(store).next_user_id < i64::MAX)
                    &&& (e == ApiError::DuplicateEmail || e == ApiError::StoreUnavailable || e
                        == ApiError::HashingFailed)
                },
            },
    {
        let ghost pre = *store;
        let n = store.users.len();
        let mut i: usize = 0;
        while i < n
            invariant
                *store == pre,
                pre == *old(store),
                pre.wf(),
                n == store.users@.len(),
                i <= n,
                forall|k: int| 0 <= k < i ==> #[trigger] store.users@[k].email@ != input.email@,
            decreases n - i,
        {
            if store.users[i].email == input.email {
                return Err(ApiError::DuplicateEmail);
            }
            i = i + 1;
        }
        if store.next_user_id == i64::MAX {
            return Err(ApiError::StoreUnavailable);
        }
        let password_hash = match bcrypt_hash(input.password.as_str()) {
            Some(h) => h,
            None => {
                return Err(ApiError::HashingFailed);
            },
        };
        let user = User {
            id: store.next_user_id,
            name: input.name.clone(),
            email: input.email.clone(),
            password: password_hash,
            phone: input.phone.clone(),
            verified: false,
            created_at: now,
            updated_at: now,
        };
        store.next_user_id = store.next_user_id + 1;
        store.users.push(user.clone());
        Ok(user)
    }

    /// Resolves a bearer value: validates it as a session token for the
    /// required purpose, then looks the subject up.  Every failure yields
    /// `None`, with no detail on which step failed.
    pub fn from_token(
        token: &String,
        token_type: TokenType,
        config: &AuthConfig,
        store: &Store,
        now: i64,
    ) -> (r: Option<User>)
        ensures
            match r {
                Some(u) => {
                    &&& validate_token_spec(config.secret_spec(token_type), token@, now)
                        == Ok::<Seq<char>, ApiError>(u.email@)
                    &&& exists|i: int|
                        0 <= i < store.users@.len() && #[trigger] store.users@[i] == u
                },
                None => validate_token_spec(config.secret_spec(token_type), token@, now)
                    matches Ok(sub) ==> !has_user_with_email(store.users@, sub),
            },
    {
        let user_email = match validate_token(token.as_str(), token_type, config, now) {
            Ok(data) => data,
            Err(_) => {
                return None;
            },
        };
        Self::from_email(&user_email, store)
    }

    /// Looks an account up by email.
    pub fn from_email(email: &String, store: &Store) -> (r: Option<User>)
        ensures
            match r {
                Some(u) => u.email@ == email@ && exists|i: int|
                    0 <= i < store.users@.len() && #[trigger] store.users@[i] == u,
                None => !has_user_with_email(store.users@, email@),
            },
    {
        let n = store.users.len();
        let mut i: usize = 0;
        while i < n
            invariant
                n == store.users@.len(),
                i <= n,
                forall|k: int| 0 <= k < i ==> #[trigger] store.users@[k].email@ != email@,
            decreases n - i,
        {
            if store.users[i].email == *email {
                return Some(store.users[i].clone());
            }
            i = i + 1;
        }
        None
    }

    /// Looks an account up by identifier.
    pub fn from_id(id: i64, store: &Store) -> (r: Option<User>)
        ensures
            match r {
                Some(u) => u.id == id && exists|i: int|
                    0 <= i < store.users@.len() && #[trigger] store.users@[i] == u,
                None => !has_user_with_id(store.users@, id),
            },
    {
        let n = store.users.len();
        let mut i: usize = 0;
        while i < n
            invariant
                n == store.users@.len(),
                i <= n,
                forall|k: int| 0 <= k < i ==> #[trigger] store.users@[k].id != id,
            decreases n - i,
        {
            if store.users[i].id == id {
                return Some(store.users[i].clone());
            }
            i = i + 1;
        }
        None
    }

    /// Marks this account's email as verified.
    pub fn verify_email(&self, store: &mut Store, now: i64) -> (r: Result<User, ApiError>)
        requires
            old(store).wf(),
        ensures
            final(store).wf(),
            same_locations(*old(store), *final(store)),
            same_alerts(*old(store), *final(store)),
            same_alert_types(*old(store), *final(store)),
            same_device_tokens(*old(store), *final(store)),
            same_tokens(*old(store), *final(store)),
            final(store).next_user_id == old(store).next_user_id,
            match r {
                Ok(u) => user_verified_ok(old(store).users@, final(store).users@, self.id, u, now),
                Err(e) => {
                    &&& e == ApiError::UserNotFound
                    &&& unchanged(*old(store), *final(store))
                    &&& !has_user_with_id(old(store).users@, self.id)
                },
            },
    {
        let ghost pre = *store;
        let n = store.users.len();
        let mut i: usize = 0;
        while i < n
            invariant
                *store == pre,
                pre == *old(store),
                pre.wf(),
                n == store.users@.len(),
                i <= n,
                forall|k: int| 0 <= k < i ==> #[trigger] store.users@[k].id != self.id,
            decreases n - i,
        {
            if store.users[i].id == self.id {
                let mut updated = store.users[i].clone();
                updated.verified = true;
                updated.updated_at = now;
                store.users.set(i, updated.clone());
                return Ok(updated);
            }
            i = i + 1;
        }
        Err(ApiError::UserNotFound)
    }

    /// The account's last-known location, if one was ever stored.
    pub fn get_location(&self, store: &Store) -> (r: Option<Location>)
        ensures
            match r {
                Some(l) => l.user_id == self.id && exists|i: int|
                    0 <= i < store.locations@.len() && #[trigger] store.locations@[i] == l,
                None => forall|i: int|
                    0 <= i < store.locations@.len() ==> #[trigger] store.locations@[i].user_id
                        != self.id,
            },
    {
        crate::location::find_by_user(self.id, store)
    }

    /// Replaces this account's password with the hash of a new one.  Only
    /// the password cell changes.
    pub fn reset_password(&self, password: &String, store: &mut Store, now: i64) -> (r: Result<
        User,
        ApiError,
    >)
        requires
            old(store).wf(),
        ensures
            final(store).wf(),
            same_locations(*old(store), *final(store)),
            same_alerts(*old(store), *final(store)),
            same_alert_types(*old(store), *final(store)),
            same_device_tokens(*old(store), *final(store)),
            same_tokens(*old(store), *final(store)),
            final(store).next_user_id == old(store).next_user_id,
            match r {
                Ok(u) => {
                    &&& bcrypt_accepts(password@, u.password@)
                    &&& password_reset_ok(old(store).users@, final(store).users@, self.id, u)
                },
                Err(e) => {
                    &&& unchanged(*old(store), *final(store))
                    &&& (e == ApiError::UserNotFound || e == ApiError::HashingFailed)
                    &&& (e == ApiError::UserNotFound <==> !has_user_with_id(
                        old(store).users@,
                        self.id,
                    ))
                },
            },
    {
        let ghost pre = *store;
        let n = store.users.len();
        let mut i: usize = 0;
        while i < n
            invariant
                *store == pre,
                pre == *old(store),
                pre.wf(),
                n == store.users@.len(),
                i <= n,
                forall|k: int| 0 <= k < i ==> #[trigger] store.users@[k].id != self.id,
            decreases n - i,
        {
            if store.users[i].id == self.id {
                let password_hash = match bcrypt_hash(password.as_str()) {
                    Some(h) => h,
                    None => {
                        return Err(ApiError::HashingFailed);
                    },
                };
                let mut updated = store.users[i].clone();
                updated.password = password_hash;
                store.users.set(i, updated.clone());
                return Ok(updated);
            }
            i = i + 1;
        }
        Err(ApiError::UserNotFound)
    }

    /// Upserts this account's device push token: at most one row per user.
    pub fn update_device_token(&self, device_token: &String, store: &mut Store, now: i64) -> (r:
        Result<(), ApiError>)
        requires
            old(store).wf(),
        ensures
            final(store).wf(),
            same_users(*old(store), *final(store)),
            same_locations(*old(store), *final(store)),
            same_alerts(*old(store), *final(store)),
            same_alert_types(*old(store), *final(store)),
            same_tokens(*old(store), *final(store)),
            r is Ok,
            device_token_upsert_ok(
                old(store).device_tokens@,
                final(store).device_tokens@,
                self.id,
                device_token@,
                now,
            ),
    {
        let ghost pre = *store;
        let n = store.device_tokens.len();
        let mut i: usize = 0;
        while i < n
            invariant
                *store == pre,
                pre == *old(store),
                pre.wf(),
                n == store.device_tokens@.len(),
                i <= n,
                forall|k: int| 0 <= k < i ==> #[trigger] store.device_tokens@[k].user_id != self.id,
            decreases n - i,
        {
            if store.device_tokens[i].user_id == self.id {
                let row = DeviceTokenRow {
                    user_id: self.id,
                    token: device_token.clone(),
                    updated_at: now,
                };
                store.device_tokens.set(i, row);
                proof {
                    assert(store.device_tokens@[i as int].user_id == self.id);
                    assert(store.device_tokens@ =~= pre.device_tokens@.update(
                        i as int,
                        store.device_tokens@[i as int],
                    ));
                }
                return Ok(());
            }
            i = i + 1;
        }
        let row = DeviceTokenRow { user_id: self.id, token: device_token.clone(), updated_at: now };
        store.device_tokens.push(row);
        proof {
            let m = pre.device_tokens@.len() as int;
            assert(store.device_tokens@[m].user_id == self.id);
            assert(store.device_tokens@ =~= pre.device_tokens@.push(store.device_tokens@[m]));
        }
        Ok(())
    }
}

} // verus!
