//! Account request handlers: login, registration, email verification, and
//! the password-reset flow.
//!
//! Each handler performs every fallible check before its first store
//! write, so a handler that returns an error leaves the store exactly as a
//! rolled-back transaction would.

use vstd::prelude::*;

use crate::auth::bcrypt_accepts;
use crate::auth::bcrypt_verdict;
use crate::auth::bcrypt_verify;
use crate::auth::has_token_value;
use crate::auth::jwt_claims_of;
use crate::auth::purge_old_tokens;
use crate::auth::generate_token;
use crate::auth::has_fresh_token;
use crate::auth::jwt_token_of;
use crate::auth::retrieve_token;
use crate::auth::store_token;
use crate::auth::stored_token_appended;
use crate::auth::token_retrievable;
use crate::auth::token_value_conflicts;
use crate::auth::validate_token_spec;
use crate::auth::AuthConfig;
use crate::auth::BasicAuth;
use crate::auth::BearerToken;
use crate::auth::TokenType;
use crate::auth::SESSION_LIFETIME_SECS;
use crate::errors::ApiError;
use crate::request::session_ok;
use crate::store::same_alert_types;
use crate::store::same_alerts;
use crate::store::same_device_tokens;
use crate::store::same_locations;
use crate::store::same_tokens;
use crate::store::same_users;
use crate::store::unchanged;
use crate::store::Store;
use crate::user::device_token_upsert_ok;
use crate::user::has_user_with_email;
use crate::user::password_reset_ok;
use crate::user::user_verified_ok;
use crate::user::User;
use crate::user::UserInput;

verus! {

/// What a successful login returns: the account and a fresh session token.
#[derive(Debug)]
pub struct LoginResponse {
    pub user: User,
    pub token: String,
}

/// What a successful registration returns: the new account and the
/// verification token a caller mails to it.
#[derive(Debug)]
pub struct CreateUserResponse {
    pub user: User,
    pub verification_token: String,
}

/// A device push token as a client submits it.
#[derive(Debug)]
pub struct DeviceToken {
    pub token: String,
}

/// The deterministic single-use value signed for this purpose and subject
/// at `now` already survives the housekeeping purge: storing it again
/// would conflict.  Signing is deterministic, so this pins exactly when a
/// token-issuing handler refuses a duplicate.
pub open spec fn token_conflict(
    store: Store,
    config: AuthConfig,
    token_type: TokenType,
    subject: Seq<char>,
    now: i64,
) -> bool {
    has_token_value(
        purge_old_tokens(store.tokens@, now),
        jwt_token_of(config.secret_spec(token_type), subject, now, (now + SESSION_LIFETIME_SECS) as i64),
    )
}

/// Login with basic credentials: the account must exist, be verified, and
/// the password must match its stored hash; a fresh session token is then
/// signed for its email.  Every outcome is fixed: success exactly when
/// all checks pass, and each rejection exactly on its cause.
pub fn login(auth: &BasicAuth, store: &Store, config: &AuthConfig, now: i64) -> (r: Result<
    LoginResponse,
    ApiError,
>)
    requires
        store.wf(),
        0 <= now,
        now + SESSION_LIFETIME_SECS <= i64::MAX,
    ensures
        r is Ok <==> (auth.password matches Some(pw) && exists|i: int|
            0 <= i < store.users@.len() && (#[trigger] store.users@[i]).email@ == auth.username@
                && store.users@[i].verified && bcrypt_verdict(pw@, store.users@[i].password@)
                == Some(true)),
        match r {
            Ok(resp) => {
                &&& resp.user.email@ == auth.username@
                &&& resp.user.verified
                &&& exists|i: int|
                    0 <= i < store.users@.len() && #[trigger] store.users@[i] == resp.user
                &&& auth.password matches Some(pw) && bcrypt_accepts(pw@, resp.user.password@)
                &&& resp.token@ == jwt_token_of(
                    config.secret_spec(TokenType::Auth),
                    auth.username@,
                    now,
                    (now + SESSION_LIFETIME_SECS) as i64,
                )
                &&& jwt_claims_of(config.secret_spec(TokenType::Auth), resp.token@) == Some(
                    (auth.username@, now, (now + SESSION_LIFETIME_SECS) as i64),
                )
            },
            Err(e) => {
                &&& (e == ApiError::UserNotFound <==> !has_user_with_email(
                    store.users@,
                    auth.username@,
                ))
                &&& (e == ApiError::NotVerified <==> exists|i: int|
                    0 <= i < store.users@.len() && (#[trigger] store.users@[i]).email@
                        == auth.username@ && !store.users@[i].verified)
                &&& (e == ApiError::MissingPassword <==> (auth.password is None && exists|i: int|
                    0 <= i < store.users@.len() && (#[trigger] store.users@[i]).email@
                        == auth.username@ && store.users@[i].verified))
                &&& (e == ApiError::HashingFailed <==> (auth.password matches Some(pw) && exists|
                    i: int,
                |
                    0 <= i < store.users@.len() && (#[trigger] store.users@[i]).email@
                        == auth.username@ && store.users@[i].verified && bcrypt_verdict(
                        pw@,
                        store.users@[i].password@,
                    ) is None))
                &&& (e == ApiError::IncorrectPassword <==> (auth.password matches Some(pw)
                    && exists|i: int|
                    0 <= i < store.users@.len() && (#[trigger] store.users@[i]).email@
                        == auth.username@ && store.users@[i].verified && bcrypt_verdict(
                        pw@,
                        store.users@[i].password@,
                    ) == Some(false)))
                &&& (e == ApiError::UserNotFound || e == ApiError::NotVerified || e
                    == ApiError::MissingPassword || e == ApiError::IncorrectPassword || e
                    == ApiError::HashingFailed)
            },
        },
{
    let user = match User::from_email(&auth.username, store) {
        Some(u) => u,
        None => {
            return Err(ApiError::UserNotFound);
        },
    };
    proof {
        let i = choose|i: int|
            0 <= i < store.users@.len() && #[trigger] store.users@[i] == user;
        assert forall|j: int|
            0 <= j < store.users@.len() && (#[trigger] store.users@[j]).email@ == auth.username@
            implies store.users@[j] == user by {
            if j != i {
                assert(store.users@[j].email@ != store.users@[i].email@);
            }
        }
    }
    if !user.verified {
        return Err(ApiError::NotVerified);
    }
    let password = match &auth.password {
        Some(p) => p,
        None => {
            return Err(ApiError::MissingPassword);
        },
    };
    let is_correct = match bcrypt_verify(password.as_str(), user.password.as_str()) {
        Some(b) => b,
        None => {
            return Err(ApiError::HashingFailed);
        },
    };
    if !is_correct {
        return Err(ApiError::IncorrectPassword);
    }
    let token = match generate_token(user.email.as_str(), TokenType::Auth, config, now) {
        Ok(t) => t,
        Err(e) => {
            proof {
                assert(false);
            }
            return Err(e);
        },
    };
    Ok(LoginResponse { user, token })
}

/// Registration: hashes the password, inserts the unverified account,
/// signs a verification token for its email and stores it for single use.
/// A caller mails the token; it is also returned.  Success is owed
/// whenever the email and the freshly signed token value are unclaimed
/// and the salted hashing succeeds; each refusal is pinned to its cause,
/// the duplicate email taking precedence.
pub fn create_user(user_init: &UserInput, store: &mut Store, config: &AuthConfig, now: i64) -> (r:
    Result<CreateUserResponse, ApiError>)
    requires
        old(store).wf(),
        0 <= now,
        now + SESSION_LIFETIME_SECS <= i64::MAX,
    ensures
        final(store).wf(),
        same_locations(*old(store), *final(store)),
        same_alerts(*old(store), *final(store)),
        same_alert_types(*old(store), *final(store)),
        same_device_tokens(*old(store), *final(store)),
        r == Err::<CreateUserResponse, ApiError>(ApiError::DuplicateEmail) <==> has_user_with_email(
            old(store).users@,
            user_init.email@,
        ),
        r == Err::<CreateUserResponse, ApiError>(ApiError::DuplicateToken) <==> (
        !has_user_with_email(old(store).users@, user_init.email@) && token_conflict(
            *old(store),
            *config,
            TokenType::Verification,
            user_init.email@,
            now,
        )),
        r == Err::<CreateUserResponse, ApiError>(ApiError::StoreUnavailable) <==> (
        !has_user_with_email(old(store).users@, user_init.email@) && !token_conflict(
            *old(store),
            *config,
            TokenType::Verification,
            user_init.email@,
            now,
        ) && old(store).next_user_id == i64::MAX),
        match r {
            Ok(resp) => {
                &&& resp.verification_token@ == jwt_token_of(
                    config.secret_spec(TokenType::Verification),
                    user_init.email@,
                    now,
                    (now + SESSION_LIFETIME_SECS) as i64,
                )
                &&& jwt_claims_of(
                    config.secret_spec(TokenType::Verification),
                    resp.verification_token@,
                ) == Some((user_init.email@, now, (now + SESSION_LIFETIME_SECS) as i64))
                &&& !has_user_with_email(old(store).users@, user_init.email@)
                &&& final(store).users@ == old(store).users@.push(resp.user)
                &&& final(store).next_user_id == old(store).next_user_id + 1
                &&& resp.user.id == old(store).next_user_id
                &&& resp.user.name@ == user_init.name@
                &&& resp.user.email@ == user_init.email@
                &&& bcrypt_accepts(user_init.password@, resp.user.password@)
                &&& resp.user.phone == user_init.phone
                &&& !resp.user.verified
                &&& resp.user.created_at == now
                &&& resp.user.updated_at == now
                &&& stored_token_appended(
                    old(store).tokens@,
                    final(store).tokens@,
                    resp.verification_token@,
                    TokenType::Verification,
                    user_init.email@,
                    now,
                )
            },
            Err(e) => {
                &&& unchanged(*old(store), *final(store))
                &&& (e == ApiError::HashingFailed ==> (!has_user_with_email(
                    old(store).users@,
                    user_init.email@,
                ) && !token_conflict(
                    *old(store),
                    *config,
                    TokenType::Verification,
                    user_init.email@,
                    now,
                ) && old(store).next_user_id < i64::MAX))
                &&& (e == ApiError::DuplicateEmail || e == ApiError::DuplicateToken || e
                    == ApiError::HashingFailed || e == ApiError::StoreUnavailable)
            },
        },
{
    let verification_token = match generate_token(
        user_init.email.as_str(),
        TokenType::Verification,
        config,
        now,
    ) {
        Ok(t) => t,
        Err(e) => {
            proof {
                assert(false);
            }
            return Err(e);
        },
    };
    // The duplicate email takes precedence over a token-value conflict.
    match User::from_email(&user_init.email, store) {
        Some(_) => {
            return Err(ApiError::DuplicateEmail);
        },
        None => {
        },
    };
    if token_value_conflicts(&verification_token, store, now) {
        return Err(ApiError::DuplicateToken);
    }
    let new_user = match User::init(user_init, store, now) {
        Ok(u) => u,
        Err(e) => {
            return Err(e);
        },
    };
    let stored = match store_token(
        &verification_token,
        TokenType::Verification,
        &user_init.email,
        store,
        now,
    ) {
        Ok(t) => t,
        Err(e) => {
            proof {
                assert(false);
            }
            return Err(e);
        },
    };
    Ok(CreateUserResponse { user: new_user, verification_token: stored })
}

/// Email verification: consumes the presented single-use token, resolves
/// its subject, and marks the account verified.  The consumption and the
/// check are one step, so a second presentation of the same token reads as
/// not found.
pub fn verify_email(token: &BearerToken, store: &mut Store, config: &AuthConfig, now: i64) -> (r:
    Result<User, ApiError>)
    requires
        old(store).wf(),
        0 <= now,
    ensures
        final(store).wf(),
        same_locations(*old(store), *final(store)),
        same_alerts(*old(store), *final(store)),
        same_alert_types(*old(store), *final(store)),
        same_device_tokens(*old(store), *final(store)),
        final(store).next_user_id == old(store).next_user_id,
        match r {
            Ok(u) => {
                &&& has_fresh_token(old(store).tokens@, token.token@, now)
                &&& exists|ti: int|
                    0 <= ti < old(store).tokens@.len() && (#[trigger] old(
                        store,
                    ).tokens@[ti]).token@ == token.token@ && final(store).tokens@ == old(
                        store,
                    ).tokens@.remove(ti)
                &&& validate_token_spec(
                    config.secret_spec(TokenType::Verification),
                    token.token@,
                    now,
                ) matches Ok(sub) && u.email@ == sub
                &&& u.verified
                &&& user_verified_ok(old(store).users@, final(store).users@, u.id, u, now)
            },
            Err(e) => {
                &&& unchanged(*old(store), *final(store))
                &&& (e == ApiError::TokenNotFound <==> !has_fresh_token(
                    old(store).tokens@,
                    token.token@,
                    now,
                ))
                &&& (e == ApiError::Unauthorized ==> !session_ok(
                    *config,
                    token.token@,
                    TokenType::Verification,
                    *old(store),
                    now,
                ))
                &&& (e == ApiError::TokenNotFound || e == ApiError::Unauthorized)
            },
        },
{
    if !token_retrievable(&token.token, store, now) {
        return Err(ApiError::TokenNotFound);
    }
    let user = match User::from_token(&token.token, TokenType::Verification, config, store, now) {
        Some(u) => u,
        None => {
            return Err(ApiError::Unauthorized);
        },
    };
    match retrieve_token(&token.token, store, now) {
        Some(_) => {
        },
        None => {
            proof {
                assert(false);
            }
            return Err(ApiError::TokenNotFound);
        },
    };
    match user.verify_email(store, now) {
        Ok(u) => Ok(u),
        Err(e) => {
            proof {
                let i = choose|i: int|
                    0 <= i < old(store).users@.len() && #[trigger] old(store).users@[i] == user;
                assert(old(store).users@[i].id == user.id);
                assert(false);
            }
            Err(e)
        },
    }
}

/// Signs a fresh verification token for an existing account and stores it
/// for single use; a caller mails it.  Success is owed exactly when the
/// account exists and the freshly signed value is unclaimed.
pub fn send_verification_email(email: &String, store: &mut Store, config: &AuthConfig, now: i64) -> (r:
    Result<String, ApiError>)
    requires
        old(store).wf(),
        0 <= now,
        now + SESSION_LIFETIME_SECS <= i64::MAX,
    ensures
        final(store).wf(),
        same_users(*old(store), *final(store)),
        same_locations(*old(store), *final(store)),
        same_alerts(*old(store), *final(store)),
        same_alert_types(*old(store), *final(store)),
        same_device_tokens(*old(store), *final(store)),
        r is Ok <==> (has_user_with_email(old(store).users@, email@) && !token_conflict(
            *old(store),
            *config,
            TokenType::Verification,
            email@,
            now,
        )),
        match r {
            Ok(t) => {
                &&& t@ == jwt_token_of(
                    config.secret_spec(TokenType::Verification),
                    email@,
                    now,
                    (now + SESSION_LIFETIME_SECS) as i64,
                )
                &&& jwt_claims_of(config.secret_spec(TokenType::Verification), t@) == Some(
                    (email@, now, (now + SESSION_LIFETIME_SECS) as i64),
                )
                &&& stored_token_appended(
                    old(store).tokens@,
                    final(store).tokens@,
                    t@,
                    TokenType::Verification,
                    email@,
                    now,
                )
            },
            Err(e) => {
                &&& unchanged(*old(store), *final(store))
                &&& (e == ApiError::UserNotFound <==> !has_user_with_email(
                    old(store).users@,
                    email@,
                ))
                &&& (e == ApiError::DuplicateToken <==> (has_user_with_email(
                    old(store).users@,
                    email@,
                ) && token_conflict(*old(store), *config, TokenType::Verification, email@, now)))
                &&& (e == ApiError::UserNotFound || e == ApiError::DuplicateToken)
            },
        },
{
    let user = match User::from_email(email, store) {
        Some(u) => u,
        None => {
            return Err(ApiError::UserNotFound);
        },
    };
    let verification_token = match generate_token(
        user.email.as_str(),
        TokenType::Verification,
        config,
        now,
    ) {
        Ok(t) => t,
        Err(e) => {
            proof {
                assert(false);
            }
            return Err(e);
        },
    };
    if token_value_conflicts(&verification_token, store, now) {
        return Err(ApiError::DuplicateToken);
    }
    match store_token(&verification_token, TokenType::Verification, &user.email, store, now) {
        Ok(t) => Ok(t),
        Err(e) => {
            proof {
                assert(false);
            }
            Err(e)
        },
    }
}

/// Requests a password reset: the account must exist and be verified; a
/// fresh reset token is signed for the email and stored for single use.
/// Success is owed exactly when those hold and the freshly signed value
/// is unclaimed; each refusal is pinned to its cause.
pub fn request_password_reset(email: &String, store: &mut Store, config: &AuthConfig, now: i64) -> (r:
    Result<String, ApiError>)
    requires
        old(store).wf(),
        0 <= now,
        now + SESSION_LIFETIME_SECS <= i64::MAX,
    ensures
        final(store).wf(),
        same_users(*old(store), *final(store)),
        same_locations(*old(store), *final(store)),
        same_alerts(*old(store), *final(store)),
        same_alert_types(*old(store), *final(store)),
        same_device_tokens(*old(store), *final(store)),
        r is Ok <==> ((exists|i: int|
            0 <= i < old(store).users@.len() && (#[trigger] old(store).users@[i]).email@ == email@
                && old(store).users@[i].verified) && !token_conflict(
            *old(store),
            *config,
            TokenType::PasswordReset,
            email@,
            now,
        )),
        match r {
            Ok(t) => {
                &&& t@ == jwt_token_of(
                    config.secret_spec(TokenType::PasswordReset),
                    email@,
                    now,
                    (now + SESSION_LIFETIME_SECS) as i64,
                )
                &&& jwt_claims_of(config.secret_spec(TokenType::PasswordReset), t@) == Some(
                    (email@, now, (now + SESSION_LIFETIME_SECS) as i64),
                )
                &&& stored_token_appended(
                    old(store).tokens@,
                    final(store).tokens@,
                    t@,
                    TokenType::PasswordReset,
                    email@,
                    now,
                )
            },
            Err(e) => {
                &&& unchanged(*old(store), *final(store))
                &&& (e == ApiError::UserNotFound <==> !has_user_with_email(
                    old(store).users@,
                    email@,
                ))
                &&& (e == ApiError::NotVerified <==> exists|i: int|
                    0 <= i < old(store).users@.len() && (#[trigger] old(store).users@[i]).email@
                        == email@ && !old(store).users@[i].verified)
                &&& (e == ApiError::DuplicateToken <==> ((exists|i: int|
                    0 <= i < old(store).users@.len() && (#[trigger] old(store).users@[i]).email@
                        == email@ && old(store).users@[i].verified) && token_conflict(
                    *old(store),
                    *config,
                    TokenType::PasswordReset,
                    email@,
                    now,
                )))
                &&& (e == ApiError::UserNotFound || e == ApiError::NotVerified || e
                    == ApiError::DuplicateToken)
            },
        },
{
    let user = match User::from_email(email, store) {
        Some(u) => u,
        None => {
            return Err(ApiError::UserNotFound);
        },
    };
    proof {
        let i = choose|i: int|
            0 <= i < old(store).users@.len() && #[trigger] old(store).users@[i] == user;
        assert forall|j: int|
            0 <= j < old(store).users@.len() && (#[trigger] old(store).users@[j]).email@ == email@
            implies old(store).users@[j] == user by {
            if j != i {
                assert(old(store).users@[j].email@ != old(store).users@[i].email@);
            }
        }
    }
    if !user.verified {
        return Err(ApiError::NotVerified);
    }
    let reset_token = match generate_token(email.as_str(), TokenType::PasswordReset, config, now) {
        Ok(t) => t,
        Err(e) => {
            proof {
                assert(false);
            }
            return Err(e);
        },
    };
    if token_value_conflicts(&reset_token, store, now) {
        return Err(ApiError::DuplicateToken);
    }
    match store_token(&reset_token, TokenType::PasswordReset, email, store, now) {
        Ok(t) => Ok(t),
        Err(e) => {
            proof {
                assert(false);
            }
            Err(e)
        },
    }
}

/// Completes a password reset:/// Completes a password reset: the presented single-use token is checked
/// and consumed in the same request that replaces the password, so of two
/// requests racing on one token value exactly one can succeed.
pub fn reset_password(auth: &BasicAuth, store: &mut Store, config: &AuthConfig, now: i64) -> (r:
    Result<User, ApiError>)
    requires
        old(store).wf(),
        0 <= now,
    ensures
        final(store).wf(),
        same_locations(*old(store), *final(store)),
        same_alerts(*old(store), *final(store)),
        same_alert_types(*old(store), *final(store)),
        same_device_tokens(*old(store), *final(store)),
        final(store).next_user_id == old(store).next_user_id,
        match r {
            Ok(u) => {
                &&& has_fresh_token(old(store).tokens@, auth.username@, now)
                &&& exists|ti: int|
                    0 <= ti < old(store).tokens@.len() && (#[trigger] old(
                        store,
                    ).tokens@[ti]).token@ == auth.username@ && final(store).tokens@ == old(
                        store,
                    ).tokens@.remove(ti)
                &&& validate_token_spec(
                    config.secret_spec(TokenType::PasswordReset),
                    auth.username@,
                    now,
                ) matches Ok(sub) && u.email@ == sub
                &&& auth.password matches Some(pw) && bcrypt_accepts(pw@, u.password@)
                &&& password_reset_ok(old(store).users@, final(store).users@, u.id, u)
            },
            Err(e) => {
                &&& unchanged(*old(store), *final(store))
                &&& (e == ApiError::TokenNotFound <==> !has_fresh_token(
                    old(store).tokens@,
                    auth.username@,
                    now,
                ))
                &&& (e == ApiError::Unauthorized ==> !session_ok(
                    *config,
                    auth.username@,
                    TokenType::PasswordReset,
                    *old(store),
                    now,
                ))
                &&& (e == ApiError::MissingPassword ==> auth.password is None)
                &&& (e == ApiError::TokenNotFound || e == ApiError::Unauthorized || e
                    == ApiError::MissingPassword || e == ApiError::HashingFailed)
            },
        },
{
    if !token_retrievable(&auth.username, store, now) {
        return Err(ApiError::TokenNotFound);
    }
    let user = match User::from_token(&auth.username, TokenType::PasswordReset, config, store, now) {
        Some(u) => u,
        None => {
            return Err(ApiError::Unauthorized);
        },
    };
    let password = match &auth.password {
        Some(p) => p,
        None => {
            return Err(ApiError::MissingPassword);
        },
    };
    let updated = match user.reset_password(password, store, now) {
        Ok(u) => u,
        Err(e) => {
            proof {
                let i = choose|i: int|
                    0 <= i < old(store).users@.len() && #[trigger] old(store).users@[i] == user;
                assert(old(store).users@[i].id == user.id);
            }
            return Err(ApiError::HashingFailed);
        },
    };
    match retrieve_token(&auth.username, store, now) {
        Some(_) => {
        },
        None => {
            proof {
                assert(false);
            }
            return Err(ApiError::TokenNotFound);
        },
    };
    Ok(updated)
}

/// Registers or replaces the caller's device push token; at most one per
/// user is kept.
pub fn update_device_token(
    device_token: &DeviceToken,
    token: &BearerToken,
    store: &mut Store,
    config: &AuthConfig,
    now: i64,
) -> (r: Result<(), ApiError>)
    requires
        old(store).wf(),
        0 <= now,
    ensures
        final(store).wf(),
        same_users(*old(store), *final(store)),
        same_locations(*old(store), *final(store)),
        same_alerts(*old(store), *final(store)),
        same_alert_types(*old(store), *final(store)),
        same_tokens(*old(store), *final(store)),
        match r {
            Ok(_) => validate_token_spec(config.secret_spec(TokenType::Auth), token.token@, now)
                matches Ok(sub) && exists|ui: int|
                0 <= ui < old(store).users@.len() && (#[trigger] old(store).users@[ui]).email@
                    == sub && device_token_upsert_ok(
                    old(store).device_tokens@,
                    final(store).device_tokens@,
                    old(store).users@[ui].id,
                    device_token.token@,
                    now,
                ),
            Err(e) => {
                &&& e == ApiError::Unauthorized
                &&& unchanged(*old(store), *final(store))
                &&& !session_ok(*config, token.token@, TokenType::Auth, *old(store), now)
            },
        },
{
    let user = match User::from_token(&token.token, TokenType::Auth, config, store, now) {
        Some(u) => u,
        None => {
            return Err(ApiError::Unauthorized);
        },
    };
    match user.update_device_token(&device_token.token, store, now) {
        Ok(_) => {
            proof {
                let i = choose|i: int|
                    0 <= i < old(store).users@.len() && #[trigger] old(store).users@[i] == user;
                assert(old(store).users@[i].email@ == user.email@);
            }
            Ok(())
        },
        Err(e) => {
            proof {
                assert(false);
            }
            Err(e)
        },
    }
}

} // verus!
