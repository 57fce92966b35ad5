//! Credential and token subsystem.
//!
//! Two independent token kinds gate the API:
//!
//! * a stateless signed session claim `{subject, issued-at, expiry}`,
//!   signed with a symmetric secret distinct per purpose, and
//! * a store-backed single-use token for email verification and password
//!   reset, whose retrieval is an atomic delete-and-return.

use vstd::prelude::*;

use crate::errors::ApiError;
use crate::store::distinct_token_values;
use crate::store::same_alert_types;
use crate::store::same_alerts;
use crate::store::same_device_tokens;
use crate::store::same_locations;
use crate::store::same_users;
use crate::store::unchanged;
use crate::store::Store;
use crate::store::StoredToken;

verus! {

/// Lifetime of a signed session claim: 90 days, in seconds.
pub const SESSION_LIFETIME_SECS: i64 = 7_776_000;

/// Validity window of a single-use token: one day, in seconds.  An older
/// token is not retrievable even if still present in storage.
pub const TOKEN_VALIDITY_SECS: i64 = 86_400;

/// Retention window of the single-use token table: seven days, in seconds.
/// Older rows are purged opportunistically whenever a token is stored.
pub const TOKEN_RETENTION_SECS: i64 = 604_800;

/// The claim set of a signed session token.
#[derive(Debug)]
pub struct Claims {
    pub sub: String,
    pub iat: i64,
    pub exp: i64,
}

/// A bearer value taken from an Authorization header.
#[derive(Debug)]
pub struct BearerToken {
    pub token: String,
}

/// A username and optional password taken from basic authentication.
#[derive(Debug)]
pub struct BasicAuth {
    pub username: String,
    pub password: Option<String>,
}

/// The purpose a token is issued for; each purpose signs with its own
/// secret.
#[derive(Clone, Copy, Debug, PartialEq, Eq, Structural)]
pub enum TokenType {
    Auth,
    Verification,
    PasswordReset,
}

/// The signing secrets, one per token purpose.  Passed in explicitly; the
/// library never reads the environment.
#[derive(Debug)]
pub struct AuthConfig {
    pub auth_secret: String,
    pub verification_secret: String,
    pub reset_secret: String,
}

impl AuthConfig {
    /// The secret that signs tokens of the given purpose.
    pub open spec fn secret_spec(&self, token_type: TokenType) -> Seq<char> {
        match token_type {
            TokenType::Auth => self.auth_secret@,
            TokenType::Verification => self.verification_secret@,
            TokenType::PasswordReset => self.reset_secret@,
        }
    }

    pub fn secret(&self, token_type: TokenType) -> (r: &String)
        ensures
            r@ == self.secret_spec(token_type),
    {
        match token_type {
            TokenType::Auth => &self.auth_secret,
            TokenType::Verification => &self.verification_secret,
            TokenType::PasswordReset => &self.reset_secret,
        }
    }
}

/// The compact JWT that HS256 signing produces for this secret and claim
/// set; a pure function of its arguments.
pub uninterp spec fn jwt_token_of(secret: Seq<char>, sub: Seq<char>, iat: i64, exp: i64) -> Seq<
    char,
>;

/// The claim set that HS256 verification recovers from a token under a
/// secret, `None` when the token is malformed or its signature does not
/// verify; a pure function of its arguments (expiry is not checked here).
pub uninterp spec fn jwt_claims_of(secret: Seq<char>, token: Seq<char>) -> Option<
    (Seq<char>, i64, i64),
>;

/// What bcrypt verification returns for this password and hash: `None`
/// when the stored hash cannot be parsed, otherwise whether the password
/// is accepted.  A pure function of its arguments, since the salt is
/// embedded in the hash.
pub uninterp spec fn bcrypt_verdict(password: Seq<char>, hash: Seq<char>) -> Option<bool>;

/// The password is accepted against the hash.
pub open spec fn bcrypt_accepts(password: Seq<char>, hash: Seq<char>) -> bool {
    bcrypt_verdict(password, hash) == Some(true)
}

/// Relies on `jsonwebtoken::encode` with an HS256 header and an HMAC
/// secret: the token is a pure function of the secret and the claim set.
/// HMAC signing accepts a secret of any length and cannot fail, so the
/// call always yields a token; decoding it under the same secret recovers
/// exactly this claim set (the token carries no audience claim, so
/// decoding's audience check never bites).
#[verifier::external_body]
fn jwt_encode(secret: &str, claims: &Claims) -> (r: Option<String>)
    ensures
        r is Some,
        r matches Some(t) ==> t@ == jwt_token_of(secret@, claims.sub@, claims.iat, claims.exp),
        r matches Some(t) ==> jwt_claims_of(secret@, t@) == Some(
            (claims.sub@, claims.iat, claims.exp),
        ),
{
    let mut map = serde_json::Map::new();
    map.insert("sub".to_string(), serde_json::Value::from(claims.sub.as_str()));
    map.insert("iat".to_string(), serde_json::Value::from(claims.iat));
    map.insert("exp".to_string(), serde_json::Value::from(claims.exp));
    let key = jsonwebtoken::EncodingKey::from_secret(secret.as_bytes());
    let header = jsonwebtoken::Header::new(jsonwebtoken::Algorithm::HS256);
    jsonwebtoken::encode(&header, &serde_json::Value::Object(map), &key).ok()
}

/// Relies on `jsonwebtoken::decode` with HS256; the caller checks expiry.
/// With expiry validation disabled the clock is never read, so the
/// outcome is a pure function of the secret and the token.  Besides a bad
/// signature, a token carrying an audience claim is also rejected, which
/// is equally deterministic.
#[verifier::external_body]
fn jwt_decode(secret: &str, token: &str) -> (r: Option<(String, i64, i64)>)
    ensures
        match r {
            Some(c) => jwt_claims_of(secret@, token@) == Some((c.0@, c.1, c.2)),
            None => jwt_claims_of(secret@, token@) is None,
        },
{
    let key = jsonwebtoken::DecodingKey::from_secret(secret.as_bytes());
    let mut validation = jsonwebtoken::Validation::new(jsonwebtoken::Algorithm::HS256);
    validation.validate_exp = false;
    validation.required_spec_claims = std::collections::HashSet::new();
    let data = jsonwebtoken::decode::<serde_json::Value>(token, &key, &validation).ok()?;
    let sub = data.claims.get("sub")?.as_str()?.to_string();
    let iat = data.claims.get("iat")?.as_i64()?;
    let exp = data.claims.get("exp")?.as_i64()?;
    Some((sub, iat, exp))
}

/// Relies on `bcrypt::hash` with the default cost: a fresh salted hash
/// that `bcrypt::verify` accepts for the same password.  The salt is
/// random, so nothing more is assumed of the value.
#[verifier::external_body]
pub fn bcrypt_hash(password: &str) -> (r: Option<String>)
    ensures
        r matches Some(h) ==> bcrypt_accepts(password@, h@),
{
    bcrypt::hash(password, bcrypt::DEFAULT_COST).ok()
}

/// Relies on `bcrypt::verify`: deterministic parsing, re-derivation and
/// comparison, so the whole outcome is a pure function of the password
/// and the hash (`None` exactly when the hash cannot be parsed).
#[verifier::external_body]
pub fn bcrypt_verify(password: &str, hash: &str) -> (r: Option<bool>)
    ensures
        r == bcrypt_verdict(password@, hash@),
{
    bcrypt::verify(password, hash).ok()
}

/// Relies on `chrono::Utc::now` for the wall clock, as whole seconds since
/// the Unix epoch; nothing is assumed about the value.
#[verifier::external_body]
pub fn current_timestamp() -> i64 {
    chrono::Utc::now().timestamp()
}

/// Issues a signed session claim `{subject, issued-at = now, expiry = now +
/// 90 days}` under the secret of the given purpose.  HMAC signing with an
/// explicitly supplied secret cannot fail, so this always succeeds; the
/// original could fail only on its ambient secret lookup, which the
/// explicit configuration replaces.
pub fn generate_token(identifier: &str, token_type: TokenType, config: &AuthConfig, now: i64) -> (r:
    Result<String, ApiError>)
    requires
        0 <= now,
        now + SESSION_LIFETIME_SECS <= i64::MAX,
    ensures
        r is Ok,
        r matches Ok(t) ==> t@ == jwt_token_of(
            config.secret_spec(token_type),
            identifier@,
            now,
            (now + SESSION_LIFETIME_SECS) as i64,
        ),
        r matches Ok(t) ==> jwt_claims_of(config.secret_spec(token_type), t@) == Some(
            (identifier@, now, (now + SESSION_LIFETIME_SECS) as i64),
        ),
{
    let claims = Claims {
        sub: identifier.to_owned(),
        iat: now,
        exp: now + SESSION_LIFETIME_SECS,
    };
    match jwt_encode(config.secret(token_type).as_str(), &claims) {
        Some(t) => Ok(t),
        None => {
            proof {
                assert(false);
            }
            Err(ApiError::SigningFailed)
        },
    }
}

/// What validation of a session token yields at time `now`: the subject
/// when the signature verifies under the purpose's secret and the expiry
/// lies after `now`; otherwise the failure reason.
pub open spec fn validate_token_spec(secret: Seq<char>, token: Seq<char>, now: i64) -> Result<
    Seq<char>,
    ApiError,
> {
    match jwt_claims_of(secret, token) {
        Some(c) => if now < c.2 {
            Ok(c.0)
        } else {
            Err(ApiError::Expired)
        },
        None => Err(ApiError::InvalidSignature),
    }
}

/// Validates a session token for a purpose and returns its subject.
pub fn validate_token(token: &str, token_type: TokenType, config: &AuthConfig, now: i64) -> (r:
    Result<String, ApiError>)
    ensures
        match r {
            Ok(sub) => validate_token_spec(config.secret_spec(token_type), token@, now) == Ok::<
                Seq<char>,
                ApiError,
            >(sub@),
            Err(e) => validate_token_spec(config.secret_spec(token_type), token@, now) == Err::<
                Seq<char>,
                ApiError,
            >(e),
        },
{
    match jwt_decode(config.secret(token_type).as_str(), token) {
        Some((sub, _iat, exp)) => {
            if now < exp {
                Ok(sub)
            } else {
                Err(ApiError::Expired)
            }
        },
        None => Err(ApiError::InvalidSignature),
    }
}

/// Whether a stored token is still inside its validity window at `now`.
pub open spec fn token_fresh_at(t: StoredToken, now: i64) -> bool {
    t.created_at > now - TOKEN_VALIDITY_SECS
}

/// Whether a stored token is still inside the retention window at `now`.
pub open spec fn token_retained_at(t: StoredToken, now: i64) -> bool {
    t.created_at > now - TOKEN_RETENTION_SECS
}

/// Whether any row carries this token value.
pub open spec fn has_token_value(tokens: Seq<StoredToken>, value: Seq<char>) -> bool {
    exists|i: int| 0 <= i < tokens.len() && #[trigger] tokens[i].token@ == value
}

/// Whether a row carries this token value and is still inside the validity
/// window.
pub open spec fn has_fresh_token(tokens: Seq<StoredToken>, value: Seq<char>, now: i64) -> bool {
    exists|i: int|
        0 <= i < tokens.len() && #[trigger] tokens[i].token@ == value && token_fresh_at(
            tokens[i],
            now,
        )
}

/// The token table after the opportunistic purge of rows older than the
/// retention window: the retained rows, in their original order.
pub open spec fn purge_old_tokens(tokens: Seq<StoredToken>, now: i64) -> Seq<StoredToken>
    decreases tokens.len(),
{
    if tokens.len() == 0 {
        Seq::empty()
    } else if token_retained_at(tokens[0], now) {
        seq![tokens[0]] + purge_old_tokens(tokens.subrange(1, tokens.len() as int), now)
    } else {
        purge_old_tokens(tokens.subrange(1, tokens.len() as int), now)
    }
}

/// Every row the purge keeps comes from the original table.
proof fn lemma_purge_membership(tokens: Seq<StoredToken>, now: i64)
    ensures
        forall|k: int|
            0 <= k < purge_old_tokens(tokens, now).len() ==> exists|j: int|
                0 <= j < tokens.len() && #[trigger] purge_old_tokens(tokens, now)[k] == tokens[j],
    decreases tokens.len(),
{
    if tokens.len() == 0 {
    } else {
        let rest = tokens.subrange(1, tokens.len() as int);
        lemma_purge_membership(rest, now);
        let kept = purge_old_tokens(tokens, now);
        assert forall|k: int| 0 <= k < kept.len() implies exists|j: int|
            0 <= j < tokens.len() && #[trigger] kept[k] == tokens[j] by {
            if token_retained_at(tokens[0], now) {
                if k == 0 {
                    assert(kept[0] == tokens[0]);
                } else {
                    let kr = purge_old_tokens(rest, now);
                    assert(kept[k] == kr[k - 1]);
                    let j = choose|j: int| 0 <= j < rest.len() && kr[k - 1] == rest[j];
                    assert(kept[k] == tokens[j + 1]);
                }
            } else {
                let kr = purge_old_tokens(rest, now);
                assert(kept[k] == kr[k]);
                let j = choose|j: int| 0 <= j < rest.len() && kr[k] == rest[j];
                assert(kept[k] == tokens[j + 1]);
            }
        }
    }
}

/// The purge keeps token values distinct.
proof fn lemma_purge_distinct(tokens: Seq<StoredToken>, now: i64)
    requires
        distinct_token_values(tokens),
    ensures
        distinct_token_values(purge_old_tokens(tokens, now)),
    decreases tokens.len(),
{
    if tokens.len() == 0 {
    } else {
        let rest = tokens.subrange(1, tokens.len() as int);
        assert(distinct_token_values(rest)) by {
            assert forall|i: int, j: int| 0 <= i < j < rest.len() implies #[trigger] rest[i].token@
                != #[trigger] rest[j].token@ by {
                assert(rest[i] == tokens[i + 1] && rest[j] == tokens[j + 1]);
            }
        }
        lemma_purge_distinct(rest, now);
        lemma_purge_membership(rest, now);
        let kept = purge_old_tokens(tokens, now);
        let kr = purge_old_tokens(rest, now);
        if token_retained_at(tokens[0], now) {
            assert forall|i: int, j: int| 0 <= i < j < kept.len() implies #[trigger] kept[i].token@
                != #[trigger] kept[j].token@ by {
                if i == 0 {
                    assert(kept[j] == kr[j - 1]);
                    let m = choose|m: int| 0 <= m < rest.len() && kr[j - 1] == rest[m];
                    assert(rest[m] == tokens[m + 1]);
                    assert(tokens[0].token@ != tokens[m + 1].token@);
                } else {
                    assert(kept[i] == kr[i - 1] && kept[j] == kr[j - 1]);
                }
            }
        }
    }
}

/// What storing a single-use token leaves behind: the purged table with
/// the new row appended, and no surviving row shared its value.
pub open spec fn stored_token_appended(
    pre: Seq<StoredToken>,
    post: Seq<StoredToken>,
    value: Seq<char>,
    token_type: TokenType,
    created_for: Seq<char>,
    now: i64,
) -> bool {
    let kept = purge_old_tokens(pre, now);
    &&& !has_token_value(kept, value)
    &&& post.len() == kept.len() + 1
    &&& post.subrange(0, kept.len() as int) == kept
    &&& post.last().token@ == value
    &&& post.last().token_type == token_type
    &&& post.last().created_for@ == created_for
    &&& post.last().created_at == now
}

/// Stores a freshly signed single-use token for a subject.  Rows older
/// than the retention window are purged in the same step (housekeeping);
/// then the new row is inserted.  Fails, leaving the store as a rolled-back
/// transaction would, when a retained row already carries the same value.
pub fn store_token(
    token: &String,
    token_type: TokenType,
    created_for: &String,
    store: &mut Store,
    now: i64,
) -> (r: Result<String, ApiError>)
    requires
        old(store).wf(),
        0 <= now,
    ensures
        final(store).wf(),
        same_users(*old(store), *final(store)),
        same_locations(*old(store), *final(store)),
        same_alerts(*old(store), *final(store)),
        same_alert_types(*old(store), *final(store)),
        same_device_tokens(*old(store), *final(store)),
        match r {
            Ok(t) => t@ == token@ && stored_token_appended(
                old(store).tokens@,
                final(store).tokens@,
                token@,
                token_type,
                created_for@,
                now,
            ),
            Err(e) => {
                &&& e == ApiError::DuplicateToken
                &&& has_token_value(purge_old_tokens(old(store).tokens@, now), token@)
                &&& unchanged(*old(store), *final(store))
            },
        },
{
    let ghost pre = *store;
    let mut kept: Vec<StoredToken> = Vec::new();
    let n = store.tokens.len();
    proof {
        assert(store.tokens@.subrange(0, n as int) =~= store.tokens@);
    }
    let mut i: usize = 0;
    while i < n
        invariant
            *store == pre,
            pre == *old(store),
            pre.wf(),
            0 <= now,
            n == store.tokens@.len(),
            i <= n,
            kept@ + purge_old_tokens(store.tokens@.subrange(i as int, n as int), now)
                == purge_old_tokens(store.tokens@, now),
        decreases n - i,
    {
        let ghost suffix = store.tokens@.subrange(i as int, n as int);
        proof {
            assert(suffix[0] == store.tokens@[i as int]);
            assert(suffix.subrange(1, suffix.len() as int) =~= store.tokens@.subrange(
                i + 1,
                n as int,
            ));
        }
        if store.tokens[i].created_at > now - TOKEN_RETENTION_SECS {
            kept.push(store.tokens[i].clone());
            proof {
                assert(kept@ + purge_old_tokens(
                    store.tokens@.subrange(i + 1, n as int),
                    now,
                ) =~= kept@.drop_last() + (seq![suffix[0]] + purge_old_tokens(
                    suffix.subrange(1, suffix.len() as int),
                    now,
                )));
            }
        }
        i = i + 1;
    }
    proof {
        assert(store.tokens@.subrange(n as int, n as int) =~= Seq::<StoredToken>::empty());
        assert(kept@ + Seq::<StoredToken>::empty() =~= kept@);
    }
    // The insert conflicts when a retained row already carries the value.
    let mut j: usize = 0;
    let klen = kept.len();
    while j < klen
        invariant
            *store == pre,
            pre == *old(store),
            pre.wf(),
            0 <= now,
            klen == kept@.len(),
            j <= klen,
            kept@ == purge_old_tokens(pre.tokens@, now),
            forall|m: int| 0 <= m < j ==> #[trigger] kept@[m].token@ != token@,
        decreases klen - j,
    {
        if kept[j].token == *token {
            return Err(ApiError::DuplicateToken);
        }
        j = j + 1;
    }
    proof {
        lemma_purge_distinct(pre.tokens@, now);
    }
    kept.push(
        StoredToken {
            token: token.clone(),
            token_type,
            created_for: created_for.clone(),
            created_at: now,
        },
    );
    store.tokens = kept;
    proof {
        let post = store.tokens@;
        let base = purge_old_tokens(pre.tokens@, now);
        assert(post.subrange(0, base.len() as int) =~= base);
        assert forall|a: int, b: int| 0 <= a < b < post.len() implies #[trigger] post[a].token@
            != #[trigger] post[b].token@ by {
            if b < post.len() - 1 {
                assert(post[a] == base[a] && post[b] == base[b]);
            } else {
                assert(post[a] == base[a]);
            }
        }
    }
    Ok(token.clone())
}

/// Atomic delete-and-return of a single-use token: yields the value iff a
/// row carrying it exists and is younger than the validity window, and
/// removes that row in the same step, so of two retrievals of the same
/// value at most one can succeed.  A stale or absent token yields `None`,
/// indistinguishably.
pub fn retrieve_token(token: &String, store: &mut Store, now: i64) -> (r: Option<String>)
    requires
        old(store).wf(),
        0 <= now,
    ensures
        final(store).wf(),
        same_users(*old(store), *final(store)),
        same_locations(*old(store), *final(store)),
        same_alerts(*old(store), *final(store)),
        same_alert_types(*old(store), *final(store)),
        same_device_tokens(*old(store), *final(store)),
        r is Some <==> has_fresh_token(old(store).tokens@, token@, now),
        r matches Some(t) ==> t@ == token@,
        r is Some ==> exists|i: int|
            0 <= i < old(store).tokens@.len() && #[trigger] old(store).tokens@[i].token@ == token@
                && token_fresh_at(old(store).tokens@[i], now) && final(store).tokens@ == old(
                store,
            ).tokens@.remove(i),
        r is Some ==> !has_token_value(final(store).tokens@, token@),
        r is None ==> unchanged(*old(store), *final(store)),
{
    let ghost pre = *store;
    let n = store.tokens.len();
    let mut i: usize = 0;
    while i < n
        invariant
            *store == pre,
            pre == *old(store),
            pre.wf(),
            0 <= now,
            n == store.tokens@.len(),
            i <= n,
            forall|k: int| 0 <= k < i ==> #[trigger] store.tokens@[k].token@ != token@,
        decreases n - i,
    {
        if store.tokens[i].token == *token {
            if store.tokens[i].created_at > now - TOKEN_VALIDITY_SECS {
                let row = store.tokens.remove(i);
                proof {
                    lemma_token_single_use(pre.tokens@, i as int, token@, now);
                    assert forall|a: int, b: int|
                        0 <= a < b < store.tokens@.len() implies #[trigger] store.tokens@[a].token@
                        != #[trigger] store.tokens@[b].token@ by {
                        let s = pre.tokens@;
                        let aa = if a < i { a } else { a + 1 };
                        let bb = if b < i { b } else { b + 1 };
                        assert(store.tokens@[a] == s[aa] && store.tokens@[b] == s[bb]);
                    }
                }
                return Some(row.token);
            } else {
                // The row exists but is stale: the conditional delete does
                // not match it, which reads as "not found".
                proof {
                    assert forall|k: int|
                        0 <= k < pre.tokens@.len() && #[trigger] pre.tokens@[k].token@ == token@
                        implies !token_fresh_at(pre.tokens@[k], now) by {
                        if k != i {
                            assert(pre.tokens@[k].token@ != pre.tokens@[i as int].token@);
                        }
                    }
                }
                return None;
            }
        }
        i = i + 1;
    }
    None
}

/// A value survives the purge exactly when some row carries it and is
/// still inside the retention window.
proof fn lemma_purge_value(tokens: Seq<StoredToken>, now: i64, value: Seq<char>)
    ensures
        has_token_value(purge_old_tokens(tokens, now), value) <==> exists|i: int|
            0 <= i < tokens.len() && #[trigger] tokens[i].token@ == value && token_retained_at(
                tokens[i],
                now,
            ),
    decreases tokens.len(),
{
    if tokens.len() == 0 {
    } else {
        let rest = tokens.subrange(1, tokens.len() as int);
        lemma_purge_value(rest, now, value);
        let kept = purge_old_tokens(tokens, now);
        let kr = purge_old_tokens(rest, now);
        assert forall|i: int|
            0 <= i < rest.len() && #[trigger] rest[i].token@ == value && token_retained_at(
                rest[i],
                now,
            ) implies exists|i2: int|
            0 <= i2 < tokens.len() && #[trigger] tokens[i2].token@ == value && token_retained_at(
                tokens[i2],
                now,
            ) by {
            assert(tokens[i + 1] == rest[i]);
        }
        if has_token_value(kept, value) {
            let k = choose|k: int| 0 <= k < kept.len() && #[trigger] kept[k].token@ == value;
            if token_retained_at(tokens[0], now) {
                if k == 0 {
                    assert(tokens[0].token@ == value && token_retained_at(tokens[0], now));
                } else {
                    assert(kept[k] == kr[k - 1]);
                    assert(has_token_value(kr, value));
                }
            } else {
                assert(kept[k] == kr[k]);
                assert(has_token_value(kr, value));
            }
        }
        if exists|i: int|
            0 <= i < tokens.len() && #[trigger] tokens[i].token@ == value && token_retained_at(
                tokens[i],
                now,
            ) {
            let i = choose|i: int|
                0 <= i < tokens.len() && #[trigger] tokens[i].token@ == value && token_retained_at(
                    tokens[i],
                    now,
                );
            if i == 0 {
                assert(kept[0].token@ == value);
            } else {
                assert(rest[i - 1] == tokens[i]);
                assert(has_token_value(kr, value));
                let k = choose|k: int| 0 <= k < kr.len() && #[trigger] kr[k].token@ == value;
                if token_retained_at(tokens[0], now) {
                    assert(kept[k + 1] == kr[k]);
                } else {
                    assert(kept[k] == kr[k]);
                }
            }
        }
    }
}

/// Whether storing this value would conflict with a row that survives the
/// housekeeping purge; a read-only preview of [`store_token`]'s refusal.
pub fn token_value_conflicts(token: &String, store: &Store, now: i64) -> (r: bool)
    requires
        0 <= now,
    ensures
        r == has_token_value(purge_old_tokens(store.tokens@, now), token@),
{
    proof {
        lemma_purge_value(store.tokens@, now, token@);
    }
    let n = store.tokens.len();
    let mut i: usize = 0;
    while i < n
        invariant
            0 <= now,
            n == store.tokens@.len(),
            i <= n,
            forall|k: int|
                0 <= k < i ==> !(#[trigger] store.tokens@[k].token@ == token@ && token_retained_at(
                    store.tokens@[k],
                    now,
                )),
        decreases n - i,
    {
        if store.tokens[i].created_at > now - TOKEN_RETENTION_SECS && store.tokens[i].token
            == *token {
            proof {
                lemma_purge_value(store.tokens@, now, token@);
            }
            return true;
        }
        i = i + 1;
    }
    proof {
        lemma_purge_value(store.tokens@, now, token@);
    }
    false
}

/// Whether a retrieval of this value would succeed now: some row carries
/// it inside the validity window.  A read-only preview of
/// [`retrieve_token`]; nothing is consumed.
pub fn token_retrievable(token: &String, store: &Store, now: i64) -> (r: bool)
    requires
        0 <= now,
    ensures
        r == has_fresh_token(store.tokens@, token@, now),
{
    let n = store.tokens.len();
    let mut i: usize = 0;
    while i < n
        invariant
            0 <= now,
            n == store.tokens@.len(),
            i <= n,
            forall|k: int|
                0 <= k < i ==> !(#[trigger] store.tokens@[k].token@ == token@ && token_fresh_at(
                    store.tokens@[k],
                    now,
                )),
        decreases n - i,
    {
        if store.tokens[i].created_at > now - TOKEN_VALIDITY_SECS && store.tokens[i].token
            == *token {
            return true;
        }
        i = i + 1;
    }
    false
}

/// Law: a token value past its validity window is never retrievable, even
/// while the row is still present in storage.
pub proof fn lemma_stale_token_not_retrievable(
    tokens: Seq<StoredToken>,
    value: Seq<char>,
    now: i64,
)
    requires
        forall|i: int|
            0 <= i < tokens.len() && #[trigger] tokens[i].token@ == value ==> !token_fresh_at(
                tokens[i],
                now,
            ),
    ensures
        !has_fresh_token(tokens, value, now),
{
}

/// Law: consuming a single-use token removes the only row carrying its
/// value, so a second retrieval, at any time, finds nothing.
pub proof fn lemma_token_single_use(
    tokens: Seq<StoredToken>,
    i: int,
    value: Seq<char>,
    later: i64,
)
    requires
        distinct_token_values(tokens),
        0 <= i < tokens.len(),
        tokens[i].token@ == value,
    ensures
        !has_token_value(tokens.remove(i), value),
        !has_fresh_token(tokens.remove(i), value, later),
{
    let rest = tokens.remove(i);
    assert forall|k: int| 0 <= k < rest.len() implies #[trigger] rest[k].token@ != value by {
        if k < i {
            assert(rest[k] == tokens[k]);
        } else {
            assert(rest[k] == tokens[k + 1]);
        }
    }
}

} // verus!
