//! Request-level helpers shared by the handlers.

use vstd::prelude::*;

use crate::auth::validate_token_spec;
use crate::auth::AuthConfig;
use crate::auth::TokenType;
use crate::store::Store;
use crate::user::has_user_with_email;

verus! {

/// Why a credential could not be taken from a request.
#[derive(Clone, Copy, Debug, PartialEq, Eq, Structural)]
pub enum FromRequestError {
    /// An Authorization header was present but unusable.
    InvalidToken,
    /// No Authorization header was present.
    MissingToken,
    /// No store connection could be acquired.
    UnableToConnect,
}

/// The access-control chain every mutating endpoint follows: the bearer
/// value validates as a session token for the required purpose and its
/// subject names a known account.  Every failure along the chain reads
/// the same from outside: no step leaks which check failed.
pub open spec fn session_ok(
    config: AuthConfig,
    token: Seq<char>,
    token_type: TokenType,
    store: Store,
    now: i64,
) -> bool {
    match validate_token_spec(config.secret_spec(token_type), token, now) {
        Ok(sub) => has_user_with_email(store.users@, sub),
        Err(_) => false,
    }
}

/// Health probe.
pub fn get_health() -> (r: String)
    ensures
        r@ == "Server is alive!"@,
{
    "Server is alive!".to_owned()
}

/// A whitespace character, exactly as Rust's `char::is_whitespace`
/// classifies it (the Unicode White_Space property).
pub open spec fn is_space_char(c: char) -> bool {
    let u = c as u32;
    ||| u == 0x20
    ||| (0x9 <= u && u <= 0xD)
    ||| u == 0x85
    ||| u == 0xA0
    ||| u == 0x1680
    ||| (0x2000 <= u && u <= 0x200A)
    ||| u == 0x2028
    ||| u == 0x2029
    ||| u == 0x202F
    ||| u == 0x205F
    ||| u == 0x3000
}

/// Decides [`is_space_char`] on a concrete character.
fn check_space(c: char) -> (r: bool)
    ensures
        r == is_space_char(c),
{
    let u = c as u32;
    u == 0x20 || (0x9 <= u && u <= 0xD) || u == 0x85 || u == 0xA0 || u == 0x1680 || (0x2000 <= u
        && u <= 0x200A) || u == 0x2028 || u == 0x2029 || u == 0x202F || u == 0x205F || u == 0x3000
}

/// The first position at or after `i` holding a non-whitespace character,
/// or the end of the string.
pub open spec fn skip_spaces(s: Seq<char>, i: int) -> int
    decreases s.len() - i,
{
    if i < 0 || i >= s.len() {
        s.len() as int
    } else if is_space_char(s[i]) {
        skip_spaces(s, i + 1)
    } else {
        i
    }
}

/// The first position at or after `i` holding a whitespace character, or
/// the end of the string: the end of the word starting at `i`.
pub open spec fn skip_word(s: Seq<char>, i: int) -> int
    decreases s.len() - i,
{
    if i < 0 || i >= s.len() {
        s.len() as int
    } else if !is_space_char(s[i]) {
        skip_word(s, i + 1)
    } else {
        i
    }
}

/// Scans to the first non-whitespace character at or after `from`.
fn scan_spaces(s: &str, from: usize) -> (r: usize)
    requires
        from <= s@.len(),
    ensures
        r == skip_spaces(s@, from as int),
        from <= r <= s@.len(),
        r < s@.len() ==> !is_space_char(s@[r as int]),
{
    let n = s.unicode_len();
    let mut i: usize = from;
    while i < n
        invariant
            n == s@.len(),
            from <= i <= n,
            skip_spaces(s@, from as int) == skip_spaces(s@, i as int),
        decreases n - i,
    {
        if !check_space(s.get_char(i)) {
            return i;
        }
        i = i + 1;
    }
    i
}

/// Scans to the end of the word starting at `from`.
fn scan_word(s: &str, from: usize) -> (r: usize)
    requires
        from <= s@.len(),
    ensures
        r == skip_word(s@, from as int),
        from <= r <= s@.len(),
{
    let n = s.unicode_len();
    let mut i: usize = from;
    while i < n
        invariant
            n == s@.len(),
            from <= i <= n,
            skip_word(s@, from as int) == skip_word(s@, i as int),
        decreases n - i,
    {
        if check_space(s.get_char(i)) {
            return i;
        }
        i = i + 1;
    }
    i
}

/// Takes the bearer value out of an Authorization header: the second
/// whitespace-separated word, exactly as a whitespace split reads it (the
/// scheme word is not inspected; anything after the second word is
/// ignored).  A header without a second word is unusable.
pub fn bearer_from_header(header: &str) -> (r: Result<crate::auth::BearerToken, FromRequestError>)
    ensures
        ({
            let s1 = skip_spaces(header@, 0);
            let e1 = skip_word(header@, s1);
            let s2 = skip_spaces(header@, e1);
            let e2 = skip_word(header@, s2);
            match r {
                Ok(b) => s2 < e2 && b.token@ == header@.subrange(s2, e2),
                Err(e) => e == FromRequestError::InvalidToken && s2 == e2,
            }
        }),
{
    let s1 = scan_spaces(header, 0);
    let e1 = scan_word(header, s1);
    let s2 = scan_spaces(header, e1);
    let e2 = scan_word(header, s2);
    if s2 == e2 {
        return Err(FromRequestError::InvalidToken);
    }
    let value = header.substring_char(s2, e2);
    Ok(crate::auth::BearerToken { token: value.to_owned() })
}

/// Splits decoded basic credentials at the first colon: the username
/// before it, the password after it; with no colon the whole value is the
/// username and there is no password.
pub fn basic_auth_from_decoded(decoded: &str) -> (auth: crate::auth::BasicAuth)
    ensures
        match auth.password {
            Some(pw) => exists|i: int|
                {
                    &&& 0 <= i < decoded@.len()
                    &&& #[trigger] decoded@[i] == ':'
                    &&& (forall|k: int| 0 <= k < i ==> decoded@[k] != ':')
                    &&& auth.username@ == decoded@.subrange(0, i)
                    &&& pw@ == decoded@.subrange(i + 1, decoded@.len() as int)
                },
            None => auth.username@ == decoded@ && (forall|k: int|
                0 <= k < decoded@.len() ==> decoded@[k] != ':'),
        },
{
    let n = decoded.unicode_len();
    let mut i: usize = 0;
    while i < n
        invariant
            n == decoded@.len(),
            i <= n,
            forall|k: int| 0 <= k < i ==> decoded@[k] != ':',
        decreases n - i,
    {
        if decoded.get_char(i) == ':' {
            let username = decoded.substring_char(0, i);
            let password = decoded.substring_char(i + 1, n);
            return crate::auth::BasicAuth {
                username: username.to_owned(),
                password: Some(password.to_owned()),
            };
        }
        i = i + 1;
    }
    crate::auth::BasicAuth { username: decoded.to_owned(), password: None }
}

} // verus!
