use vstd::prelude::*;
use crate::error::{ApiError, DbFailure};

verus! {

/// The claims that a signed token carries: the user id as subject, the
/// expiry in seconds since the epoch, and the user's profile fields.
pub struct JsonWebTokenClaims {
    pub sub: i32,
    pub exp: usize,
    pub name: String,
    pub email: String,
}

/// A request whose bearer token was verified.
pub struct AuthenticatedUser(pub JsonWebTokenClaims);

/// A request whose user holds the administrator role.
pub struct AdminGuard(pub JsonWebTokenClaims);

/// The role that guards administrative routes.
pub const ADMIN_ROLE: &'static str = "ADMIN";

pub open spec fn bearer_prefix() -> Seq<char> {
    seq!['B', 'e', 'a', 'r', 'e', 'r', ' ']
}

pub open spec fn has_prefix(s: Seq<char>, p: Seq<char>) -> bool {
    p.len() <= s.len() && s.subrange(0, p.len() as int) == p
}

/// Every leading copy of the bearer prefix removed.
pub open spec fn strip_bearer(s: Seq<char>) -> Seq<char>
    decreases s.len(),
{
    if s.len() >= 7 && has_prefix(s, bearer_prefix()) {
        strip_bearer(s.subrange(7, s.len() as int))
    } else {
        s
    }
}

/// Unicode's White_Space property, which `str::trim` goes by.
pub open spec fn is_white(c: char) -> bool {
    ('\u{9}' <= c && c <= '\u{d}') || c == ' ' || c == '\u{85}' || c == '\u{a0}'
        || c == '\u{1680}' || ('\u{2000}' <= c && c <= '\u{200a}') || c == '\u{2028}'
        || c == '\u{2029}' || c == '\u{202f}' || c == '\u{205f}' || c == '\u{3000}'
}

pub open spec fn trim_start(s: Seq<char>) -> Seq<char>
    decreases s.len(),
{
    if s.len() > 0 && is_white(s[0]) {
        trim_start(s.drop_first())
    } else {
        s
    }
}

pub open spec fn trim_end(s: Seq<char>) -> Seq<char>
    decreases s.len(),
{
    if s.len() > 0 && is_white(s.last()) {
        trim_end(s.drop_last())
    } else {
        s
    }
}

/// What the credential verifier makes of an Authorization header: the token
/// that follows the bearer prefix, without surrounding white space.
pub open spec fn bearer_token_spec(header: Option<Seq<char>>) -> Result<Seq<char>, ApiError> {
    match header {
        None => Err(ApiError::Unauthorized),
        Some(h) => if has_prefix(h, bearer_prefix()) {
            Ok(trim_end(trim_start(strip_bearer(h))))
        } else {
            Err(ApiError::Unauthorized)
        },
    }
}

pub open spec fn authenticated_spec(decoded: Option<JsonWebTokenClaims>) -> Result<
    JsonWebTokenClaims,
    ApiError,
> {
    match decoded {
        Some(c) => Ok(c),
        None => Err(ApiError::Unauthorized),
    }
}

/// The guard's outcome: a failed verification passes through; a verified
/// user proceeds only where the role check found the role.
pub open spec fn admin_outcome(
    auth: Result<JsonWebTokenClaims, ApiError>,
    role: Result<Option<bool>, DbFailure>,
) -> Result<JsonWebTokenClaims, ApiError> {
    match auth {
        Err(e) => Err(e),
        Ok(c) => if role == Ok::<Option<bool>, DbFailure>(Some(true)) {
            Ok(c)
        } else {
            Err(ApiError::Forbidden)
        },
    }
}

fn is_white_char(c: char) -> (r: bool)
    ensures
        r == is_white(c),
{
    ('\u{9}' <= c && c <= '\u{d}') || c == ' ' || c == '\u{85}' || c == '\u{a0}'
        || c == '\u{1680}' || ('\u{2000}' <= c && c <= '\u{200a}') || c == '\u{2028}'
        || c == '\u{2029}' || c == '\u{202f}' || c == '\u{205f}' || c == '\u{3000}'
}

/// Whether the characters of `s` from `pos` on begin with the bearer prefix.
fn bearer_at(s: &str, pos: usize, len: usize) -> (r: bool)
    requires
        len == s@.len(),
        pos <= len,
    ensures
        r == has_prefix(s@.subrange(pos as int, len as int), bearer_prefix()),
{
    let ghost rest = s@.subrange(pos as int, len as int);
    if len - pos < 7 {
        return false;
    }
    let word: [char; 7] = ['B', 'e', 'a', 'r', 'e', 'r', ' '];
    let mut k: usize = 0;
    while k < 7
        invariant
            0 <= k <= 7,
            pos + 7 <= len,
            len == s@.len(),
            rest == s@.subrange(pos as int, len as int),
            word@ == bearer_prefix(),
            forall|j: int| 0 <= j < k ==> rest[j] == bearer_prefix()[j],
        decreases 7 - k,
    {
        if s.get_char(pos + k) != word[k] {
            assert(rest.subrange(0, 7)[k as int] != bearer_prefix()[k as int]);
            return false;
        }
        k = k + 1;
    }
    assert(rest.subrange(0, 7) =~= bearer_prefix());
    true
}

/// Extracts the token from an Authorization header. Fails with Unauthorized
/// where the header is missing or does not start with "Bearer ".
pub fn bearer_token(header: Option<&str>) -> (r: Result<String, ApiError>)
    ensures
        match (header, r) {
            (None, Err(e)) => e == ApiError::Unauthorized,
            (Some(h), Ok(t)) => bearer_token_spec(Some(h@)) == Ok::<Seq<char>, ApiError>(t@),
            (Some(h), Err(e)) => bearer_token_spec(Some(h@)) == Err::<Seq<char>, ApiError>(e),
            _ => false,
        },
{
    let h = match header {
        None => return Err(ApiError::Unauthorized),
        Some(h) => h,
    };
    let len = h.unicode_len();
    if !bearer_at(h, 0, len) {
        assert(h@.subrange(0, len as int) =~= h@);
        return Err(ApiError::Unauthorized);
    }
    assert(h@.subrange(0, len as int) =~= h@);
    let mut pos: usize = 0;
    while bearer_at(h, pos, len)
        invariant
            len == h@.len(),
            pos <= len,
            strip_bearer(h@) == strip_bearer(h@.subrange(pos as int, len as int)),
        decreases len - pos,
    {
        proof {
            let rest = h@.subrange(pos as int, len as int);
            assert(rest.subrange(7, rest.len() as int) =~= h@.subrange(pos + 7, len as int));
        }
        pos = pos + 7;
    }
    let ghost stripped = h@.subrange(pos as int, len as int);
    assert(strip_bearer(h@) == stripped);
    let mut a: usize = pos;
    while a < len && is_white_char(h.get_char(a))
        invariant
            len == h@.len(),
            pos <= a <= len,
            trim_start(stripped) == trim_start(h@.subrange(a as int, len as int)),
        decreases len - a,
    {
        proof {
            let rest = h@.subrange(a as int, len as int);
            assert(rest.drop_first() =~= h@.subrange(a + 1, len as int));
        }
        a = a + 1;
    }
    assert(trim_start(stripped) == h@.subrange(a as int, len as int));
    let mut b: usize = len;
    while b > a && is_white_char(h.get_char(b - 1))
        invariant
            len == h@.len(),
            a <= b <= len,
            trim_end(trim_start(stripped)) == trim_end(h@.subrange(a as int, b as int)),
        decreases b,
    {
        proof {
            let rest = h@.subrange(a as int, b as int);
            assert(rest.drop_last() =~= h@.subrange(a as int, b - 1));
        }
        b = b - 1;
    }
    let token = h.substring_char(a, b);
    Ok(String::from_str(token))
}

/// The outcome of verifying a token: the decoded claims, or None where the
/// signature or the expiry did not hold.
pub fn authenticated(decoded: Option<JsonWebTokenClaims>) -> (r: Result<AuthenticatedUser, ApiError>)
    ensures
        match r {
            Ok(u) => authenticated_spec(decoded) == Ok::<JsonWebTokenClaims, ApiError>(u.0),
            Err(e) => authenticated_spec(decoded) == Err::<JsonWebTokenClaims, ApiError>(e),
        },
{
    match decoded {
        Some(c) => Ok(AuthenticatedUser(c)),
        None => Err(ApiError::Unauthorized),
    }
}

/// Admits a verified user where the role check for ADMIN_ROLE found the role.
/// A failed role query counts as not holding it.
pub fn admin_guard(user: AuthenticatedUser, role: Result<Option<bool>, DbFailure>) -> (r: Result<
    AdminGuard,
    ApiError,
>)
    ensures
        match r {
            Ok(g) => admin_outcome(Ok(user.0), role) == Ok::<JsonWebTokenClaims, ApiError>(g.0),
            Err(e) => admin_outcome(Ok(user.0), role) == Err::<JsonWebTokenClaims, ApiError>(e),
        },
{
    match role {
        Ok(Some(true)) => Ok(AdminGuard(user.0)),
        _ => Err(ApiError::Forbidden),
    }
}

/// Guarded routes: a request without a bearer token is Unauthorized; a valid
/// token of a user without the role is Forbidden; a valid token of a user
/// with the role proceeds with its claims.
pub proof fn lemma_admin_guard(header: Option<Seq<char>>, claims: JsonWebTokenClaims, is_admin: bool)
    ensures
        bearer_token_spec(None) == Err::<Seq<char>, ApiError>(ApiError::Unauthorized),
        header matches Some(h) && !has_prefix(h, bearer_prefix())
            ==> bearer_token_spec(header) == Err::<Seq<char>, ApiError>(ApiError::Unauthorized),
        admin_outcome(authenticated_spec(None), Ok(Some(is_admin)))
            == Err::<JsonWebTokenClaims, ApiError>(ApiError::Unauthorized),
        !is_admin ==> admin_outcome(authenticated_spec(Some(claims)), Ok(Some(is_admin)))
            == Err::<JsonWebTokenClaims, ApiError>(ApiError::Forbidden),
        is_admin ==> admin_outcome(authenticated_spec(Some(claims)), Ok(Some(is_admin)))
            == Ok::<JsonWebTokenClaims, ApiError>(claims),
{
}

} // verus!
