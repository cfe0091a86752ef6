//! Who a request comes from: the bearer token of its `Authorization`
//! header, the user its access claims name, and whether that user may act
//! as an administrator.

use vstd::prelude::*;
use vstd::string::*;
use crate::claims::AccessClaim;
use crate::error::AppError;
use crate::jwt::JwtError;
use crate::text::{trim, trimmed};

verus! {

/// The scheme prefix of a bearer credential.
pub open spec fn bearer_prefix() -> Seq<char> {
    "Bearer "@
}

/// The message of a request without an `Authorization` header (or with
/// one that is not visible ASCII).
pub open spec fn missing_header() -> Seq<char> {
    "Missing Authorization header"@
}

/// The message of an `Authorization` header of another scheme.
pub open spec fn not_bearer() -> Seq<char> {
    "Authorization must be a Bearer token"@
}

/// The message of an authenticated user without a role.
pub open spec fn admin_required() -> Seq<char> {
    "Admin role required"@
}

/// Whether `h` starts with the bearer prefix.
pub open spec fn is_bearer(h: Seq<char>) -> bool {
    h.len() >= 7 && h.subrange(0, 7) == bearer_prefix()
}

/// The token of a bearer header: what follows the prefix, trimmed.
pub open spec fn bearer_token_of(h: Seq<char>) -> Seq<char> {
    trimmed(h.subrange(7, h.len() as int))
}

/// The token of the `Authorization` header `header` (absent when the
/// request has none, or one that is not visible ASCII): the text after
/// `Bearer `, trimmed.
pub fn bearer_token(header: Option<&str>) -> (r: Result<String, AppError>)
    ensures
        match header {
            None => r matches Err(AppError::Unauthorized(m)) && m@ == missing_header(),
            Some(h) => if is_bearer(h@) {
                r matches Ok(t) && t@ == bearer_token_of(h@)
            } else {
                r matches Err(AppError::Unauthorized(m)) && m@ == not_bearer()
            },
        },
{
    let h = match header {
        None => return Err(AppError::Unauthorized(String::from_str("Missing Authorization header"))),
        Some(h) => h,
    };
    let n = h.unicode_len();
    let prefix = "Bearer ";
    proof {
        reveal_strlit("Bearer ");
    }
    if n < 7 {
        return Err(AppError::Unauthorized(String::from_str("Authorization must be a Bearer token")));
    }
    let mut i: usize = 0;
    while i < 7
        invariant
            header == Some(h),
            n == h@.len(),
            n >= 7,
            i <= 7,
            prefix@ == bearer_prefix(),
            prefix@.len() == 7,
            h@.subrange(0, i as int) == prefix@.subrange(0, i as int),
        decreases 7 - i,
    {
        if h.get_char(i) != prefix.get_char(i) {
            proof {
                assert(h@.subrange(0, 7)[i as int] != bearer_prefix()[i as int]);
            }
            return Err(AppError::Unauthorized(String::from_str("Authorization must be a Bearer token")));
        }
        proof {
            assert(h@.subrange(0, i + 1) =~= h@.subrange(0, i as int).push(h@[i as int]));
            assert(prefix@.subrange(0, i + 1) =~= prefix@.subrange(0, i as int).push(prefix@[i as int]));
        }
        i = i + 1;
    }
    assert(prefix@.subrange(0, 7) =~= prefix@);
    Ok(trim(h.substring_char(7, n)))
}

/// An authenticated user: the identifier and the claims of its access
/// token.
#[derive(Debug, Clone)]
pub struct AuthUser {
    pub user_id: u128,
    pub claim: AccessClaim,
}

/// An authenticated user who has a role.
#[derive(Debug, Clone)]
pub struct AdminUser(pub AuthUser);

impl AuthUser {
    /// The user of a request whose access token decoded to `decoded`; a
    /// token that did not decode is `Unauthorized` with its error's text.
    pub fn from_claim(decoded: core::result::Result<AccessClaim, JwtError>) -> (r: Result<AuthUser, AppError>)
        ensures
            match decoded {
                Ok(c) => r matches Ok(u) && u.user_id == c.id && u.claim == c,
                Err(e) => r matches Err(AppError::Unauthorized(m)) && m@ == e.text(),
            },
    {
        match decoded {
            Ok(c) => Ok(AuthUser { user_id: c.id, claim: c }),
            Err(e) => Err(AppError::Unauthorized(e.to_text())),
        }
    }
}

impl AdminUser {
    /// The administrator among authenticated users: one whose claims carry
    /// a role; others are `Forbidden`.
    pub fn from_user(user: AuthUser) -> (r: Result<AdminUser, AppError>)
        ensures
            user.claim.role_id is Some ==> r == Ok::<AdminUser, AppError>(AdminUser(user)),
            user.claim.role_id is None ==> (r matches Err(AppError::Forbidden(m)) && m@
                == admin_required()),
    {
        if user.claim.role_id.is_none() {
            return Err(AppError::Forbidden(String::from_str("Admin role required")));
        }
        Ok(AdminUser(user))
    }
}

} // verus!
