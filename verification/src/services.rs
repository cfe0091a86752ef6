//! The service operations, as decisions between the store's answers.
//!
//! The user store is reached by the caller: each operation here takes the
//! store's answer to the previous request and either finishes or says what
//! to write next.

use vstd::prelude::*;
use vstd::string::*;
use crate::dto::{ChangePasswordDto, LoginData, TokenResponse};
use crate::error::{DbError, ServiceError};
use crate::jwt::{encode_tokens, now_unix_secs, tokens_issued, JwtError};
use crate::claims::RefreshClaim;
use crate::models::{CreateUserDto, CreateUserEntity, UserModel};
use crate::password::{argon2_accepts, hash_password, hashable, is_default_hash, password_error_text, verify_password};

verus! {

/// Whether `password` is the password of the stored `user`.
pub open spec fn password_matches(user: UserModel, password: Seq<char>) -> bool {
    argon2_accepts(user.password_hash@, password)
}

/// The message of a login whose user is not in the store.
pub open spec fn user_not_found() -> Seq<char> {
    "User not found"@
}

/// The message of a login whose password is wrong.
pub open spec fn invalid_login() -> Seq<char> {
    "Invalid login data"@
}

/// The message of a password change whose current password is wrong.
pub open spec fn invalid_old_password() -> Seq<char> {
    "Invalid old password"@
}

/// The message of a token whose expiry, the clock reading plus a
/// lifetime, overflows a `u64`.
pub open spec fn expiry_out_of_range() -> Seq<char> {
    "token expiry out of range"@
}

/// Issues tokens: the service's secret and token lifetimes.
#[derive(Debug, Clone)]
pub struct AuthService {
    pub jwt_secret: String,
    pub access_ttl_secs: u64,
    pub refresh_ttl_secs: u64,
}

impl AuthService {
    /// Whether both expiries of tokens issued at `now` fit a `u64`.
    pub open spec fn expiries_fit(&self, now: nat) -> bool {
        &&& now + self.access_ttl_secs <= u64::MAX
        &&& now + self.refresh_ttl_secs <= u64::MAX
    }

    /// `r` is what issuing tokens to `user` at some clock reading gives:
    /// the tokens of a reading at which both expiries fit, or the expiry
    /// error of a reading at which one does not.
    pub open spec fn issued(&self, user: UserModel, r: Result<TokenResponse, ServiceError>) -> bool {
        match r {
            Ok(t) => exists|now: nat|
                #![trigger tokens_issued(t, user, self.jwt_secret@, self.access_ttl_secs as nat, self.refresh_ttl_secs as nat, now)]
                now <= u64::MAX && self.expiries_fit(now) && tokens_issued(
                    t,
                    user,
                    self.jwt_secret@,
                    self.access_ttl_secs as nat,
                    self.refresh_ttl_secs as nat,
                    now,
                ),
            Err(e) => e matches ServiceError::Internal(m) && m@ == expiry_out_of_range() && exists|now: nat|
                #![trigger self.expiries_fit(now)]
                now <= u64::MAX && !self.expiries_fit(now),
        }
    }

    /// The tokens of `user` issued at `now`; an internal error if an expiry
    /// does not fit.
    pub fn tokens_at(&self, user: &UserModel, now: u64) -> (r: Result<TokenResponse, ServiceError>)
        ensures
            self.expiries_fit(now as nat) ==> (r matches Ok(t) && tokens_issued(
                t,
                *user,
                self.jwt_secret@,
                self.access_ttl_secs as nat,
                self.refresh_ttl_secs as nat,
                now as nat,
            )),
            !self.expiries_fit(now as nat) ==> (r matches Err(ServiceError::Internal(m)) && m@
                == expiry_out_of_range()),
    {
        if now.checked_add(self.access_ttl_secs).is_none() || now.checked_add(self.refresh_ttl_secs).is_none() {
            return Err(ServiceError::Internal(String::from_str("token expiry out of range")));
        }
        match encode_tokens(user, self.jwt_secret.as_str(), self.access_ttl_secs, self.refresh_ttl_secs, now) {
            Ok(t) => Ok(t),
            Err(e) => Err(ServiceError::Internal(e.to_text())),
        }
    }

    /// The tokens of `user`, issued now.
    pub fn tokens_for(&self, user: &UserModel) -> (r: Result<TokenResponse, ServiceError>)
        ensures
            self.issued(*user, r),
    {
        let now = now_unix_secs();
        let r = self.tokens_at(user, now);
        proof {
            if r is Ok {
                let t = r->Ok_0;
                assert(tokens_issued(
                    t,
                    *user,
                    self.jwt_secret@,
                    self.access_ttl_secs as nat,
                    self.refresh_ttl_secs as nat,
                    now as nat,
                ));
            } else {
                assert(!self.expiries_fit(now as nat));
            }
        }
        r
    }

    /// Registration, first half: the row to insert for `new_user`, its
    /// password hashed; an internal error if hashing fails.
    pub fn register(&self, new_user: CreateUserDto) -> (r: Result<CreateUserEntity, ServiceError>)
        ensures
            r is Ok <==> hashable(new_user.password@),
            r matches Ok(e) ==> e.name == new_user.name && e.role_id == new_user.role_id
                && argon2_accepts(e.password_hash@, new_user.password@) && is_default_hash(
                e.password_hash@,
            ),
            r is Err ==> r->Err_0 is Internal,
    {
        match hash_password(new_user.password.as_str()) {
            Err(e) => Err(ServiceError::from_password_hash(password_error_text(&e))),
            Ok(h) => Ok(CreateUserEntity { password_hash: h, name: new_user.name, role_id: new_user.role_id }),
        }
    }

    /// Registration and refresh, second half: tokens for the user the
    /// store gave back, or the store's failure.
    pub fn tokens_for_stored(&self, stored: core::result::Result<UserModel, DbError>) -> (r: Result<TokenResponse, ServiceError>)
        ensures
            match stored {
                Err(d) => r matches Err(e) && e.is_from_db(d),
                Ok(u) => self.issued(u, r),
            },
    {
        match stored {
            Err(d) => Err(ServiceError::from_db(d)),
            Ok(u) => self.tokens_for(&u),
        }
    }

    /// `r` is what logging in as `login` gives when the store answered the
    /// lookup of its name with `found`.
    pub open spec fn login_outcome(
        &self,
        found: core::result::Result<UserModel, DbError>,
        login: LoginData,
        r: Result<TokenResponse, ServiceError>,
    ) -> bool {
        match found {
            Err(_) => r matches Err(ServiceError::NotFound(m)) && m@ == user_not_found(),
            Ok(u) => if !password_matches(u, login.password@) {
                r matches Err(ServiceError::Unauthorized(m)) && m@ == invalid_login()
            } else {
                self.issued(u, r)
            },
        }
    }

    /// Login: `found` is the store's answer to the lookup of the login's
    /// name. A missing user is `NotFound`, a wrong password `Unauthorized`,
    /// otherwise the user's tokens.
    pub fn login(&self, found: core::result::Result<UserModel, DbError>, login: LoginData) -> (r: Result<TokenResponse, ServiceError>)
        ensures
            self.login_outcome(found, login, r),
    {
        let user = match found {
            Err(_) => return Err(ServiceError::NotFound(String::from_str("User not found"))),
            Ok(u) => u,
        };
        match verify_password(user.password_hash.as_str(), login.password.as_str()) {
            Err(_) => Err(ServiceError::Unauthorized(String::from_str("Invalid login data"))),
            Ok(()) => self.tokens_for(&user),
        }
    }

    /// Refresh, first half: the name to look up, read from the refresh
    /// token's claims as the caller decoded them; a token that did not
    /// decode is `Unauthorized` with the token error's text.
    pub fn refresh(&self, decoded: core::result::Result<RefreshClaim, JwtError>) -> (r: Result<String, ServiceError>)
        ensures
            match decoded {
                Ok(c) => r == Ok::<String, ServiceError>(c.sub),
                Err(e) => r matches Err(ServiceError::Unauthorized(m)) && m@ == e.text(),
            },
    {
        match decoded {
            Ok(c) => Ok(c.sub),
            Err(e) => Err(ServiceError::from_jwt(e)),
        }
    }

    /// `r` is what a password change gives when the store answered the
    /// lookup of the user with `found`: on success, the hash to store.
    pub open spec fn change_password_outcome(
        found: core::result::Result<UserModel, DbError>,
        data: ChangePasswordDto,
        r: Result<String, ServiceError>,
    ) -> bool {
        match found {
            Err(d) => r matches Err(e) && e.is_from_db(d),
            Ok(u) => if !password_matches(u, data.old_password@) {
                r matches Err(ServiceError::Unauthorized(m)) && m@ == invalid_old_password()
            } else {
                &&& (r is Ok <==> hashable(data.new_password@))
                &&& match r {
                    Ok(h) => argon2_accepts(h@, data.new_password@) && is_default_hash(h@),
                    Err(e) => e is Internal,
                }
            },
        }
    }

    /// Password change, first half: checks the current password of the
    /// user the store found and hashes the new one, which the caller then
    /// stores.
    pub fn change_password(&self, found: core::result::Result<UserModel, DbError>, data: ChangePasswordDto) -> (r: Result<String, ServiceError>)
        ensures
            Self::change_password_outcome(found, data, r),
    {
        let user = match found {
            Err(d) => return Err(ServiceError::from_db(d)),
            Ok(u) => u,
        };
        if verify_password(user.password_hash.as_str(), data.old_password.as_str()).is_err() {
            return Err(ServiceError::Unauthorized(String::from_str("Invalid old password")));
        }
        match hash_password(data.new_password.as_str()) {
            Err(e) => Err(ServiceError::from_password_hash(password_error_text(&e))),
            Ok(h) => Ok(h),
        }
    }

    /// Password change, second half: the store's answer to writing the new
    /// hash.
    pub fn password_stored(stored: core::result::Result<UserModel, DbError>) -> (r: Result<(), ServiceError>)
        ensures
            match stored {
                Ok(_) => r is Ok,
                Err(d) => r matches Err(e) && e.is_from_db(d),
            },
    {
        match stored {
            Ok(_) => Ok(()),
            Err(d) => Err(ServiceError::from_db(d)),
        }
    }
}

} // verus!
