//! Issuing signed access and refresh tokens (HS256).

use vstd::prelude::*;
use vstd::string::*;
use crate::claims::{access_claim_json, access_claim_members, refresh_claim_json, refresh_claim_members, AccessClaim, RefreshClaim};
use crate::json::{flat_object_text, is_flat_object};
use crate::dto::TokenResponse;
use crate::models::UserModel;

verus! {

/// A token could not be signed or checked: the token library's error,
/// carried as its text.
#[derive(Debug, Clone, PartialEq, Eq)]
pub enum JwtError {
    Jwt(String),
}

impl JwtError {
    /// The error's text: `jwt: ` and the library's message.
    pub open spec fn text(&self) -> Seq<char> {
        match self {
            JwtError::Jwt(m) => "jwt: "@ + m@,
        }
    }

    /// The error's text: `jwt: ` and the library's message.
    pub fn to_text(&self) -> (r: String)
        ensures
            r@ == self.text(),
    {
        let JwtError::Jwt(inner) = self;
        let mut out = String::from_str("jwt: ");
        out.append(inner.as_str());
        out
    }
}

/// What signing a claims text under a secret gives: the compact HS256
/// token that `jsonwebtoken::encode` makes of it with the default header,
/// or nothing where encoding fails. Both depend on the two texts alone.
pub uninterp spec fn hs256_token(claims_json: Seq<char>, secret: Seq<char>) -> Option<Seq<char>>;

/// Signs a claims text: `jsonwebtoken::encode` with `Header::default()`
/// (HS256) and `EncodingKey::from_secret` of the secret's bytes, the claims
/// handed over verbatim as a `serde_json::value::RawValue`; a failure comes
/// back as the library error's text.
/// Claimed: the outcome is `hs256_token` of the two arguments: the token
/// where it is `Some`, a failure where it is `None`; and a text that is a
/// JSON object of scalar members is signed. In the source,
/// `RawValue::from_string` fails only on text that is not one JSON value,
/// and `encode` with an HMAC key and the default header fails nowhere else
/// (`crypto::sign` of HS256 returns `Ok`). Not claimed: the error's text.
#[verifier::external_body]
fn sign_hs256(claims_json: String, secret: &str) -> (r: Result<String, String>)
    ensures
        match r {
            Ok(t) => hs256_token(claims_json@, secret@) == Some(t@),
            Err(_) => hs256_token(claims_json@, secret@) is None,
        },
        is_flat_object(claims_json@) ==> r is Ok,
{
    let raw = match serde_json::value::RawValue::from_string(claims_json) {
        Ok(raw) => raw,
        Err(e) => return Err(e.to_string()),
    };
    let key = jsonwebtoken::EncodingKey::from_secret(secret.as_bytes());
    match jsonwebtoken::encode(&jsonwebtoken::Header::default(), &raw, &key) {
        Ok(t) => Ok(t),
        Err(e) => Err(e.to_string()),
    }
}

/// What checking a token's signature under a secret gives: the claims
/// text that `jsonwebtoken::decode` into a `serde_json::value::RawValue`
/// hands back with HS256 and nothing else validated (no claim required,
/// neither expiry nor audience checked), or nothing where it refuses the
/// token. It depends on the two texts alone.
pub uninterp spec fn hs256_payload(token: Seq<char>, secret: Seq<char>) -> Option<Seq<char>>;

/// Whether a text is one of the claims texts this library signs: the
/// JSON of an access claim or of a refresh claim, with an expiry that is a
/// `u64`.
pub open spec fn is_issued_claims_text(c: Seq<char>) -> bool {
    ||| exists|id: u128, name: Seq<char>, role_id: Option<u128>, exp: nat|
        #![trigger access_claim_json(id, name, role_id, exp)]
        exp <= u64::MAX && c == access_claim_json(id, name, role_id, exp)
    ||| exists|sub: Seq<char>, exp: nat|
        #![trigger refresh_claim_json(sub, exp)]
        exp <= u64::MAX && c == refresh_claim_json(sub, exp)
}

/// Whether a text holds at least two dots, as the three parts of a
/// compact token need.
pub open spec fn has_two_dots(t: Seq<char>) -> bool {
    exists|i: int, j: int| 0 <= i < j < t.len() && t[i] == '.' && t[j] == '.'
}

/// Whether validation settings check the signature and nothing else.
pub open spec fn signature_only(required_claims: Seq<String>, validate_exp: bool, validate_aud: bool) -> bool {
    required_claims.len() == 0 && !validate_exp && !validate_aud
}

/// `r` is what reading `token` under `secret` with only the signature
/// checked gives: `hs256_payload` of the two texts; and a token that signs
/// one of this library's claims texts under `secret` gives back that text.
pub open spec fn signature_read(token: Seq<char>, secret: Seq<char>, r: Result<String, String>) -> bool {
    &&& match r {
        Ok(p) => hs256_payload(token, secret) == Some(p@),
        Err(_) => hs256_payload(token, secret) is None,
    }
    &&& forall|c: Seq<char>|
        #![trigger hs256_token(c, secret)]
        hs256_token(c, secret) == Some(token) && is_issued_claims_text(c) ==> (r matches Ok(p) && p@
            == c)
}

/// Reads a token with `jsonwebtoken::decode` into a
/// `serde_json::value::RawValue` under `secret` (`DecodingKey::from_secret`
/// of its bytes), with `Validation::default()` (HS256) given the claims
/// that must be present and whether expiry and audience are checked; gives
/// back the claims text, or the library error's text.
/// Claimed, from the source: a token with fewer than two dots is refused
/// (`expect_two!`); a token that is accepted under any settings has a good
/// signature, so it is accepted when only the signature is checked
/// (`hs256_payload` is `Some`); when only the signature is checked, the
/// outcome is `hs256_payload` of the two texts; and then a token that signs
/// one of this library's claims texts under `secret` is accepted and gives
/// back that very text (HMAC is checked by signing again and comparing,
/// the payload is base64url of the text, a raw value keeps the text of a
/// JSON value, and the claims that validation reads tolerate any value).
/// Not claimed: anything that depends on the clock, and the text of a
/// rejection.
#[verifier::external_body]
fn decode_raw(token: &str, secret: &str, required_claims: &Vec<String>, validate_exp: bool, validate_aud: bool) -> (r: Result<String, String>)
    ensures
        !has_two_dots(token@) ==> r is Err,
        r is Ok ==> hs256_payload(token@, secret@) is Some,
        signature_only(required_claims@, validate_exp, validate_aud) ==> signature_read(token@, secret@, r),
{
    let key = jsonwebtoken::DecodingKey::from_secret(secret.as_bytes());
    let mut validation = jsonwebtoken::Validation::default();
    validation.set_required_spec_claims(required_claims.as_slice());
    validation.validate_exp = validate_exp;
    validation.validate_aud = validate_aud;
    match jsonwebtoken::decode::<Box<serde_json::value::RawValue>>(token, &key, &validation) {
        Ok(data) => Ok(data.claims.get().to_string()),
        Err(e) => Err(e.to_string()),
    }
}

/// `r` is what reading the claims text of `token` under `secret` gives:
/// the text of a token whose signature checks out, or the refusal of one
/// whose does not; a token with fewer than two dots is refused, and a token
/// that signs one of this library's claims texts reads back as it.
pub open spec fn reads_back(token: Seq<char>, secret: Seq<char>, r: Result<String, JwtError>) -> bool {
    &&& match r {
        Ok(p) => hs256_payload(token, secret) == Some(p@),
        Err(_) => hs256_payload(token, secret) is None,
    }
    &&& !has_two_dots(token) ==> r is Err
    &&& forall|c: Seq<char>|
        #![trigger hs256_token(c, secret)]
        hs256_token(c, secret) == Some(token) && is_issued_claims_text(c) ==> (r matches Ok(p) && p@
            == c)
}

/// The claims text of a token whose signature checks out under `secret`.
/// Reading a token goes in three steps, in this order: this one, turning
/// the text into claim values (the caller's), then `check_claims`. A
/// rejected token is `JwtError::Jwt` with the library's message.
pub fn decode_claims_text(token: &str, secret: &str) -> (r: Result<String, JwtError>)
    ensures
        reads_back(token@, secret@, r),
{
    let none: Vec<String> = Vec::new();
    match decode_raw(token, secret, &none, false, false) {
        Ok(p) => Ok(p),
        Err(e) => Err(JwtError::Jwt(e)),
    }
}

/// `r` is what validating `token` under `secret` may give: a token passes
/// only if its signature checks out, and never with fewer than two dots.
pub open spec fn claims_checked(token: Seq<char>, secret: Seq<char>, r: Result<(), JwtError>) -> bool {
    &&& r is Ok ==> hs256_payload(token, secret) is Some
    &&& !has_two_dots(token) ==> r is Err
}

/// The last step of reading a token: its claims pass validation under
/// `secret` with the default settings (HS256 signature, an expiry required
/// and not past with the default leeway, no audience). A rejected token is
/// `JwtError::Jwt` with the library's message. Whether a token that signs
/// under `secret` passes depends on the clock.
pub fn check_claims(token: &str, secret: &str) -> (r: Result<(), JwtError>)
    ensures
        claims_checked(token@, secret@, r),
{
    let mut required: Vec<String> = Vec::new();
    required.push(String::from_str("exp"));
    match decode_raw(token, secret, &required, true, true) {
        Ok(_) => Ok(()),
        Err(e) => Err(JwtError::Jwt(e)),
    }
}

/// The access token text issued to `user` under `secret`, expiring at
/// `exp`, or nothing where signing fails.
pub open spec fn access_token_for(user: UserModel, secret: Seq<char>, exp: nat) -> Option<Seq<char>> {
    hs256_token(access_claim_json(user.id, user.name@, user.role_id, exp), secret)
}

/// The refresh token text issued to `user` under `secret`, expiring at
/// `exp`, or nothing where signing fails.
pub open spec fn refresh_token_for(user: UserModel, secret: Seq<char>, exp: nat) -> Option<Seq<char>> {
    hs256_token(refresh_claim_json(user.name@, exp), secret)
}

/// The expiry written into a token issued at `now` with lifetime `ttl`:
/// their sum, taken as a `usize` (the claim's integer; the same number on
/// a 64-bit target).
pub open spec fn expiry(now: nat, ttl: nat) -> nat {
    ((now + ttl) as usize) as nat
}

/// The tokens issued at `now` with the given lifetimes.
pub open spec fn tokens_issued(
    t: TokenResponse,
    user: UserModel,
    secret: Seq<char>,
    access_ttl_secs: nat,
    refresh_ttl_secs: nat,
    now: nat,
) -> bool {
    &&& access_token_for(user, secret, expiry(now, access_ttl_secs)) == Some(t.access_token@)
    &&& refresh_token_for(user, secret, expiry(now, refresh_ttl_secs)) == Some(t.refresh_token@)
}

impl AccessClaim {
    /// The access claims of `user`, expiring at `exp`.
    pub fn for_user(user: &UserModel, exp: usize) -> (c: AccessClaim)
        ensures
            c.id == user.id,
            c.name@ == user.name@,
            c.role_id == user.role_id,
            c.exp == exp,
    {
        AccessClaim { id: user.id, name: user.name.clone(), role_id: user.role_id, exp }
    }
}

impl RefreshClaim {
    /// The refresh claims of `user` (its name), expiring at `exp`.
    pub fn for_user(user: &UserModel, exp: usize) -> (c: RefreshClaim)
        ensures
            c.sub@ == user.name@,
            c.exp == exp,
    {
        RefreshClaim { sub: user.name.clone(), exp }
    }
}

/// Issues the access and refresh tokens of `user` at time `now_unix`: each
/// expires its lifetime after `now_unix` (the sum taken as a `usize`, as
/// the claim holds it) and is signed with `secret`. The
/// claims texts are JSON objects, which always sign, so it succeeds.
pub fn encode_tokens(
    user: &UserModel,
    secret: &str,
    access_ttl_secs: u64,
    refresh_ttl_secs: u64,
    now_unix: u64,
) -> (r: Result<TokenResponse, JwtError>)
    requires
        now_unix + access_ttl_secs <= u64::MAX,
        now_unix + refresh_ttl_secs <= u64::MAX,
    ensures
        r matches Ok(t) && tokens_issued(
            t,
            *user,
            secret@,
            access_ttl_secs as nat,
            refresh_ttl_secs as nat,
            now_unix as nat,
        ),
{
    let access_exp: u64 = now_unix + access_ttl_secs;
    let refresh_exp: u64 = now_unix + refresh_ttl_secs;
    let access_claim = AccessClaim::for_user(user, access_exp as usize);
    let refresh_claim = RefreshClaim::for_user(user, refresh_exp as usize);
    let access_json = access_claim.to_json();
    let refresh_json = refresh_claim.to_json();
    proof {
        let am = access_claim_members(user.id, user.name@, user.role_id, expiry(now_unix as nat, access_ttl_secs as nat));
        let rm = refresh_claim_members(user.name@, expiry(now_unix as nat, refresh_ttl_secs as nat));
        assert(access_json@ == flat_object_text(am));
        assert(refresh_json@ == flat_object_text(rm));
    }
    let access_signed = sign_hs256(access_json, secret);
    let refresh_signed = sign_hs256(refresh_json, secret);
    pair_tokens(access_signed, refresh_signed)
}

/// Puts two signing results together: the first failure, in the order
/// access then refresh, or both tokens.
pub fn pair_tokens(access: Result<String, String>, refresh: Result<String, String>) -> (r: Result<TokenResponse, JwtError>)
    ensures
        match (access, refresh) {
            (Ok(a), Ok(f)) => r == Ok::<TokenResponse, JwtError>(
                TokenResponse { access_token: a, refresh_token: f },
            ),
            (Err(e), _) => r == Err::<TokenResponse, JwtError>(JwtError::Jwt(e)),
            (Ok(_), Err(e)) => r == Err::<TokenResponse, JwtError>(JwtError::Jwt(e)),
        },
{
    match access {
        Err(e) => Err(JwtError::Jwt(e)),
        Ok(a) => match refresh {
            Err(e) => Err(JwtError::Jwt(e)),
            Ok(f) => Ok(TokenResponse { access_token: a, refresh_token: f }),
        },
    }
}

#[verifier::external_type_specification]
#[verifier::external_body]
pub struct ExSystemTime(std::time::SystemTime);

#[verifier::external_type_specification]
#[verifier::external_body]
pub struct ExSystemTimeError(std::time::SystemTimeError);

/// The system clock's reading (`SystemTime::now`). Nothing is claimed of
/// it: it is the time.
#[verifier::external_body]
fn system_now() -> std::time::SystemTime {
    std::time::SystemTime::now()
}

/// How long after the Unix epoch `t` is (`SystemTime::duration_since`
/// with `UNIX_EPOCH`); an error for a time before the epoch. Nothing is
/// claimed of the result.
#[verifier::external_body]
fn since_unix_epoch(t: &std::time::SystemTime) -> Result<std::time::Duration, std::time::SystemTimeError> {
    t.duration_since(std::time::UNIX_EPOCH)
}

/// The whole seconds of a duration (`Duration::as_secs`). Nothing is
/// claimed: the duration is opaque here.
#[verifier::external_body]
fn whole_secs(d: &std::time::Duration) -> u64 {
    d.as_secs()
}

/// The clock reading in whole seconds, or 0 for a clock before the epoch.
pub fn secs_or_zero(since_epoch: Option<u64>) -> (r: u64)
    ensures
        r == match since_epoch {
            Some(s) => s,
            None => 0,
        },
{
    match since_epoch {
        Some(s) => s,
        None => 0,
    }
}

/// The current Unix time in seconds (0 if the clock reads before the epoch).
pub fn now_unix_secs() -> (r: u64) {
    let since_epoch = match since_unix_epoch(&system_now()) {
        Ok(d) => Some(whole_secs(&d)),
        Err(_) => None,
    };
    secs_or_zero(since_epoch)
}

} // verus!
