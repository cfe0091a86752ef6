//! Settings read from the environment: defaults, flags, and the checks
//! that refuse a configuration.

use vstd::prelude::*;
use vstd::string::*;
use crate::json::{decimal, push_decimal};
use crate::text::equals;

verus! {

/// Whether `c` is an ASCII decimal digit.
pub open spec fn is_digit(c: char) -> bool {
    '0' <= c <= '9'
}

/// The value of a string of decimal digits.
pub open spec fn digits_value(s: Seq<char>) -> int
    decreases s.len(),
{
    if s.len() == 0 {
        0
    } else {
        digits_value(s.drop_last()) * 10 + (s.last() as int - '0' as int)
    }
}

/// The digits of an unsigned number: the text without an optional
/// leading `+`.
pub open spec fn unsigned_digits(s: Seq<char>) -> Seq<char> {
    if s.len() > 0 && s[0] == '+' {
        s.drop_first()
    } else {
        s
    }
}

/// What `u64::from_str` gives: the value of one or more decimal digits,
/// after an optional `+`, if it fits.
pub open spec fn parse_u64_spec(s: Seq<char>) -> Option<u64> {
    let d = unsigned_digits(s);
    if d.len() > 0 && (forall|i: int| 0 <= i < d.len() ==> is_digit(#[trigger] d[i]))
        && digits_value(d) <= u64::MAX {
        Some(digits_value(d) as u64)
    } else {
        None
    }
}

proof fn lemma_digits_value_step(s: Seq<char>, k: int)
    requires
        0 <= k < s.len(),
    ensures
        digits_value(s.subrange(0, k + 1)) == digits_value(s.subrange(0, k)) * 10 + (s[k] as int
            - '0' as int),
{
    assert(s.subrange(0, k + 1).drop_last() =~= s.subrange(0, k));
}

proof fn lemma_digits_value_monotone(s: Seq<char>, k: int)
    requires
        0 <= k <= s.len(),
        forall|i: int| 0 <= i < s.len() ==> is_digit(#[trigger] s[i]),
    ensures
        0 <= digits_value(s.subrange(0, k)) <= digits_value(s),
    decreases s.len() - k,
{
    if k < s.len() {
        lemma_digits_value_monotone(s, k + 1);
        lemma_digits_value_step(s, k);
        assert(is_digit(s[k]));
        assert(digits_value(s.subrange(0, k + 1)) >= 0);
        lemma_digits_value_nonneg(s.subrange(0, k));
    } else {
        lemma_digits_value_nonneg(s);
        assert(s.subrange(0, k) =~= s);
    }
}

proof fn lemma_digits_value_nonneg(s: Seq<char>)
    requires
        forall|i: int| 0 <= i < s.len() ==> is_digit(#[trigger] s[i]),
    ensures
        digits_value(s) >= 0,
    decreases s.len(),
{
    if s.len() > 0 {
        let t = s.drop_last();
        assert forall|i: int| 0 <= i < t.len() implies is_digit(#[trigger] t[i]) by {
            assert(t[i] == s[i]);
        }
        lemma_digits_value_nonneg(t);
        assert(is_digit(s[s.len() - 1]));
    }
}

/// `u64::from_str`: the value of one or more decimal digits after an
/// optional `+`, or nothing if the text is not that or does not fit.
pub fn parse_u64(s: &str) -> (r: Option<u64>)
    ensures
        r == parse_u64_spec(s@),
{
    let n = s.unicode_len();
    let start: usize = if n > 0 && s.get_char(0) == '+' {
        1
    } else {
        0
    };
    let ghost d = unsigned_digits(s@);
    assert(d =~= s@.subrange(start as int, n as int));
    if start == n {
        return None;
    }
    let mut value: u64 = 0;
    let mut i: usize = start;
    while i < n
        invariant
            n == s@.len(),
            start <= i <= n,
            d == s@.subrange(start as int, n as int),
            d == unsigned_digits(s@),
            forall|k: int| 0 <= k < i - start ==> is_digit(#[trigger] d[k]),
            value == digits_value(d.subrange(0, i - start)),
        decreases n - i,
    {
        let c = s.get_char(i);
        proof {
            lemma_digits_value_step(d, i - start);
        }
        if c < '0' || c > '9' {
            assert(!is_digit(d[i - start]));
            return None;
        }
        let digit = (c as u32 - '0' as u32) as u64;
        if value > (u64::MAX - digit) / 10 {
            proof {
                assert(value * 10 + digit > u64::MAX) by (nonlinear_arith)
                    requires
                        value > (u64::MAX - digit) / 10,
                        digit <= 9,
                ;
                if forall|k: int| 0 <= k < d.len() ==> is_digit(#[trigger] d[k]) {
                    lemma_digits_value_monotone(d, i - start + 1);
                }
            }
            return None;
        }
        assert(value * 10 + digit <= u64::MAX) by (nonlinear_arith)
            requires
                value <= (u64::MAX - digit) / 10,
                digit <= 9,
        ;
        value = value * 10 + digit;
        i = i + 1;
    }
    assert(d.subrange(0, n - start) =~= d);
    Some(value)
}

/// The access token lifetime when none is configured: 15 minutes.
pub const DEFAULT_ACCESS_TTL_SECS: u64 = 900;

/// The refresh token lifetime when none is configured: 30 days.
pub const DEFAULT_REFRESH_TTL_SECS: u64 = 2592000;

/// The fewest bytes a token secret may have.
pub const MIN_JWT_SECRET_BYTES: usize = 32;

/// A lifetime setting: the number it holds, or `default` when it is absent
/// or not a number.
pub fn ttl_setting(raw: Option<&str>, default: u64) -> (r: u64)
    ensures
        r == match raw {
            Some(v) => match parse_u64_spec(v@) {
                Some(n) => n,
                None => default,
            },
            None => default,
        },
{
    match raw {
        Some(v) => match parse_u64(v) {
            Some(n) => n,
            None => default,
        },
        None => default,
    }
}

/// Whether a flag's text turns it off: `0`, `false`, `no` or empty.
pub open spec fn is_off_text(v: Seq<char>) -> bool {
    v == "0"@ || v == "false"@ || v == "no"@ || v == ""@
}

/// The migrations flag: on unless set to `0`, `false`, `no` or empty.
pub fn run_migrations_setting(raw: Option<&str>) -> (r: bool)
    ensures
        r == match raw {
            Some(v) => !is_off_text(v@),
            None => true,
        },
{
    match raw {
        Some(v) => !(equals(v, "0") || equals(v, "false") || equals(v, "no") || equals(v, "")),
        None => true,
    }
}

/// The address the service listens on when none is configured.
pub open spec fn default_bind_addr() -> Seq<char> {
    "0.0.0.0:8000"@
}

/// The text of the address to listen on: the configured one, or the
/// default.
pub open spec fn bind_addr_text_spec(raw: Option<Seq<char>>) -> Seq<char> {
    match raw {
        Some(v) => v,
        None => default_bind_addr(),
    }
}

/// The text of the address to listen on: `raw` where it is set, otherwise
/// `0.0.0.0:8000`. Reading it as a socket address is the caller's.
pub fn bind_addr_text(raw: Option<&str>) -> (r: String)
    ensures
        r@ == bind_addr_text_spec(
            match raw {
                Some(v) => Some(v@),
                None => None,
            },
        ),
{
    match raw {
        Some(v) => v.to_string(),
        None => String::from_str("0.0.0.0:8000"),
    }
}

/// The settings the service runs with.
#[derive(Debug, Clone)]
pub struct Settings {
    pub bind_addr: String,
    pub database_url: String,
    pub jwt_secret: String,
    pub access_ttl_secs: u64,
    pub refresh_ttl_secs: u64,
    pub run_migrations: bool,
    pub initial_admin_password: Option<String>,
}

/// The raw values of the environment variables the settings come from,
/// absent where a variable is not set (or not Unicode).
#[derive(Debug, Clone)]
pub struct EnvValues {
    pub bind_addr: Option<String>,
    pub database_url: Option<String>,
    pub jwt_secret: Option<String>,
    pub jwt_access_ttl: Option<String>,
    pub jwt_refresh_ttl: Option<String>,
    pub run_migrations: Option<String>,
    pub initial_admin_password: Option<String>,
}

/// The refusal of a missing database address.
pub open spec fn database_url_missing() -> Seq<char> {
    "DATABASE_URL must be set"@
}

/// The refusal of a missing token secret.
pub open spec fn jwt_secret_missing() -> Seq<char> {
    "JWT_SECRET must be set"@
}

/// The refusal of a token secret of `len` bytes.
pub open spec fn jwt_secret_too_short(len: nat) -> Seq<char> {
    "JWT_SECRET must be at least 32 chars; got "@ + decimal(len)
}

/// The number of bytes of `s` in UTF-8, as `str::len` reports it.
pub open spec fn byte_len(s: Seq<char>) -> nat {
    (vstd::utf8::encode_utf8(s).len() as usize) as nat
}

/// The text of the address to listen on of the environment `env`.
pub open spec fn env_bind_addr(env: EnvValues) -> Seq<char> {
    bind_addr_text_spec(
        match env.bind_addr {
            Some(v) => Some(v@),
            None => None,
        },
    )
}

/// `r` is what the environment `env` gives, where `bind_addr_check` is
/// the outcome of reading its address text as a socket address: the
/// first refusal in the order address, database address, secret, secret
/// length; or the settings.
pub open spec fn settings_outcome(env: EnvValues, bind_addr_check: Result<(), String>, r: Result<Settings, String>) -> bool {
    match bind_addr_check {
        Err(e) => r == Err::<Settings, String>(e),
        Ok(()) => settings_outcome_after_addr(env, r),
    }
}

/// `r` is what the environment `env` gives once its address reads as a
/// socket address: the first refusal in the order database address,
/// secret, secret length; or the settings.
pub open spec fn settings_outcome_after_addr(env: EnvValues, r: Result<Settings, String>) -> bool {
    match env.database_url {
        None => r matches Err(m) && m@ == database_url_missing(),
        Some(url) => match env.jwt_secret {
            None => r matches Err(m) && m@ == jwt_secret_missing(),
            Some(secret) => if byte_len(secret@) < 32 {
                r matches Err(m) && m@ == jwt_secret_too_short(byte_len(secret@))
            } else {
                r matches Ok(s) && s.bind_addr@ == env_bind_addr(env) && s.database_url == url
                    && s.jwt_secret == secret
                    && s.access_ttl_secs == match env.jwt_access_ttl {
                    Some(v) => match parse_u64_spec(v@) {
                        Some(n) => n,
                        None => 900,
                    },
                    None => 900,
                } && s.refresh_ttl_secs == match env.jwt_refresh_ttl {
                    Some(v) => match parse_u64_spec(v@) {
                        Some(n) => n,
                        None => 2592000,
                    },
                    None => 2592000,
                } && s.run_migrations == match env.run_migrations {
                    Some(v) => !is_off_text(v@),
                    None => true,
                } && s.initial_admin_password == env.initial_admin_password
            },
        },
    }
}

fn as_str_opt(v: &Option<String>) -> (r: Option<&str>)
    ensures
        match v {
            Some(s) => r matches Some(t) && t@ == s@,
            None => r is None,
        },
{
    match v {
        Some(s) => Some(s.as_str()),
        None => None,
    }
}

impl Settings {
    /// The settings of an environment, or why it is refused: an address
    /// that is not a socket address (`bind_addr_check`, the outcome of
    /// reading `bind_addr_text(env.bind_addr)` as one, with the reader's
    /// message), no database address, no token secret, or a secret under
    /// 32 bytes.
    pub fn from_env_values(env: EnvValues, bind_addr_check: Result<(), String>) -> (r: Result<Settings, String>)
        ensures
            settings_outcome(env, bind_addr_check, r),
    {
        if let Err(e) = bind_addr_check {
            return Err(e);
        }
        let bind_addr = bind_addr_text(as_str_opt(&env.bind_addr));
        let access_ttl_secs = ttl_setting(as_str_opt(&env.jwt_access_ttl), DEFAULT_ACCESS_TTL_SECS);
        let refresh_ttl_secs = ttl_setting(as_str_opt(&env.jwt_refresh_ttl), DEFAULT_REFRESH_TTL_SECS);
        let run_migrations = run_migrations_setting(as_str_opt(&env.run_migrations));
        let database_url = match env.database_url {
            None => return Err(String::from_str("DATABASE_URL must be set")),
            Some(u) => u,
        };
        let jwt_secret = match env.jwt_secret {
            None => return Err(String::from_str("JWT_SECRET must be set")),
            Some(s) => s,
        };
        let len = jwt_secret.as_str().len();
        if len < MIN_JWT_SECRET_BYTES {
            let mut m = String::from_str("JWT_SECRET must be at least 32 chars; got ");
            push_decimal(&mut m, len as u64);
            return Err(m);
        }
        Ok(Settings {
            bind_addr,
            database_url,
            jwt_secret,
            access_ttl_secs,
            refresh_ttl_secs,
            run_migrations,
            initial_admin_password: env.initial_admin_password,
        })
    }
}

} // verus!
