//! Properties of the library that span several of its operations.

use vstd::prelude::*;
use vstd::string::*;
use crate::bootstrap::{admin_name, count_or_zero, default_admin_password, Bootstrap, BootstrapAction, BootstrapEnd, BootstrapEvent, Phase};
use crate::dto::{ChangePasswordDto, LoginData, TokenResponse};
use crate::error::{DbError, ServiceError};
use crate::extract::{bearer_prefix, bearer_token_of, is_bearer};
use crate::models::{CreateUserDto, CreateUserEntity, UserModel};
use crate::pagination::{page_count, ResponsePagination};
use crate::password::{argon2_accepts, hashable, lemma_encoded_len_bound};
use crate::services::{password_matches, AuthService};
use crate::text::trimmed;
use crate::claims::{access_claim_json, refresh_claim_json};
use crate::json::{decimal, escape, escape_char, hex_digit, string_literal};
use crate::config::{digits_value, is_digit, parse_u64_spec, settings_outcome, unsigned_digits, EnvValues, Settings};
use crate::jwt::{claims_checked, expiry, hs256_token, is_issued_claims_text, reads_back, tokens_issued, JwtError};

verus! {

/// A user stored from a registration logs in with the password it
/// registered: the login is never refused for the password.
pub proof fn law_registered_user_logs_in(
    svc: AuthService,
    new_user: CreateUserDto,
    entity: CreateUserEntity,
    stored: UserModel,
    login: LoginData,
    r: Result<TokenResponse, ServiceError>,
)
    requires
        entity.name == new_user.name,
        entity.role_id == new_user.role_id,
        argon2_accepts(entity.password_hash@, new_user.password@),
        stored.password_hash == entity.password_hash,
        login.password@ == new_user.password@,
        svc.login_outcome(Ok(stored), login, r),
    ensures
        password_matches(stored, login.password@),
        svc.issued(stored, r),
        !(r matches Err(ServiceError::Unauthorized(_))),
{
}

/// After a password change is stored, the user logs in with the new
/// password.
pub proof fn law_changed_password_logs_in(
    svc: AuthService,
    found: UserModel,
    data: ChangePasswordDto,
    new_hash: String,
    stored: UserModel,
    login: LoginData,
    r: Result<TokenResponse, ServiceError>,
)
    requires
        AuthService::change_password_outcome(Ok(found), data, Ok(new_hash)),
        stored.password_hash == new_hash,
        login.password@ == data.new_password@,
        svc.login_outcome(Ok(stored), login, r),
    ensures
        svc.issued(stored, r),
        !(r matches Err(ServiceError::Unauthorized(_))),
{
}

/// A login for a name the store does not hold is `NotFound`, whatever the
/// password and whatever the store's failure.
pub proof fn law_unknown_user_is_not_found(
    svc: AuthService,
    d: DbError,
    login: LoginData,
    r: Result<TokenResponse, ServiceError>,
)
    requires
        svc.login_outcome(Err(d), login, r),
    ensures
        r matches Err(ServiceError::NotFound(_)),
{
}

/// The admin user the bootstrap creates logs in with the configured
/// initial password, or with the default one when none is configured.
pub proof fn law_bootstrap_admin_logs_in(
    b: Bootstrap,
    role_id: u128,
    action: BootstrapAction,
    next: Bootstrap,
    stored: UserModel,
)
    requires
        b.phase == Phase::RoleLookup,
        b.step_spec(BootstrapEvent::RoleId(Ok(role_id)), action, next),
        action matches BootstrapAction::InsertUser(u) && stored.password_hash == u.password_hash,
    ensures
        password_matches(stored, match b.initial_password {
            Some(p) => p@,
            None => default_admin_password(),
        }),
{
}

/// On an empty store whose every write and lookup succeeds, the bootstrap
/// inserts the `admin` role, then the `admin` user with that role and the
/// configured initial password (or the default one), and ends with the
/// admin created.
pub proof fn law_bootstrap_creates_admin(
    b0: Bootstrap,
    a1: BootstrapAction,
    b1: Bootstrap,
    a2: BootstrapAction,
    b2: Bootstrap,
    a3: BootstrapAction,
    b3: Bootstrap,
    role_id: u128,
    a4: BootstrapAction,
    b4: Bootstrap,
    a5: BootstrapAction,
    b5: Bootstrap,
)
    requires
        b0.phase == Phase::RoleCount,
        b0.initial_password matches Some(p) ==> hashable(p@),
        b0.step_spec(BootstrapEvent::Count(Some(0)), a1, b1),
        b1.step_spec(BootstrapEvent::Written(Ok(())), a2, b2),
        b2.step_spec(BootstrapEvent::Count(Some(0)), a3, b3),
        b3.step_spec(BootstrapEvent::RoleId(Ok(role_id)), a4, b4),
        b4.step_spec(BootstrapEvent::Written(Ok(())), a5, b5),
    ensures
        a1 matches BootstrapAction::InsertRole(r) && r.name@ == admin_name(),
        a3 matches BootstrapAction::FindRoleId(n) && n@ == admin_name(),
        a4 matches BootstrapAction::InsertUser(u) && u.name@ == admin_name() && u.role_id == Some(
            role_id,
        ) && argon2_accepts(u.password_hash@, b0.admin_password()),
        a5 == BootstrapAction::Finish(
            BootstrapEnd::AdminCreated { custom_password: b0.initial_password is Some },
        ),
        b5.phase == Phase::Finished,
{
    if b0.initial_password is None {
        reveal_strlit("admin123");
        lemma_encoded_len_bound(default_admin_password());
    }
}

/// With roles and users present, the bootstrap counts both and writes
/// nothing.
pub proof fn law_bootstrap_leaves_initialized_store(
    b0: Bootstrap,
    roles: Option<i64>,
    a1: BootstrapAction,
    b1: Bootstrap,
    users: Option<i64>,
    a2: BootstrapAction,
    b2: Bootstrap,
)
    requires
        b0.phase == Phase::RoleCount,
        count_or_zero(roles) != 0,
        count_or_zero(users) != 0,
        b0.step_spec(BootstrapEvent::Count(roles), a1, b1),
        b1.step_spec(BootstrapEvent::Count(users), a2, b2),
    ensures
        a1 is CountUsers,
        a2 == BootstrapAction::Finish(BootstrapEnd::UsersPresent),
        b2.phase == Phase::Finished,
{
}

/// With a positive page size, the pages hold every row and no page is
/// wholly past the last row: `(pages - 1) * size < rows <= pages * size`.
pub proof fn law_pages_cover_rows(total_count: int, size: int)
    requires
        total_count >= 0,
        size > 0,
    ensures
        page_count(total_count, size) * size >= total_count,
        total_count > 0 ==> (page_count(total_count, size) - 1) * size < total_count,
        page_count(total_count, size) >= 0,
{
    let q = total_count / size;
    let r = total_count % size;
    vstd::arithmetic::div_mod::lemma_fundamental_div_mod(total_count, size);
    vstd::arithmetic::div_mod::lemma_fundamental_div_mod(-total_count, size);
    let p = page_count(total_count, size);
    assert(-total_count == size * ((-total_count) / size) + (-total_count) % size);
    assert(p == -((-total_count) / size));
    assert(0 <= (-total_count) % size < size);
    assert(p * size >= total_count) by (nonlinear_arith)
        requires
            -total_count == size * ((-total_count) / size) + (-total_count) % size,
            p == -((-total_count) / size),
            0 <= (-total_count) % size < size,
    ;
    assert(total_count > 0 ==> (p - 1) * size < total_count) by (nonlinear_arith)
        requires
            -total_count == size * ((-total_count) / size) + (-total_count) % size,
            p == -((-total_count) / size),
            0 <= (-total_count) % size < size,
            size > 0,
    ;
    assert(p >= 0) by (nonlinear_arith)
        requires
            -total_count == size * ((-total_count) / size) + (-total_count) % size,
            p == -((-total_count) / size),
            0 <= (-total_count) % size < size,
            size > 0,
            total_count >= 0,
    ;
}

/// Consecutive pages are adjacent: page `p + 1` starts `size` rows after
/// page `p`, for pages from 1 on.
pub proof fn law_pages_are_adjacent(p: ResponsePagination, q: ResponsePagination)
    requires
        p.page >= 1,
        q.page == p.page + 1,
        q.size == p.size,
    ensures
        q.offset_spec() == p.offset_spec() + p.size,
{
    assert(q.offset_spec() == p.offset_spec() + p.size) by (nonlinear_arith)
        requires
            p.offset_spec() == (p.page - 1) * p.size,
            q.offset_spec() == (q.page - 1) * q.size,
            q.page == p.page + 1,
            q.size == p.size,
    ;
}

/// The token a client sends as `Bearer <token>` is the token read back,
/// when it has no white space at either end.
pub proof fn law_bearer_token_round_trip(token: Seq<char>)
    requires
        trimmed(token) == token,
    ensures
        is_bearer(bearer_prefix() + token),
        bearer_token_of(bearer_prefix() + token) == token,
{
    reveal_strlit("Bearer ");
    let h = bearer_prefix() + token;
    assert(h.subrange(0, 7) =~= bearer_prefix());
    assert(h.subrange(7, h.len() as int) =~= token);
}

/// Issuing is deterministic: the same user, secret, lifetimes and time
/// give the same access and refresh tokens.
pub proof fn law_issuing_is_deterministic(
    t1: TokenResponse,
    t2: TokenResponse,
    user: UserModel,
    secret: Seq<char>,
    access_ttl_secs: nat,
    refresh_ttl_secs: nat,
    now: nat,
)
    requires
        tokens_issued(t1, user, secret, access_ttl_secs, refresh_ttl_secs, now),
        tokens_issued(t2, user, secret, access_ttl_secs, refresh_ttl_secs, now),
    ensures
        t1.access_token@ == t2.access_token@,
        t1.refresh_token@ == t2.refresh_token@,
{
}

/// Tokens read back as what was issued: an issued access or refresh token
/// is accepted when read under the secret it was signed with, and gives
/// back the claims text signed into it.
pub proof fn law_issued_tokens_read_back(
    t: TokenResponse,
    user: UserModel,
    secret: Seq<char>,
    access_ttl_secs: nat,
    refresh_ttl_secs: nat,
    now: nat,
    access_read: Result<String, JwtError>,
    refresh_read: Result<String, JwtError>,
)
    requires
        tokens_issued(t, user, secret, access_ttl_secs, refresh_ttl_secs, now),
        reads_back(t.access_token@, secret, access_read),
        reads_back(t.refresh_token@, secret, refresh_read),
    ensures
        access_read matches Ok(p) && p@ == access_claim_json(
            user.id,
            user.name@,
            user.role_id,
            expiry(now, access_ttl_secs),
        ),
        refresh_read matches Ok(p) && p@ == refresh_claim_json(
            user.name@,
            expiry(now, refresh_ttl_secs),
        ),
{
    let ae = expiry(now, access_ttl_secs);
    let re = expiry(now, refresh_ttl_secs);
    let a = access_claim_json(user.id, user.name@, user.role_id, ae);
    let f = refresh_claim_json(user.name@, re);
    assert(is_issued_claims_text(a));
    assert(is_issued_claims_text(f));
    assert(hs256_token(a, secret) == Some(t.access_token@));
    assert(hs256_token(f, secret) == Some(t.refresh_token@));
}

/// A token that passes validation under a secret also reads back under it:
/// validation never accepts a token whose signature does not check out.
pub proof fn law_checked_token_reads_back(
    token: Seq<char>,
    secret: Seq<char>,
    checked: Result<(), JwtError>,
    read: Result<String, JwtError>,
)
    requires
        claims_checked(token, secret, checked),
        reads_back(token, secret, read),
        checked is Ok,
    ensures
        read is Ok,
{
}

} // verus!

verus! {

/// The character a JSON short escape `\e` stands for, if `e` makes one.
pub open spec fn short_escape(e: char) -> Option<char> {
    if e == '"' {
        Some('"')
    } else if e == '\\' {
        Some('\\')
    } else if e == '/' {
        Some('/')
    } else if e == 'b' {
        Some('\u{8}')
    } else if e == 'f' {
        Some('\u{c}')
    } else if e == 'n' {
        Some('\n')
    } else if e == 'r' {
        Some('\r')
    } else if e == 't' {
        Some('\t')
    } else {
        None
    }
}

/// The value of a hexadecimal digit of either case, or -1 for another
/// character.
pub open spec fn hex_value(c: char) -> int {
    if '0' <= c <= '9' {
        c as int - '0' as int
    } else if 'a' <= c <= 'f' {
        c as int - 'a' as int + 10
    } else if 'A' <= c <= 'F' {
        c as int - 'A' as int + 10
    } else {
        -1
    }
}

/// `c` in front of a decoded text, if there is one.
pub open spec fn prepend(c: char, rest: Option<Seq<char>>) -> Option<Seq<char>> {
    match rest {
        Some(r) => Some(seq![c] + r),
        None => None,
    }
}

/// What a reader of JSON takes the inside of a string literal to say: a
/// backslash starts a short escape or a `\uXXXX` escape of a character
/// outside the surrogate range; any other character stands for itself,
/// except `"` and the control characters, which cannot stand unescaped.
/// Nothing where the text is not a valid inside.
pub open spec fn json_unescape(t: Seq<char>) -> Option<Seq<char>>
    decreases t.len(),
{
    if t.len() == 0 {
        Some(Seq::empty())
    } else if t[0] == '\\' {
        if t.len() >= 2 && short_escape(t[1]) is Some {
            prepend(short_escape(t[1])->0, json_unescape(t.subrange(2, t.len() as int)))
        } else if t.len() >= 6 && t[1] == 'u' && hex_value(t[2]) >= 0 && hex_value(t[3]) >= 0
            && hex_value(t[4]) >= 0 && hex_value(t[5]) >= 0 {
            let code = hex_value(t[2]) * 4096 + hex_value(t[3]) * 256 + hex_value(t[4]) * 16
                + hex_value(t[5]);
            if 0xD800 <= code <= 0xDFFF {
                None
            } else {
                prepend((code as u32) as char, json_unescape(t.subrange(6, t.len() as int)))
            }
        } else {
            None
        }
    } else if t[0] == '"' || (t[0] as u32) < 32 {
        None
    } else {
        prepend(t[0], json_unescape(t.drop_first()))
    }
}

/// What a reader of JSON takes a string literal to say.
pub open spec fn json_string_value(t: Seq<char>) -> Option<Seq<char>> {
    if t.len() >= 2 && t[0] == '"' && t.last() == '"' {
        json_unescape(t.subrange(1, t.len() - 1))
    } else {
        None
    }
}

/// Escaping a text goes character by character from the front.
proof fn lemma_escape_prepend(c: char, s: Seq<char>)
    ensures
        escape(seq![c] + s) == escape_char(c) + escape(s),
    decreases s.len(),
{
    if s.len() == 0 {
        let t = seq![c] + s;
        assert(t.drop_last() =~= Seq::<char>::empty());
        assert(t.last() == c);
        assert(escape(t.drop_last()) =~= Seq::<char>::empty());
        assert(escape(s) =~= Seq::<char>::empty());
        assert(escape(t) =~= escape_char(c) + escape(s));
    } else {
        let t = seq![c] + s;
        assert(t.drop_last() =~= seq![c] + s.drop_last());
        lemma_escape_prepend(c, s.drop_last());
        assert(t.last() == s.last());
        assert(escape(t) =~= escape_char(c) + escape(s));
    }
}

/// The digit `hex_digit(d)` reads back as `d`.
proof fn lemma_hex_digit_value(d: int)
    requires
        0 <= d < 16,
    ensures
        hex_value(hex_digit(d)) == d,
{
}

/// Reading the escape of one character, followed by more text, gives the
/// character followed by what the rest reads as.
proof fn lemma_unescape_escaped_char(c: char, rest: Seq<char>)
    ensures
        json_unescape(escape_char(c) + rest) == prepend(c, json_unescape(rest)),
{
    let u = c as u32;
    let t = escape_char(c) + rest;
    if c == '"' || c == '\\' || u == 8 || u == 12 || c == '\n' || c == '\r' || c == '\t' {
        assert(t.subrange(2, t.len() as int) =~= rest);
        if u == 8 {
            assert(('\u{8}' as u32) == u);
        }
        if u == 12 {
            assert(('\u{c}' as u32) == u);
        }
    } else if u < 32 {
        lemma_hex_digit_value((u / 16) as int);
        lemma_hex_digit_value((u % 16) as int);
        assert(t[2] == '0' && t[3] == '0');
        assert(t.subrange(6, t.len() as int) =~= rest);
        let code = hex_value(t[2]) * 4096 + hex_value(t[3]) * 256 + hex_value(t[4]) * 16
            + hex_value(t[5]);
        assert(code == u);
        assert((code as u32) as char == c);
    } else {
        assert(t.drop_first() =~= rest);
    }
}

/// The JSON string literal of a text reads back as that same text: the
/// escaping loses and changes nothing (a reader of JSON, undoing the
/// escapes, gets every character back, in order).
pub proof fn law_string_literal_reads_back(s: Seq<char>)
    ensures
        json_unescape(escape(s)) == Some(s),
        json_string_value(string_literal(s)) == Some(s),
    decreases s.len(),
{
    if s.len() > 0 {
        let rest = s.drop_first();
        assert(s =~= seq![s[0]] + rest);
        lemma_escape_prepend(s[0], rest);
        law_string_literal_reads_back(rest);
        lemma_unescape_escaped_char(s[0], escape(rest));
        assert(seq![s[0]] + rest =~= s);
    } else {
        assert(escape(s) =~= Seq::<char>::empty());
    }
    let lit = string_literal(s);
    assert(lit.subrange(1, lit.len() - 1) =~= escape(s));
}

/// A text with no `"`, no backslash and no control character is its own
/// escape: such characters stand for themselves in a JSON string.
pub proof fn law_plain_text_is_not_escaped(s: Seq<char>)
    requires
        forall|i: int|
            0 <= i < s.len() ==> #[trigger] s[i] != '"' && s[i] != '\\' && (s[i] as u32) >= 32,
    ensures
        escape(s) == s,
    decreases s.len(),
{
    if s.len() > 0 {
        law_plain_text_is_not_escaped(s.drop_last());
        assert(s.drop_last().push(s.last()) =~= s);
        assert(escape(s) =~= escape(s.drop_last()) + escape_char(s.last()));
        let c = s.last();
        assert(c == s[s.len() - 1]);
        assert(escape_char(c) =~= seq![c]);
        assert(escape(s) =~= s);
    } else {
        assert(escape(s) =~= s);
    }
}

} // verus!

verus! {

/// Tokens that a service issues to a user carry the service's two
/// lifetimes, each in its own token, counted from one issuing time: the
/// access token is signed over the user's access claims expiring
/// `access_ttl_secs` after that time, the refresh token over the user's
/// refresh claims expiring `refresh_ttl_secs` after it, both under the
/// service's secret.
pub proof fn law_issued_tokens_carry_lifetimes(svc: AuthService, user: UserModel, t: TokenResponse)
    requires
        svc.issued(user, Ok(t)),
    ensures
        exists|now: nat|
            #![trigger access_claim_json(user.id, user.name@, user.role_id, ((now + svc.access_ttl_secs) as usize) as nat)]
            now + svc.access_ttl_secs <= u64::MAX && now + svc.refresh_ttl_secs <= u64::MAX
                && hs256_token(
                access_claim_json(
                    user.id,
                    user.name@,
                    user.role_id,
                    ((now + svc.access_ttl_secs) as usize) as nat,
                ),
                svc.jwt_secret@,
            ) == Some(t.access_token@) && hs256_token(
                refresh_claim_json(user.name@, ((now + svc.refresh_ttl_secs) as usize) as nat),
                svc.jwt_secret@,
            ) == Some(t.refresh_token@),
{
    let now = choose|now: nat|
        #![trigger tokens_issued(t, user, svc.jwt_secret@, svc.access_ttl_secs as nat, svc.refresh_ttl_secs as nat, now)]
        now <= u64::MAX && svc.expiries_fit(now) && tokens_issued(
            t,
            user,
            svc.jwt_secret@,
            svc.access_ttl_secs as nat,
            svc.refresh_ttl_secs as nat,
            now,
        );
    assert(access_claim_json(user.id, user.name@, user.role_id, ((now + svc.access_ttl_secs) as usize) as nat)
        == access_claim_json(user.id, user.name@, user.role_id, expiry(now, svc.access_ttl_secs as nat)));
}

/// A login with the right password that succeeds gives the user's tokens,
/// each carrying its own lifetime from one issuing time, signed under the
/// service's secret.
pub proof fn law_login_issues_the_users_tokens(
    svc: AuthService,
    user: UserModel,
    login: LoginData,
    t: TokenResponse,
)
    requires
        svc.login_outcome(Ok(user), login, Ok(t)),
    ensures
        password_matches(user, login.password@),
        exists|now: nat|
            #![trigger access_claim_json(user.id, user.name@, user.role_id, ((now + svc.access_ttl_secs) as usize) as nat)]
            now + svc.access_ttl_secs <= u64::MAX && now + svc.refresh_ttl_secs <= u64::MAX
                && hs256_token(
                access_claim_json(
                    user.id,
                    user.name@,
                    user.role_id,
                    ((now + svc.access_ttl_secs) as usize) as nat,
                ),
                svc.jwt_secret@,
            ) == Some(t.access_token@) && hs256_token(
                refresh_claim_json(user.name@, ((now + svc.refresh_ttl_secs) as usize) as nat),
                svc.jwt_secret@,
            ) == Some(t.refresh_token@),
{
    law_issued_tokens_carry_lifetimes(svc, user, t);
}

/// The bootstrap inserts a role or a user only into an empty table: a
/// count of `n` rows that is not zero moves on without inserting (to the
/// users after the roles, to the end after the users), and a count of zero,
/// or a count that failed, leads to the insertion.
pub proof fn law_bootstrap_inserts_only_into_empty_tables(
    b: Bootstrap,
    count: Option<i64>,
    action: BootstrapAction,
    next: Bootstrap,
)
    requires
        b.phase == Phase::RoleCount || b.phase == Phase::UserCount,
        b.step_spec(BootstrapEvent::Count(count), action, next),
    ensures
        count matches Some(n) && n != 0 ==> if b.phase == Phase::RoleCount {
            action is CountUsers && next.phase == Phase::UserCount
        } else {
            action == BootstrapAction::Finish(BootstrapEnd::UsersPresent) && next.phase
                == Phase::Finished
        },
        count == Some(0i64) || count is None ==> if b.phase == Phase::RoleCount {
            action matches BootstrapAction::InsertRole(r) && r.name@ == admin_name()
        } else {
            action matches BootstrapAction::FindRoleId(n) && n@ == admin_name()
        },
{
}

/// Where the lifetimes are not set, an accepted environment gives access
/// tokens 900 seconds (15 minutes) and refresh tokens 2592000 seconds
/// (30 days); where one is set to the decimal digits of a `u64`, it is
/// that number of seconds.
pub proof fn law_settings_token_lifetimes(
    env: EnvValues,
    r: Result<Settings, String>,
    s: Settings,
    access: u64,
    refresh: u64,
)
    requires
        settings_outcome(env, Ok(()), r),
        r == Ok::<Settings, String>(s),
    ensures
        env.jwt_access_ttl is None ==> s.access_ttl_secs == 900,
        env.jwt_refresh_ttl is None ==> s.refresh_ttl_secs == 2592000,
        env.jwt_access_ttl matches Some(v) && v@ == decimal(access as nat) ==> s.access_ttl_secs
            == access,
        env.jwt_refresh_ttl matches Some(v) && v@ == decimal(refresh as nat) ==> s.refresh_ttl_secs
            == refresh,
{
    lemma_decimal_parses(access as nat);
    lemma_decimal_parses(refresh as nat);
}

/// The decimal digits of a number are all digits, and their value is the
/// number.
proof fn lemma_decimal_digits(n: nat)
    ensures
        decimal(n).len() > 0,
        forall|i: int| 0 <= i < decimal(n).len() ==> is_digit(#[trigger] decimal(n)[i]),
        digits_value(decimal(n)) == n,
    decreases n,
{
    if n >= 10 {
        lemma_decimal_digits(n / 10);
        let d = decimal(n);
        assert(d.drop_last() =~= decimal(n / 10));
        assert(d.last() == hex_digit((n % 10) as int));
        assert(hex_digit((n % 10) as int) as int - '0' as int == n % 10);
        assert(digits_value(d) == digits_value(decimal(n / 10)) * 10 + n % 10);
        assert(n == (n / 10) * 10 + n % 10);
    } else {
        let d = decimal(n);
        assert(d.drop_last() =~= Seq::<char>::empty());
        assert(d.last() == hex_digit(n as int));
        assert(hex_digit(n as int) as int - '0' as int == n);
        assert(digits_value(d) == digits_value(d.drop_last()) * 10 + (d.last() as int - '0' as int));
    }
}

/// `u64::from_str` reads the decimal digits of a `u64` as that number.
proof fn lemma_decimal_parses(n: nat)
    requires
        n <= u64::MAX,
    ensures
        parse_u64_spec(decimal(n)) == Some(n as u64),
{
    lemma_decimal_digits(n);
    assert(is_digit(decimal(n)[0]));
    assert(unsigned_digits(decimal(n)) == decimal(n));
}

} // verus!
