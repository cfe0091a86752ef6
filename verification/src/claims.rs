//! Claims carried by access and refresh tokens, and their JSON text.

use vstd::prelude::*;
use vstd::string::*;
use crate::json::{flat_object_text, member_text, members_text, push_decimal, push_string_literal, push_uuid, string_literal, uuid_text, JsonScalar};
use crate::text::push_char;

verus! {

/// Claims of an access token: who the user is, their role, and when the
/// token expires (seconds since the Unix epoch).
#[derive(Debug, Clone, PartialEq, Eq)]
pub struct AccessClaim {
    pub id: u128,
    pub name: String,
    pub role_id: Option<u128>,
    pub exp: usize,
}

/// Claims of a refresh token: the user's name and the expiry.
#[derive(Debug, Clone, PartialEq, Eq)]
pub struct RefreshClaim {
    pub sub: String,
    pub exp: usize,
}

/// The JSON value of an optional identifier.
pub open spec fn optional_uuid_scalar(v: Option<u128>) -> JsonScalar {
    match v {
        Some(id) => JsonScalar::Text(uuid_text(id)),
        None => JsonScalar::Null,
    }
}

/// The members of an access claim, in declaration order.
pub open spec fn access_claim_members(id: u128, name: Seq<char>, role_id: Option<u128>, exp: nat) -> Seq<(Seq<char>, JsonScalar)> {
    seq![
        ("id"@, JsonScalar::Text(uuid_text(id))),
        ("name"@, JsonScalar::Text(name)),
        ("role_id"@, optional_uuid_scalar(role_id)),
        ("exp"@, JsonScalar::Natural(exp)),
    ]
}

/// The members of a refresh claim, in declaration order.
pub open spec fn refresh_claim_members(sub: Seq<char>, exp: nat) -> Seq<(Seq<char>, JsonScalar)> {
    seq![("sub"@, JsonScalar::Text(sub)), ("exp"@, JsonScalar::Natural(exp))]
}

/// `{"id":…,"name":…,"role_id":…,"exp":…}`, compact.
pub open spec fn access_claim_json(id: u128, name: Seq<char>, role_id: Option<u128>, exp: nat) -> Seq<char> {
    flat_object_text(access_claim_members(id, name, role_id, exp))
}

/// `{"sub":…,"exp":…}`, compact.
pub open spec fn refresh_claim_json(sub: Seq<char>, exp: nat) -> Seq<char> {
    flat_object_text(refresh_claim_members(sub, exp))
}

/// Appends a member's key and colon.
fn push_key(out: &mut String, key: &str)
    ensures
        final(out)@ == old(out)@ + string_literal(key@) + seq![':'],
{
    push_string_literal(out, key);
    push_char(out, ':');
    assert(out@ =~= old(out)@ + string_literal(key@) + seq![':']);
}

/// Appends a member whose value is a string.
fn push_text_member(out: &mut String, key: &str, value: &str)
    ensures
        final(out)@ == old(out)@ + member_text((key@, JsonScalar::Text(value@))),
{
    push_key(out, key);
    push_string_literal(out, value);
    assert(out@ =~= old(out)@ + member_text((key@, JsonScalar::Text(value@))));
}

/// Appends a member whose value is an optional identifier.
fn push_uuid_member(out: &mut String, key: &str, value: Option<u128>)
    ensures
        final(out)@ == old(out)@ + member_text((key@, optional_uuid_scalar(value))),
{
    push_key(out, key);
    match value {
        Some(v) => {
            let mut text = String::new();
            push_uuid(&mut text, v);
            push_string_literal(out, text.as_str());
        },
        None => {
            push_char(out, 'n');
            push_char(out, 'u');
            push_char(out, 'l');
            push_char(out, 'l');
        },
    }
    assert(out@ =~= old(out)@ + member_text((key@, optional_uuid_scalar(value))));
}

/// Appends a member whose value is a natural number.
fn push_natural_member(out: &mut String, key: &str, value: u64)
    ensures
        final(out)@ == old(out)@ + member_text((key@, JsonScalar::Natural(value as nat))),
{
    push_key(out, key);
    push_decimal(out, value);
    assert(out@ =~= old(out)@ + member_text((key@, JsonScalar::Natural(value as nat))));
}

/// The text of two members, written out.
proof fn lemma_two_members(ms: Seq<(Seq<char>, JsonScalar)>)
    requires
        ms.len() == 2,
    ensures
        members_text(ms) == member_text(ms[0]) + seq![','] + member_text(ms[1]),
{
    let m1 = seq![ms[0]];
    assert(ms.drop_last() =~= m1);
    assert(members_text(m1) == member_text(ms[0]));
}

/// The text of four members, written out.
proof fn lemma_four_members(ms: Seq<(Seq<char>, JsonScalar)>)
    requires
        ms.len() == 4,
    ensures
        members_text(ms) == member_text(ms[0]) + seq![','] + member_text(ms[1]) + seq![',']
            + member_text(ms[2]) + seq![','] + member_text(ms[3]),
{
    let m1 = seq![ms[0]];
    let m2 = seq![ms[0], ms[1]];
    let m3 = seq![ms[0], ms[1], ms[2]];
    assert(m2.drop_last() =~= m1);
    assert(m3.drop_last() =~= m2);
    assert(ms.drop_last() =~= m3);
    assert(members_text(m1) == member_text(ms[0]));
    assert(members_text(m2) == members_text(m1) + seq![','] + member_text(ms[1]));
    assert(members_text(m3) == members_text(m2) + seq![','] + member_text(ms[2]));
}

impl AccessClaim {
    /// The claim's JSON text, as signed into the token.
    pub open spec fn json(&self) -> Seq<char> {
        access_claim_json(self.id, self.name@, self.role_id, self.exp as nat)
    }

    /// Writes the claim's JSON text.
    pub fn to_json(&self) -> (r: String)
        ensures
            r@ == self.json(),
    {
        let ghost ms = access_claim_members(self.id, self.name@, self.role_id, self.exp as nat);
        let mut out = String::new();
        push_char(&mut out, '{');
        push_uuid_member(&mut out, "id", Some(self.id));
        push_char(&mut out, ',');
        push_text_member(&mut out, "name", self.name.as_str());
        push_char(&mut out, ',');
        push_uuid_member(&mut out, "role_id", self.role_id);
        push_char(&mut out, ',');
        push_natural_member(&mut out, "exp", self.exp as u64);
        push_char(&mut out, '}');
        proof {
            lemma_four_members(ms);
            assert(out@ =~= self.json());
        }
        out
    }
}

impl RefreshClaim {
    /// The claim's JSON text, as signed into the token.
    pub open spec fn json(&self) -> Seq<char> {
        refresh_claim_json(self.sub@, self.exp as nat)
    }

    /// Writes the claim's JSON text.
    pub fn to_json(&self) -> (r: String)
        ensures
            r@ == self.json(),
    {
        let ghost ms = refresh_claim_members(self.sub@, self.exp as nat);
        let mut out = String::new();
        push_char(&mut out, '{');
        push_text_member(&mut out, "sub", self.sub.as_str());
        push_char(&mut out, ',');
        push_natural_member(&mut out, "exp", self.exp as u64);
        push_char(&mut out, '}');
        proof {
            lemma_two_members(ms);
            assert(out@ =~= self.json());
        }
        out
    }
}

} // verus!
