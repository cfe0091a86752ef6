//! The JSON text of token claims.
//!
//! Claims are framed here, as text, exactly as `serde_json` writes a struct
//! with derived `Serialize`: compact, fields in declaration order, strings
//! escaped with the short escapes and `\u00xx` for other control characters,
//! identifiers in the hyphenated lower-case form.

use vstd::prelude::*;
use vstd::string::*;
use crate::text::push_char;

verus! {

/// The lower-case hexadecimal digit of `d` (`0 <= d < 16`).
pub open spec fn hex_digit(d: int) -> char {
    if d < 10 {
        (48 + d) as char
    } else {
        (87 + d) as char
    }
}

/// The decimal digits of `n`, most significant first, without leading zeros.
pub open spec fn decimal(n: nat) -> Seq<char>
    decreases n,
{
    if n < 10 {
        seq![hex_digit(n as int)]
    } else {
        decimal(n / 10).push(hex_digit((n % 10) as int))
    }
}

/// The `width` lowest hexadecimal digits of `v`, most significant first.
pub open spec fn hex_fixed(v: nat, width: nat) -> Seq<char>
    decreases width,
{
    if width == 0 {
        Seq::empty()
    } else {
        hex_fixed(v / 16, (width - 1) as nat).push(hex_digit((v % 16) as int))
    }
}

/// The hyphenated 8-4-4-4-12 text of a 128-bit identifier.
pub open spec fn uuid_text(v: u128) -> Seq<char> {
    let h = hex_fixed(v as nat, 32);
    h.subrange(0, 8) + seq!['-'] + h.subrange(8, 12) + seq!['-'] + h.subrange(12, 16)
        + seq!['-'] + h.subrange(16, 20) + seq!['-'] + h.subrange(20, 32)
}

/// How one character appears inside a JSON string literal.
pub open spec fn escape_char(c: char) -> Seq<char> {
    let u = c as u32;
    if c == '"' {
        seq!['\\', '"']
    } else if c == '\\' {
        seq!['\\', '\\']
    } else if u == 8 {
        seq!['\\', 'b']
    } else if u == 12 {
        seq!['\\', 'f']
    } else if c == '\n' {
        seq!['\\', 'n']
    } else if c == '\r' {
        seq!['\\', 'r']
    } else if c == '\t' {
        seq!['\\', 't']
    } else if u < 32 {
        seq!['\\', 'u', '0', '0', hex_digit((u / 16) as int), hex_digit((u % 16) as int)]
    } else {
        seq![c]
    }
}

/// The escaped contents of a JSON string literal.
pub open spec fn escape(s: Seq<char>) -> Seq<char>
    decreases s.len(),
{
    if s.len() == 0 {
        Seq::empty()
    } else {
        escape(s.drop_last()) + escape_char(s.last())
    }
}

/// A JSON string literal.
pub open spec fn string_literal(s: Seq<char>) -> Seq<char> {
    seq!['"'] + escape(s) + seq!['"']
}

fn digit_char(d: u64) -> (c: char)
    requires
        d < 16,
    ensures
        c == hex_digit(d as int),
{
    if d < 10 {
        ((48 + d) as u8) as char
    } else {
        ((87 + d) as u8) as char
    }
}

fn escaped(c: char) -> (r: Vec<char>)
    ensures
        r@ == escape_char(c),
{
    let u = c as u32;
    if c == '"' {
        vec!['\\', '"']
    } else if c == '\\' {
        vec!['\\', '\\']
    } else if u == 8 {
        vec!['\\', 'b']
    } else if u == 12 {
        vec!['\\', 'f']
    } else if c == '\n' {
        vec!['\\', 'n']
    } else if c == '\r' {
        vec!['\\', 'r']
    } else if c == '\t' {
        vec!['\\', 't']
    } else if u < 32 {
        let hi = digit_char((u / 16) as u64);
        let lo = digit_char((u % 16) as u64);
        vec!['\\', 'u', '0', '0', hi, lo]
    } else {
        vec![c]
    }
}

/// Appends `s` as a JSON string literal.
pub fn push_string_literal(out: &mut String, s: &str)
    ensures
        final(out)@ == old(out)@ + string_literal(s@),
{
    push_char(out, '"');
    let n = s.unicode_len();
    let mut i: usize = 0;
    while i < n
        invariant
            n == s@.len(),
            i <= n,
            out@ == old(out)@ + seq!['"'] + escape(s@.subrange(0, i as int)),
        decreases n - i,
    {
        let c = s.get_char(i);
        let e = escaped(c);
        let mut k: usize = 0;
        let ghost base = out@;
        while k < e.len()
            invariant
                k <= e@.len(),
                out@ == base + e@.subrange(0, k as int),
            decreases e@.len() - k,
        {
            push_char(out, e[k]);
            proof {
                assert(e@.subrange(0, k + 1) =~= e@.subrange(0, k as int).push(e@[k as int]));
            }
            k = k + 1;
        }
        proof {
            let pre = s@.subrange(0, i + 1);
            assert(pre.drop_last() =~= s@.subrange(0, i as int));
            assert(e@.subrange(0, e@.len() as int) =~= e@);
        }
        i = i + 1;
    }
    assert(s@.subrange(0, n as int) =~= s@);
    push_char(out, '"');
}

/// Appends the decimal digits of `n`.
pub fn push_decimal(out: &mut String, n: u64)
    ensures
        final(out)@ == old(out)@ + decimal(n as nat),
    decreases n,
{
    if n >= 10 {
        push_decimal(out, n / 10);
    }
    let c = digit_char(n % 10);
    push_char(out, c);
    proof {
        assert(final(out)@ =~= old(out)@ + decimal(n as nat));
    }
}

/// Appends the hyphenated text of a 128-bit identifier.
pub fn push_uuid(out: &mut String, v: u128)
    ensures
        final(out)@ == old(out)@ + uuid_text(v),
{
    let mut digits: Vec<char> = Vec::new();
    let mut k: usize = 0;
    while k < 32
        invariant
            k <= 32,
            digits@.len() == k,
        decreases 32 - k,
    {
        digits.push('0');
        k = k + 1;
    }
    let mut cur: u128 = v;
    let mut i: usize = 0;
    while i < 32
        invariant
            i <= 32,
            digits@.len() == 32,
            hex_fixed(v as nat, 32) =~= hex_fixed(cur as nat, (32 - i) as nat) + digits@.subrange(
                32 - i,
                32,
            ),
        decreases 32 - i,
    {
        let d = (cur % 16) as u64;
        let c = digit_char(d);
        let ghost before = digits@;
        digits.set(31 - i, c);
        proof {
            let w = (32 - i) as nat;
            assert(hex_fixed(cur as nat, w) == hex_fixed((cur / 16) as nat, (w - 1) as nat).push(
                hex_digit(d as int),
            ));
            assert(digits@.subrange(31 - i, 32) =~= seq![c] + before.subrange(32 - i, 32));
        }
        cur = cur / 16;
        i = i + 1;
    }
    assert(hex_fixed(cur as nat, 0) =~= Seq::<char>::empty());
    assert(digits@ =~= hex_fixed(v as nat, 32));
    proof {
        lemma_hex_fixed_len(v as nat, 32);
    }
    let mut j: usize = 0;
    while j < 32
        invariant
            j <= 32,
            digits@ == hex_fixed(v as nat, 32),
            digits@.len() == 32,
            out@ == old(out)@ + uuid_prefix(digits@, j as int),
        decreases 32 - j,
    {
        if j == 8 || j == 12 || j == 16 || j == 20 {
            push_char(out, '-');
        }
        push_char(out, digits[j]);
        proof {
            assert(uuid_prefix(digits@, j + 1) =~= uuid_prefix(digits@, j as int) + (if j == 8
                || j == 12 || j == 16 || j == 20 {
                seq!['-', digits@[j as int]]
            } else {
                seq![digits@[j as int]]
            }));
        }
        j = j + 1;
    }
    proof {
        lemma_uuid_prefix_full(digits@);
    }
}

proof fn lemma_uuid_prefix_segment(h: Seq<char>, start: int, j: int)
    requires
        0 <= start <= j,
        start == 0 ==> j <= 8,
        start == 8 ==> j <= 12,
        start == 12 ==> j <= 16,
        start == 16 ==> j <= 20,
        start == 20 ==> j <= 32,
        j <= h.len(),
        start == 0 || start == 8 || start == 12 || start == 16 || start == 20,
    ensures
        start == 0 ==> uuid_prefix(h, j) =~= h.subrange(0, j),
        start > 0 && j > start ==> uuid_prefix(h, j) =~= uuid_prefix(h, start) + seq!['-']
            + h.subrange(start, j),
    decreases j - start,
{
    if j > start {
        lemma_uuid_prefix_segment(h, start, j - 1);
        if start > 0 && j - 1 == start {
            assert(uuid_prefix(h, j) == uuid_prefix(h, start) + seq!['-', h[start]]);
        } else {
            assert(uuid_prefix(h, j) == uuid_prefix(h, j - 1) + seq![h[j - 1]]);
        }
    }
}

proof fn lemma_uuid_prefix_full(h: Seq<char>)
    requires
        h.len() == 32,
    ensures
        uuid_prefix(h, 32) =~= h.subrange(0, 8) + seq!['-'] + h.subrange(8, 12) + seq!['-']
            + h.subrange(12, 16) + seq!['-'] + h.subrange(16, 20) + seq!['-'] + h.subrange(20, 32),
{
    lemma_uuid_prefix_segment(h, 0, 8);
    lemma_uuid_prefix_segment(h, 8, 12);
    lemma_uuid_prefix_segment(h, 12, 16);
    lemma_uuid_prefix_segment(h, 16, 20);
    lemma_uuid_prefix_segment(h, 20, 32);
}

proof fn lemma_hex_fixed_len(v: nat, width: nat)
    ensures
        hex_fixed(v, width).len() == width,
    decreases width,
{
    if width > 0 {
        lemma_hex_fixed_len(v / 16, (width - 1) as nat);
    }
}

/// The first `j` hexadecimal digits of `h` with the identifier's hyphens in
/// front of digits 8, 12, 16 and 20.
pub open spec fn uuid_prefix(h: Seq<char>, j: int) -> Seq<char>
    decreases j,
{
    if j <= 0 {
        Seq::empty()
    } else if j - 1 == 8 || j - 1 == 12 || j - 1 == 16 || j - 1 == 20 {
        uuid_prefix(h, j - 1) + seq!['-', h[j - 1]]
    } else {
        uuid_prefix(h, j - 1) + seq![h[j - 1]]
    }
}

/// A scalar JSON value: a string, `null`, or a natural number.
pub enum JsonScalar {
    Text(Seq<char>),
    Null,
    Natural(nat),
}

/// The compact JSON text of a scalar.
pub open spec fn scalar_text(v: JsonScalar) -> Seq<char> {
    match v {
        JsonScalar::Text(s) => string_literal(s),
        JsonScalar::Null => seq!['n', 'u', 'l', 'l'],
        JsonScalar::Natural(n) => decimal(n),
    }
}

/// The compact JSON text of an object member `"key":value`.
pub open spec fn member_text(m: (Seq<char>, JsonScalar)) -> Seq<char> {
    string_literal(m.0) + seq![':'] + scalar_text(m.1)
}

/// The members of an object, separated by commas.
pub open spec fn members_text(ms: Seq<(Seq<char>, JsonScalar)>) -> Seq<char>
    decreases ms.len(),
{
    if ms.len() == 0 {
        Seq::empty()
    } else if ms.len() == 1 {
        member_text(ms[0])
    } else {
        members_text(ms.drop_last()) + seq![','] + member_text(ms.last())
    }
}

/// The compact JSON text of an object of scalar members, in order.
pub open spec fn flat_object_text(ms: Seq<(Seq<char>, JsonScalar)>) -> Seq<char> {
    seq!['{'] + members_text(ms) + seq!['}']
}

/// Whether `c` is the text of an object of scalar members: valid JSON.
pub open spec fn is_flat_object(c: Seq<char>) -> bool {
    exists|ms: Seq<(Seq<char>, JsonScalar)>| c == flat_object_text(ms)
}

} // verus!
