//! Identifiers: UUIDs held as 128-bit integers, their text forms, and the
//! short eight-digit form that servers are also known by.

use vstd::prelude::*;
use crate::text::{hex_char, hex_fixed, push_hex_fixed};

verus! {

/// The hyphenated lower-case form of a UUID: 8-4-4-4-12 hexadecimal digits.
pub open spec fn uuid_hyphenated(u: nat) -> Seq<char> {
    hex_fixed(u / 0x1_0000_0000_0000_0000_0000_0000, 8) + seq!['-']
        + hex_fixed(u / 0x1_0000_0000_0000_0000_0000, 4) + seq!['-']
        + hex_fixed(u / 0x1_0000_0000_0000_0000, 4) + seq!['-']
        + hex_fixed(u / 0x1_0000_0000_0000, 4) + seq!['-'] + hex_fixed(u, 12)
}

/// The 32 digits of the hyphenated form `s` (8-4-4-4-12, hyphens between),
/// if it has that shape.
pub open spec fn hyphenated_digits(s: Seq<char>) -> Option<Seq<char>> {
    if s.len() == 36 && s[8] == '-' && s[13] == '-' && s[18] == '-' && s[23] == '-' {
        Some(s.subrange(0, 8) + s.subrange(9, 13) + s.subrange(14, 18) + s.subrange(19, 23) + s.subrange(24, 36))
    } else {
        None
    }
}

/// `c` in lower case, where it is an ASCII letter.
pub open spec fn ascii_lower(c: char) -> char {
    if 'A' <= c && c <= 'Z' {
        ((c as u32) + 32) as char
    } else {
        c
    }
}

/// Whether `s` starts with `urn:uuid:`, in either case.
pub open spec fn has_urn_prefix(s: Seq<char>) -> bool {
    s.len() >= 9 && ascii_lower(s[0]) == 'u' && ascii_lower(s[1]) == 'r' && ascii_lower(s[2]) == 'n' && s[3] == ':'
        && ascii_lower(s[4]) == 'u' && ascii_lower(s[5]) == 'u' && ascii_lower(s[6]) == 'i' && ascii_lower(s[7]) == 'd'
        && s[8] == ':'
}

/// The 32 hexadecimal digit positions of a text in one of the forms that
/// `uuid::Uuid::parse_str` reads: 32 digits; the hyphenated form; the
/// hyphenated form in braces; or `urn:uuid:` (either case) and the
/// hyphenated form.
pub open spec fn uuid_digits(s: Seq<char>) -> Option<Seq<char>> {
    if s.len() == 32 {
        Some(s)
    } else if s.len() == 36 {
        hyphenated_digits(s)
    } else if s.len() == 38 && s[0] == '{' && s[37] == '}' {
        hyphenated_digits(s.subrange(1, 37))
    } else if s.len() == 45 && has_urn_prefix(s) {
        hyphenated_digits(s.subrange(9, 45))
    } else {
        None
    }
}

/// What `uuid::Uuid::parse_str` makes of a text: the number its 32
/// hexadecimal digits (either case) spell, most significant first, or
/// `None` where the text has none of the accepted forms or a position that
/// should hold a digit does not.
pub open spec fn uuid_parsed(s: Seq<char>) -> Option<u128> {
    match uuid_digits(s) {
        Some(d) => match hex_number(d) {
            Some(n) => Some(n as u128),
            None => None,
        },
        None => None,
    }
}

/// Renders a UUID in its hyphenated form (`Display` of `uuid::Uuid`).
///
/// Claims of `uuid::Uuid::from_u128(u).to_string()` that the text is the
/// hyphenated lower-case rendering of `u`.
#[verifier::external_body]
pub(crate) fn uuid_to_string(u: u128) -> (s: String)
    ensures
        s@ == uuid_hyphenated(u as nat),
{
    uuid::Uuid::from_u128(u).to_string()
}

/// Parses a UUID with `uuid::Uuid::parse_str`.
///
/// Claims that the result is as `uuid_parsed` states the parser's
/// accepted forms and digits.
#[verifier::external_body]
pub(crate) fn parse_uuid(s: &str) -> (r: Option<u128>)
    ensures
        r == uuid_parsed(s@),
{
    match uuid::Uuid::parse_str(s) {
        Ok(u) => Some(u.as_u128()),
        Err(_) => None,
    }
}

/// Renders a UUID in its hyphenated form, which `uuid_from_text` reads
/// back as the same UUID.
pub fn uuid_text(u: u128) -> (s: String)
    ensures
        s@ == uuid_hyphenated(u as nat),
        uuid_parsed(s@) == Some(u),
{
    let s = uuid_to_string(u);
    proof {
        lemma_uuid_text_reads_back(u);
    }
    s
}

/// Reads a UUID in any form that `uuid::Uuid::parse_str` accepts.
pub fn uuid_from_text(s: &str) -> (r: Option<u128>)
    ensures
        r == uuid_parsed(s@),
{
    parse_uuid(s)
}

/// The value of a hexadecimal digit, if `c` is one (either case).
pub open spec fn hex_value(c: char) -> Option<nat> {
    if '0' <= c && c <= '9' {
        Some((c as nat - '0' as nat) as nat)
    } else if 'a' <= c && c <= 'f' {
        Some((c as nat - 'a' as nat + 10) as nat)
    } else if 'A' <= c && c <= 'F' {
        Some((c as nat - 'A' as nat + 10) as nat)
    } else {
        None
    }
}

/// The number that the hexadecimal digits `s` spell, if all are digits.
pub open spec fn hex_number(s: Seq<char>) -> Option<nat>
    decreases s.len(),
{
    if s.len() == 0 {
        Some(0)
    } else {
        match (hex_number(s.drop_last()), hex_value(s.last())) {
            (Some(h), Some(d)) => Some(h * 16 + d),
            _ => None,
        }
    }
}

/// What `u32::from_str_radix(s, 16)` gives: an optional `+`, then at least
/// one hexadecimal digit, and a value that fits in 32 bits.
pub open spec fn hex_u32(s: Seq<char>) -> Option<u32> {
    let digits = if s.len() > 0 && s[0] == '+' {
        s.drop_first()
    } else {
        s
    };
    if digits.len() == 0 {
        None
    } else {
        match hex_number(digits) {
            Some(n) => if n <= u32::MAX {
                Some(n as u32)
            } else {
                None
            },
            None => None,
        }
    }
}

proof fn lemma_hex_number_grows(s: Seq<char>, c: char)
    requires
        hex_number(s) is Some,
        hex_value(c) is Some,
    ensures
        hex_number(s.push(c)) == Some(hex_number(s)->0 * 16 + hex_value(c)->0),
{
    assert(s.push(c).drop_last() =~= s);
}

proof fn lemma_hex_number_fails(s: Seq<char>, t: Seq<char>)
    requires
        hex_number(s) is None,
    ensures
        hex_number(s + t) is None,
    decreases t.len(),
{
    if t.len() == 0 {
        assert(s + t =~= s);
    } else {
        lemma_hex_number_fails(s, t.drop_last());
        assert((s + t).drop_last() =~= s + t.drop_last());
    }
}

proof fn lemma_hex_number_monotone(s: Seq<char>, t: Seq<char>)
    requires
        hex_number(s + t) is Some,
    ensures
        hex_number(s) is Some,
        hex_number(s)->0 <= hex_number(s + t)->0,
    decreases t.len(),
{
    if t.len() == 0 {
        assert(s + t =~= s);
    } else {
        assert((s + t).drop_last() =~= s + t.drop_last());
        lemma_hex_number_monotone(s, t.drop_last());
    }
}

/// `16` to the power `w`.
pub open spec fn pow16(w: nat) -> nat
    decreases w,
{
    if w == 0 {
        1
    } else {
        16 * pow16((w - 1) as nat)
    }
}

proof fn lemma_hex_fixed_len(n: nat, w: nat)
    ensures
        hex_fixed(n, w).len() == w,
    decreases w,
{
    if w > 0 {
        lemma_hex_fixed_len(n / 16, (w - 1) as nat);
    }
}

proof fn lemma_hex_char_value(d: nat)
    requires
        d < 16,
    ensures
        hex_value(hex_char(d)) == Some(d),
{
}

/// The digits `hex_fixed` writes spell the number's lowest `w` digits.
proof fn lemma_hex_fixed_value(n: nat, w: nat)
    ensures
        hex_number(hex_fixed(n, w)) == Some(n % pow16(w)),
    decreases w,
{
    if w == 0 {
        assert(hex_fixed(n, 0) =~= Seq::<char>::empty());
    } else {
        let m = pow16((w - 1) as nat);
        lemma_pow16_positive((w - 1) as nat);
        lemma_hex_fixed_value(n / 16, (w - 1) as nat);
        lemma_hex_char_value(n % 16);
        let pre = hex_fixed(n / 16, (w - 1) as nat);
        assert(hex_fixed(n, w) == pre.push(hex_char(n % 16)));
        lemma_hex_number_grows(pre, hex_char(n % 16));
        vstd::arithmetic::div_mod::lemma_mod_breakdown(n as int, 16, m as int);
        assert(16 * m == pow16(w));
        assert((n / 16 % m) * 16 + n % 16 == n % pow16(w)) by (nonlinear_arith)
            requires
                n % (16 * m) == 16 * ((n / 16) % m) + n % 16,
                16 * m == pow16(w),
        ;
    }
}

proof fn lemma_pow16_positive(w: nat)
    ensures
        pow16(w) > 0,
    decreases w,
{
    if w > 0 {
        lemma_pow16_positive((w - 1) as nat);
    }
}

/// Digits written one after the other spell the first number shifted by
/// the second's digits, plus the second.
proof fn lemma_hex_number_concat(a: Seq<char>, b: Seq<char>)
    requires
        hex_number(a) is Some,
        hex_number(b) is Some,
    ensures
        hex_number(a + b) == Some(hex_number(a)->0 * pow16(b.len()) + hex_number(b)->0),
    decreases b.len(),
{
    if b.len() == 0 {
        assert(a + b =~= a);
        assert(hex_number(b) == Some(0nat));
        assert(pow16(0) == 1);
        assert(hex_number(a)->0 * 1 == hex_number(a)->0);
    } else {
        let c = b.last();
        let bp = b.drop_last();
        assert(hex_number(bp) is Some && hex_value(c) is Some);
        lemma_hex_number_concat(a, bp);
        assert(a + b =~= (a + bp).push(c));
        lemma_hex_number_grows(a + bp, c);
        let x = hex_number(a)->0;
        let y = hex_number(bp)->0;
        let d = hex_value(c)->0;
        let p = pow16(bp.len());
        assert(pow16(b.len()) == 16 * p);
        assert((x * p + y) * 16 + d == x * (16 * p) + (y * 16 + d)) by (nonlinear_arith);
        assert(hex_number(b) == Some(y * 16 + d));
        assert(hex_number(a + b) == Some((x * p + y) * 16 + d));
    }
}

/// The hyphenated form of a UUID reads back as the same UUID.
pub proof fn lemma_uuid_text_reads_back(u: u128)
    ensures
        uuid_parsed(uuid_hyphenated(u as nat)) == Some(u),
{
    let n = u as nat;
    let a = hex_fixed(n / 0x1_0000_0000_0000_0000_0000_0000, 8);
    let b = hex_fixed(n / 0x1_0000_0000_0000_0000_0000, 4);
    let c = hex_fixed(n / 0x1_0000_0000_0000_0000, 4);
    let d = hex_fixed(n / 0x1_0000_0000_0000, 4);
    let e = hex_fixed(n, 12);
    lemma_hex_fixed_len(n / 0x1_0000_0000_0000_0000_0000_0000, 8);
    lemma_hex_fixed_len(n / 0x1_0000_0000_0000_0000_0000, 4);
    lemma_hex_fixed_len(n / 0x1_0000_0000_0000_0000, 4);
    lemma_hex_fixed_len(n / 0x1_0000_0000_0000, 4);
    lemma_hex_fixed_len(n, 12);
    let h = uuid_hyphenated(n);
    assert(h == a + seq!['-'] + b + seq!['-'] + c + seq!['-'] + d + seq!['-'] + e);
    assert(h.len() == 36);
    assert(h.subrange(0, 8) =~= a);
    assert(h.subrange(9, 13) =~= b);
    assert(h.subrange(14, 18) =~= c);
    assert(h.subrange(19, 23) =~= d);
    assert(h.subrange(24, 36) =~= e);
    assert(h[8] == '-' && h[13] == '-' && h[18] == '-' && h[23] == '-');
    assert(uuid_digits(h) == Some(a + b + c + d + e));
    lemma_hex_fixed_value(n / 0x1_0000_0000_0000_0000_0000_0000, 8);
    lemma_hex_fixed_value(n / 0x1_0000_0000_0000_0000_0000, 4);
    lemma_hex_fixed_value(n / 0x1_0000_0000_0000_0000, 4);
    lemma_hex_fixed_value(n / 0x1_0000_0000_0000, 4);
    lemma_hex_fixed_value(n, 12);
    assert(pow16(4) == 0x1_0000) by {
        reveal_with_fuel(pow16, 5);
    }
    assert(pow16(8) == 0x1_0000_0000) by {
        reveal_with_fuel(pow16, 9);
    }
    assert(pow16(12) == 0x1_0000_0000_0000) by {
        reveal_with_fuel(pow16, 13);
    }
    assert(pow16(16) == 0x1_0000_0000_0000_0000) by {
        reveal_with_fuel(pow16, 17);
    }
    assert(pow16(20) == 0x1_0000_0000_0000_0000_0000) by {
        reveal_with_fuel(pow16, 21);
    }
    lemma_hex_number_concat(a, b);
    lemma_hex_number_concat(a + b, c);
    lemma_hex_number_concat(a + b + c, d);
    lemma_hex_number_concat(a + b + c + d, e);
    assert(b.len() == 4 && c.len() == 4 && d.len() == 4 && e.len() == 12);
    assert((a + b).len() == 12);
    let va = (n / 0x1_0000_0000_0000_0000_0000_0000) % 0x1_0000_0000;
    let vb = (n / 0x1_0000_0000_0000_0000_0000) % 0x1_0000;
    let vc = (n / 0x1_0000_0000_0000_0000) % 0x1_0000;
    let vd = (n / 0x1_0000_0000_0000) % 0x1_0000;
    let ve = n % 0x1_0000_0000_0000;
    assert(hex_number(a + b + c + d + e) == Some(((((va * 0x1_0000 + vb) * 0x1_0000 + vc) * 0x1_0000 + vd) * 0x1_0000_0000_0000 + ve) as nat));
    vstd::arithmetic::div_mod::lemma_mod_breakdown(n as int, 0x1_0000_0000_0000, 0x1_0000);
    vstd::arithmetic::div_mod::lemma_mod_breakdown(n as int, 0x1_0000_0000_0000_0000, 0x1_0000);
    vstd::arithmetic::div_mod::lemma_mod_breakdown(n as int, 0x1_0000_0000_0000_0000_0000, 0x1_0000);
    vstd::arithmetic::div_mod::lemma_mod_breakdown(n as int, 0x1_0000_0000_0000_0000_0000_0000, 0x1_0000_0000);
    assert(n % 0x1_0000_0000_0000_0000_0000_0000_0000_0000nat == n) by {
        vstd::arithmetic::div_mod::lemma_small_mod(n, 0x1_0000_0000_0000_0000_0000_0000_0000_0000nat);
    }
    assert(((((va * 0x1_0000 + vb) * 0x1_0000 + vc) * 0x1_0000 + vd) * 0x1_0000_0000_0000 + ve) == n) by (nonlinear_arith)
        requires
            n % 0x1_0000_0000_0000_0000 == 0x1_0000_0000_0000 * vd + ve,
            n % 0x1_0000_0000_0000_0000_0000 == 0x1_0000_0000_0000_0000 * vc + n % 0x1_0000_0000_0000_0000,
            n % 0x1_0000_0000_0000_0000_0000_0000 == 0x1_0000_0000_0000_0000_0000 * vb + n % 0x1_0000_0000_0000_0000_0000,
            n % 0x1_0000_0000_0000_0000_0000_0000_0000_0000nat == 0x1_0000_0000_0000_0000_0000_0000 * va + n % 0x1_0000_0000_0000_0000_0000_0000,
            n % 0x1_0000_0000_0000_0000_0000_0000_0000_0000nat == n,
    ;
}

/// Parses an unsigned 32-bit hexadecimal number as `u32::from_str_radix`
/// with radix 16 does.
pub fn parse_hex_u32(s: &[char]) -> (r: Option<u32>)
    ensures
        r == hex_u32(s@),
{
    let start: usize = if s.len() > 0 && s[0] == '+' {
        1
    } else {
        0
    };
    let ghost digits = if s@.len() > 0 && s@[0] == '+' {
        s@.drop_first()
    } else {
        s@
    };
    assert(digits =~= s@.subrange(start as int, s@.len() as int));
    if start == s.len() {
        return None;
    }
    let mut acc: u64 = 0;
    let mut i: usize = start;
    while i < s.len()
        invariant
            start <= i <= s@.len(),
            start < s@.len(),
            digits == s@.subrange(start as int, s@.len() as int),
            digits == (if s@.len() > 0 && s@[0] == '+' {
                s@.drop_first()
            } else {
                s@
            }),
            hex_number(s@.subrange(start as int, i as int)) == Some(acc as nat),
            acc <= u32::MAX,
        decreases s@.len() - i,
    {
        let c = s[i];
        let ghost pre = s@.subrange(start as int, i as int);
        assert(s@.subrange(start as int, i + 1) =~= pre.push(c));
        let d: u64 = if '0' <= c && c <= '9' {
            (c as u64) - ('0' as u64)
        } else if 'a' <= c && c <= 'f' {
            (c as u64) - ('a' as u64) + 10
        } else if 'A' <= c && c <= 'F' {
            (c as u64) - ('A' as u64) + 10
        } else {
            proof {
                assert(hex_number(pre.push(c)) is None);
                lemma_hex_number_fails(pre.push(c), s@.subrange(i + 1, s@.len() as int));
                assert(pre.push(c) + s@.subrange(i + 1, s@.len() as int) =~= digits);
            }
            return None;
        };
        proof {
            lemma_hex_number_grows(pre, c);
        }
        acc = acc * 16 + d;
        if acc > 0xffff_ffff {
            proof {
                let rest = s@.subrange(i + 1, s@.len() as int);
                assert(pre.push(c) + rest =~= digits);
                if hex_number(digits) is Some {
                    lemma_hex_number_monotone(pre.push(c), rest);
                }
            }
            return None;
        }
        i = i + 1;
    }
    assert(s@.subrange(start as int, s@.len() as int) =~= digits);
    Some(acc as u32)
}

/// The short identifier of a server: the first 32 bits of its UUID, read
/// as a signed number (`Uuid::as_fields().0 as i32`).
pub open spec fn spec_uuid_short(u: u128) -> i32 {
    ((u / 0x1_0000_0000_0000_0000_0000_0000) as u32) as i32
}

/// The short identifier that a server with UUID `u` is given.
pub fn uuid_short_of(u: u128) -> (r: i32)
    ensures
        r == spec_uuid_short(u),
{
    let top = u / 0x1_0000_0000_0000_0000_0000_0000u128;
    (top as u32) as i32
}

/// The eight hexadecimal digits that a short identifier is shown as
/// (`format!("{:08x}", short)`, which renders the 32-bit pattern).
pub fn uuid_short_text(short: i32) -> (s: String)
    ensures
        s@ == hex_fixed((short as u32) as nat, 8),
{
    let mut s = String::new();
    push_hex_fixed(&mut s, (short as u32) as u128, 8);
    assert(s@ =~= hex_fixed((short as u32) as nat, 8));
    s
}

} // verus!
