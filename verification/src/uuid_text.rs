//! The text form of a UUID, as `uuid::Uuid` displays it: the 32 lower-case
//! hexadecimal digits of its 128-bit value, grouped 8-4-4-4-12 by hyphens.

use vstd::prelude::*;
use crate::text::push_char;

verus! {

/// The 128-bit value of a UUID, its bytes read in order (big-endian).
pub uninterp spec fn uuid_value(id: uuid::Uuid) -> u128;

/// The 128-bit value of a UUID, from `uuid::Uuid::as_u128`.
#[verifier::external_body]
pub(crate) fn uuid_as_u128(id: &uuid::Uuid) -> (v: u128)
    ensures
        v == uuid_value(*id),
{
    id.as_u128()
}

/// The lower-case hexadecimal digit of a value below 16.
pub open spec fn hex_lower(n: int) -> char {
    if n < 10 {
        (48 + n) as char
    } else {
        (87 + n) as char
    }
}

/// The last `n` hexadecimal digits of `v`, most significant first.
pub open spec fn hex_digits(v: nat, n: nat) -> Seq<char>
    decreases n,
{
    if n == 0 {
        Seq::empty()
    } else {
        hex_digits(v / 16, (n - 1) as nat).push(hex_lower(v as int % 16))
    }
}

/// Thirty-two digits grouped 8-4-4-4-12 by hyphens.
pub open spec fn hyphenated(d: Seq<char>) -> Seq<char> {
    d.subrange(0, 8) + seq!['-'] + d.subrange(8, 12) + seq!['-'] + d.subrange(12, 16) + seq!['-']
        + d.subrange(16, 20) + seq!['-'] + d.subrange(20, 32)
}

/// The hyphenated text of a 128-bit UUID value.
pub open spec fn uuid_text_of(v: u128) -> Seq<char> {
    hyphenated(hex_digits(v as nat, 32))
}

/// The lower-case hexadecimal digit of a value below 16.
fn hex_digit_lower(n: u8) -> (c: char)
    requires
        n < 16,
    ensures
        c == hex_lower(n as int),
{
    if n < 10 {
        (48 + n) as char
    } else {
        (87 + n) as char
    }
}

/// The last `n` hexadecimal digits of `v`, most significant first.
fn hex_digits_of(v: u128, n: usize) -> (r: Vec<char>)
    ensures
        r@ == hex_digits(v as nat, n as nat),
        r@.len() == n,
    decreases n,
{
    if n == 0 {
        Vec::new()
    } else {
        let mut r = hex_digits_of(v / 16, n - 1);
        r.push(hex_digit_lower((v % 16) as u8));
        r
    }
}

/// Appends the characters of `d` from `start` up to `end` to `out`.
fn push_range(out: &mut String, d: &Vec<char>, start: usize, end: usize)
    requires
        start <= end <= d@.len(),
    ensures
        final(out)@ == old(out)@ + d@.subrange(start as int, end as int),
{
    let mut i = start;
    while i < end
        invariant
            start <= i <= end <= d@.len(),
            out@ == old(out)@ + d@.subrange(start as int, i as int),
        decreases end - i,
    {
        push_char(out, d[i]);
        assert(d@.subrange(start as int, i + 1) =~= d@.subrange(start as int, i as int).push(d@[i as int]));
        i = i + 1;
    }
}

/// The hyphenated lower-case text of a UUID, as `uuid::Uuid` displays it.
pub fn uuid_to_text(id: &uuid::Uuid) -> (r: String)
    ensures
        r@ == uuid_text_of(uuid_value(*id)),
{
    let v = uuid_as_u128(id);
    let d = hex_digits_of(v, 32);
    let mut out = String::new();
    push_range(&mut out, &d, 0, 8);
    push_char(&mut out, '-');
    push_range(&mut out, &d, 8, 12);
    push_char(&mut out, '-');
    push_range(&mut out, &d, 12, 16);
    push_char(&mut out, '-');
    push_range(&mut out, &d, 16, 20);
    push_char(&mut out, '-');
    push_range(&mut out, &d, 20, 32);
    assert(out@ =~= hyphenated(d@));
    out
}

} // verus!
