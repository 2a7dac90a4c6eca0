//! Percent-encoding of query values: unreserved characters stay, a space
//! becomes `%20`, and every other character becomes the `%XX` escapes of its
//! UTF-8 bytes, in upper-case hexadecimal.

use vstd::prelude::*;
use vstd::utf8::encode_utf8;
use crate::text::{chars_of, push_char};

verus! {

/// Whether a character passes through unchanged: an ASCII letter or digit,
/// or one of `-`, `_`, `.`, `~`.
pub open spec fn is_unreserved(c: char) -> bool {
    ('a' <= c && c <= 'z') || ('A' <= c && c <= 'Z') || ('0' <= c && c <= '9') || c == '-'
        || c == '_' || c == '.' || c == '~'
}

/// The upper-case hexadecimal digit of a value below 16.
pub open spec fn hex_upper(n: int) -> char {
    if n < 10 {
        (48 + n) as char
    } else {
        (55 + n) as char
    }
}

/// The escape `%XX` of one byte.
pub open spec fn percent_byte(b: u8) -> Seq<char> {
    seq!['%', hex_upper(b as int / 16), hex_upper(b as int % 16)]
}

/// The escapes of a sequence of bytes, one after the other.
pub open spec fn percent_bytes(bs: Seq<u8>) -> Seq<char>
    decreases bs.len(),
{
    if bs.len() == 0 {
        Seq::empty()
    } else {
        percent_bytes(bs.drop_last()) + percent_byte(bs.last())
    }
}

/// What one character becomes in an encoded query value.
pub open spec fn encoded_char(c: char) -> Seq<char> {
    if is_unreserved(c) {
        seq![c]
    } else if c == ' ' {
        seq!['%', '2', '0']
    } else {
        percent_bytes(encode_utf8(seq![c]))
    }
}

/// The encoding of a text: the encodings of its characters, in order.
pub open spec fn url_encoded(s: Seq<char>) -> Seq<char>
    decreases s.len(),
{
    if s.len() == 0 {
        Seq::empty()
    } else {
        url_encoded(s.drop_last()) + encoded_char(s.last())
    }
}

/// Whether a character passes through the encoding unchanged.
pub fn unreserved(c: char) -> (r: bool)
    ensures
        r == is_unreserved(c),
{
    ('a' <= c && c <= 'z') || ('A' <= c && c <= 'Z') || ('0' <= c && c <= '9') || c == '-'
        || c == '_' || c == '.' || c == '~'
}

/// The upper-case hexadecimal digit of a value below 16.
fn hex_digit_upper(n: u8) -> (c: char)
    requires
        n < 16,
    ensures
        c == hex_upper(n as int),
{
    if n < 10 {
        (48 + n) as char
    } else {
        (55 + n) as char
    }
}

/// Appends the escape `%XX` of each byte to `out`.
fn push_percent_bytes(out: &mut String, bytes: &[u8])
    ensures
        final(out)@ == old(out)@ + percent_bytes(bytes@),
{
    let mut i: usize = 0;
    while i < bytes.len()
        invariant
            i <= bytes.len(),
            out@ == old(out)@ + percent_bytes(bytes@.take(i as int)),
        decreases bytes.len() - i,
    {
        let b = bytes[i];
        push_char(out, '%');
        push_char(out, hex_digit_upper(b / 16));
        push_char(out, hex_digit_upper(b % 16));
        proof {
            let next = bytes@.take(i + 1);
            assert(next.drop_last() =~= bytes@.take(i as int));
            assert(next.last() == b);
        }
        i = i + 1;
    }
    assert(bytes@.take(bytes@.len() as int) =~= bytes@);
}

/// Percent-encodes a text for use as a query value in a URL.
pub fn encode(s: &str) -> (r: String)
    ensures
        r@ == url_encoded(s@),
{
    let cs = chars_of(s);
    let mut result = String::new();
    let mut i: usize = 0;
    while i < cs.len()
        invariant
            cs@ == s@,
            i <= cs.len(),
            result@ == url_encoded(cs@.take(i as int)),
        decreases cs.len() - i,
    {
        let c = cs[i];
        if unreserved(c) {
            push_char(&mut result, c);
        } else if c == ' ' {
            push_char(&mut result, '%');
            push_char(&mut result, '2');
            push_char(&mut result, '0');
        } else {
            let mut one = String::new();
            push_char(&mut one, c);
            assert(one@ =~= seq![c]);
            push_percent_bytes(&mut result, one.as_str().as_bytes());
        }
        proof {
            let next = cs@.take(i + 1);
            assert(next.drop_last() =~= cs@.take(i as int));
            assert(next.last() == c);
        }
        i = i + 1;
    }
    assert(cs@.take(cs@.len() as int) =~= s@);
    result
}

/// Text made only of unreserved characters is left as it is.
pub proof fn law_encode_keeps_unreserved(s: Seq<char>)
    requires
        forall|i: int| 0 <= i < s.len() ==> is_unreserved(#[trigger] s[i]),
    ensures
        url_encoded(s) == s,
    decreases s.len(),
{
    if s.len() > 0 {
        let init = s.drop_last();
        assert forall|i: int| 0 <= i < init.len() implies is_unreserved(#[trigger] init[i]) by {
            assert(init[i] == s[i]);
        }
        law_encode_keeps_unreserved(init);
        assert(s =~= init + seq![s.last()]);
    }
}

/// Whether a character may appear in an encoded text: an ASCII letter or
/// digit, one of `-`, `_`, `.`, `~`, or the `%` that starts an escape. No
/// character that has a meaning in a URL (`#`, `&`, `=`, `+`, `?`, `/`, a
/// space) is among them.
pub open spec fn is_url_safe(c: char) -> bool {
    ||| 'a' <= c && c <= 'z'
    ||| 'A' <= c && c <= 'Z'
    ||| '0' <= c && c <= '9'
    ||| c == '-'
    ||| c == '_'
    ||| c == '.'
    ||| c == '~'
    ||| c == '%'
}

proof fn lemma_percent_bytes_safe(bs: Seq<u8>)
    ensures
        forall|i: int| 0 <= i < percent_bytes(bs).len() ==> is_url_safe(#[trigger] percent_bytes(bs)[i]),
    decreases bs.len(),
{
    if bs.len() > 0 {
        lemma_percent_bytes_safe(bs.drop_last());
        let b = bs.last();
        assert(0 <= b as int / 16 < 16);
        assert(0 <= b as int % 16 < 16);
        let p = percent_byte(b);
        assert forall|i: int| 0 <= i < p.len() implies is_url_safe(#[trigger] p[i]) by {}
        let whole = percent_bytes(bs.drop_last()) + p;
        assert forall|i: int| 0 <= i < whole.len() implies is_url_safe(#[trigger] whole[i]) by {
            if i >= percent_bytes(bs.drop_last()).len() {
                assert(whole[i] == p[i - percent_bytes(bs.drop_last()).len()]);
            }
        }
    }
}

/// An encoded text holds only unreserved characters, `%` and upper-case
/// hexadecimal digits, whatever the text was.
pub proof fn law_encoded_is_url_safe(s: Seq<char>)
    ensures
        forall|i: int| 0 <= i < url_encoded(s).len() ==> is_url_safe(#[trigger] url_encoded(s)[i]),
    decreases s.len(),
{
    if s.len() > 0 {
        law_encoded_is_url_safe(s.drop_last());
        let c = s.last();
        let e = encoded_char(c);
        if !is_unreserved(c) && c != ' ' {
            lemma_percent_bytes_safe(encode_utf8(seq![c]));
        }
        assert forall|i: int| 0 <= i < e.len() implies is_url_safe(#[trigger] e[i]) by {}
        let prefix = url_encoded(s.drop_last());
        let whole = prefix + e;
        assert forall|i: int| 0 <= i < whole.len() implies is_url_safe(#[trigger] whole[i]) by {
            if i >= prefix.len() {
                assert(whole[i] == e[i - prefix.len()]);
            }
        }
    }
}

/// Each character is encoded on its own: encoding two texts one after the
/// other gives the encoding of the first followed by that of the second.
pub proof fn law_encode_concatenation(a: Seq<char>, b: Seq<char>)
    ensures
        url_encoded(a + b) == url_encoded(a) + url_encoded(b),
    decreases b.len(),
{
    if b.len() == 0 {
        assert(a + b =~= a);
        assert(url_encoded(a) + url_encoded(b) =~= url_encoded(a));
    } else {
        law_encode_concatenation(a, b.drop_last());
        assert((a + b).drop_last() =~= a + b.drop_last());
        assert((a + b).last() == b.last());
        assert(url_encoded(a + b) =~= url_encoded(a) + url_encoded(b));
    }
}

/// Characters that have a meaning in a URL never appear in an encoded
/// text, and a character other than an ASCII letter or digit, `-`, `_`,
/// `.`, `~` or `%` is never passed through as it is.
pub proof fn law_encoded_has_no_url_delimiters(s: Seq<char>)
    ensures
        forall|i: int|
            0 <= i < url_encoded(s).len() ==> {
                let c = #[trigger] url_encoded(s)[i];
                c != '#' && c != '&' && c != '=' && c != '+' && c != '?' && c != '/' && c != ' '
            },
        forall|c: char| !is_url_safe(c) ==> #[trigger] encoded_char(c) != seq![c],
{
    law_encoded_is_url_safe(s);
    assert forall|c: char| !is_url_safe(c) implies #[trigger] encoded_char(c) != seq![c] by {
        if c == ' ' {
            assert(encoded_char(c)[0] == '%');
        } else {
            lemma_percent_bytes_safe(encode_utf8(seq![c]));
            let e = encoded_char(c);
            if e == seq![c] {
                assert(e[0] == c);
                assert(is_url_safe(e[0]));
            }
        }
    }
}

proof fn lemma_percent_bytes_len(bs: Seq<u8>)
    ensures
        percent_bytes(bs).len() == 3 * bs.len(),
    decreases bs.len(),
{
    if bs.len() > 0 {
        lemma_percent_bytes_len(bs.drop_last());
    }
}

/// A character is passed through unchanged exactly when it is an ASCII
/// letter or digit or one of `-`, `_`, `.`, `~`; every other character,
/// `%` and the space among them, becomes an escape.
pub proof fn law_passes_exactly_unreserved(c: char)
    ensures
        (encoded_char(c) == seq![c]) == (('a' <= c && c <= 'z') || ('A' <= c && c <= 'Z') || ('0' <= c
            && c <= '9') || c == '-' || c == '_' || c == '.' || c == '~'),
{
    if !is_unreserved(c) && c != ' ' {
        let bytes = encode_utf8(seq![c]);
        assert(seq![c].drop_first() =~= Seq::<char>::empty());
        assert(bytes == vstd::utf8::encode_scalar(c as u32) + encode_utf8(Seq::<char>::empty()));
        assert(vstd::utf8::encode_scalar(c as u32).len() >= 1);
        lemma_percent_bytes_len(bytes);
        assert(encoded_char(c).len() != 1);
    }
    if c == ' ' {
        assert(encoded_char(c).len() == 3);
    }
}

} // verus!
