//! Percent-encoding of URL path segments and query components.

use vstd::prelude::*;
use crate::text::{is_ascii_alnum, push_char};

verus! {

/// Upper-case hexadecimal digit for `d < 16`.
pub open spec fn hex_upper(d: nat) -> char {
    if d < 10 {
        ((48 + d) as u8) as char
    } else {
        ((55 + d) as u8) as char
    }
}

/// Value of an upper-case hexadecimal digit.
pub open spec fn hex_value(c: char) -> int {
    if '0' <= c <= '9' {
        (c as int) - 48
    } else {
        (c as int) - 55
    }
}

/// Bytes left as they are. Path segments keep the RFC 3986 unreserved set;
/// query components additionally keep `!`, `(`, `)` and `*`.
pub open spec fn keeps(b: u8, query: bool) -> bool {
    ||| is_ascii_alnum(b)
    ||| b == 45 || b == 46 || b == 95 || b == 126
    ||| (query && (b == 33 || b == 40 || b == 41 || b == 42))
}

/// The encoding of one byte: itself, or `%` and two upper-case hex digits.
pub open spec fn encode_byte(b: u8, query: bool) -> Seq<char> {
    if keeps(b, query) {
        seq![b as char]
    } else {
        seq!['%', hex_upper((b / 16) as nat), hex_upper((b % 16) as nat)]
    }
}

/// Percent-encoding of a byte string.
pub open spec fn percent_encode(bytes: Seq<u8>, query: bool) -> Seq<char>
    decreases bytes.len(),
{
    if bytes.len() == 0 {
        Seq::empty()
    } else {
        percent_encode(bytes.drop_last(), query) + encode_byte(bytes.last(), query)
    }
}

/// Percent-decoding: `%XY` gives the byte `0xXY`, any other character its own
/// code.
pub open spec fn percent_decode(cs: Seq<char>) -> Seq<u8>
    decreases cs.len(),
{
    if cs.len() == 0 {
        Seq::empty()
    } else if cs[0] == '%' && cs.len() >= 3 {
        seq![(hex_value(cs[1]) * 16 + hex_value(cs[2])) as u8] + percent_decode(
            cs.subrange(3, cs.len() as int),
        )
    } else {
        seq![cs[0] as u8] + percent_decode(cs.drop_first())
    }
}

/// Characters that an encoded component can hold: the kept set, `%`, and
/// upper-case hex digits (which the kept set already holds).
pub open spec fn encoded_char(c: char, query: bool) -> bool {
    c == '%' || (c as int) < 256 && keeps(c as u8, query)
}

fn hex_digit(d: u8) -> (c: char)
    requires
        d < 16,
    ensures
        c == hex_upper(d as nat),
{
    if d < 10 {
        (48 + d) as char
    } else {
        (55 + d) as char
    }
}

fn kept(b: u8, query: bool) -> (r: bool)
    ensures
        r == keeps(b, query),
{
    (48 <= b && b <= 57) || (65 <= b && b <= 90) || (97 <= b && b <= 122) || b == 45 || b == 46
        || b == 95 || b == 126 || (query && (b == 33 || b == 40 || b == 41 || b == 42))
}

/// Appends the percent-encoding of `s`'s UTF-8 bytes to `out`.
pub fn push_percent_encoded(out: &mut String, s: &str, query: bool)
    ensures
        final(out)@ == old(out)@ + percent_encode(vstd::utf8::encode_utf8(s@), query),
{
    let bytes = s.as_bytes();
    let n = bytes.len();
    let ghost b = bytes@;
    let mut i: usize = 0;
    assert(b.take(0) =~= Seq::<u8>::empty());
    assert(old(out)@ + percent_encode(b.take(0), query) =~= old(out)@);
    while i < n
        invariant
            n == b.len(),
            b == bytes@,
            b == vstd::utf8::encode_utf8(s@),
            0 <= i <= n,
            out@ == old(out)@ + percent_encode(b.take(i as int), query),
        decreases n - i,
    {
        let x = bytes[i];
        let ghost before = out@;
        if kept(x, query) {
            push_char(out, x as char);
        } else {
            push_char(out, '%');
            push_char(out, hex_digit(x / 16));
            push_char(out, hex_digit(x % 16));
        }
        assert(b.take(i + 1).drop_last() =~= b.take(i as int));
        assert(b.take(i + 1).last() == x);
        assert(out@ =~= before + encode_byte(x, query));
        i += 1;
    }
    assert(b.take(n as int) =~= b);
}

/// Percent-encoding distributes over concatenation.
pub proof fn lemma_encode_concat(a: Seq<u8>, b: Seq<u8>, query: bool)
    ensures
        percent_encode(a + b, query) == percent_encode(a, query) + percent_encode(b, query),
    decreases b.len(),
{
    if b.len() == 0 {
        assert(a + b =~= a);
        assert(percent_encode(a, query) + percent_encode(b, query) =~= percent_encode(a, query));
    } else {
        lemma_encode_concat(a, b.drop_last(), query);
        assert((a + b).drop_last() =~= a + b.drop_last());
        assert((a + b).last() == b.last());
        assert(percent_encode(a + b, query) =~= percent_encode(a, query) + percent_encode(
            b,
            query,
        ));
    }
}

proof fn lemma_decode_prefix(x: u8, rest: Seq<char>, query: bool)
    ensures
        percent_decode(encode_byte(x, query) + rest) == seq![x] + percent_decode(rest),
{
    let e = encode_byte(x, query);
    let cs = e + rest;
    if keeps(x, query) {
        assert(cs[0] == x as char);
        assert(x as char != '%');
        assert(cs.drop_first() =~= rest);
        assert((x as char) as u8 == x);
    } else {
        assert(cs[0] == '%');
        assert(cs.subrange(3, cs.len() as int) =~= rest);
        let hi = (x / 16) as nat;
        let lo = (x % 16) as nat;
        assert(hex_value(hex_upper(hi)) == hi);
        assert(hex_value(hex_upper(lo)) == lo);
        assert(hi * 16 + lo == x);
    }
}

/// Decoding an encoded byte string gives the bytes back.
pub proof fn lemma_decode_encode(b: Seq<u8>, query: bool)
    ensures
        percent_decode(percent_encode(b, query)) == b,
    decreases b.len(),
{
    if b.len() == 0 {
    } else {
        let rest = b.drop_first();
        lemma_decode_encode(rest, query);
        assert(b =~= seq![b[0]] + rest);
        lemma_encode_concat(seq![b[0]], rest, query);
        let one = seq![b[0]];
        assert(one.drop_last() =~= Seq::<u8>::empty());
        assert(one.last() == b[0]);
        assert(percent_encode(one.drop_last(), query) =~= Seq::<char>::empty());
        assert(percent_encode(one, query) == percent_encode(one.drop_last(), query) + encode_byte(
            one.last(),
            query,
        ));
        assert(percent_encode(one, query) =~= encode_byte(b[0], query));
        lemma_decode_prefix(b[0], percent_encode(rest, query), query);
        assert(seq![b[0]] + rest =~= b);
    }
}

/// Every character of an encoded component is a kept character or `%`.
pub proof fn lemma_encoded_chars(b: Seq<u8>, query: bool)
    ensures
        forall|i: int|
            0 <= i < percent_encode(b, query).len() ==> encoded_char(
                #[trigger] percent_encode(b, query)[i],
                query,
            ),
    decreases b.len(),
{
    if b.len() > 0 {
        lemma_encoded_chars(b.drop_last(), query);
        let x = b.last();
        let e = encode_byte(x, query);
        let p = percent_encode(b.drop_last(), query);
        assert forall|i: int| 0 <= i < e.len() implies encoded_char(#[trigger] e[i], query) by {
            if keeps(x, query) {
                assert((x as char) as u8 == x);
            } else {
                let hi = (x / 16) as nat;
                let lo = (x % 16) as nat;
                assert(keeps(hex_upper(hi) as u8, query));
                assert(keeps(hex_upper(lo) as u8, query));
            }
        }
        assert forall|i: int| 0 <= i < (p + e).len() implies encoded_char(#[trigger] (p + e)[i], query) by {
            if i < p.len() {
                assert((p + e)[i] == p[i]);
            } else {
                assert((p + e)[i] == e[i - p.len()]);
            }
        }
    }
}

} // verus!
