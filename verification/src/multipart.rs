//! Small multipart/form-data helpers for file uploads: a boundary that the
//! payload does not contain, the part's content type, and the encoded body.

use vstd::prelude::*;
use vstd::set_lib::{lemma_int_range, lemma_len_subset, lemma_map_size, set_int_range};

use crate::config::{header_value_ok, valid_header_value};
use crate::error::{Error, Result};
use crate::text::{dec, digit_char, push_char, push_decimal, push_str};

verus! {

/// The UTF-8 bytes of a text.
pub open spec fn utf8(s: Seq<char>) -> Seq<u8> {
    vstd::utf8::encode_utf8(s)
}

/// `needle` occurs in `hay` starting at `p`.
pub open spec fn occurs_at(hay: Seq<u8>, needle: Seq<u8>, p: int) -> bool {
    0 <= p && p + needle.len() <= hay.len() && hay.subrange(p, p + needle.len()) == needle
}

/// A non-empty `needle` occurs somewhere in `hay`.
pub open spec fn contains_seq(hay: Seq<u8>, needle: Seq<u8>) -> bool {
    needle.len() > 0 && exists|p: int| #[trigger] occurs_at(hay, needle, p)
}

/// The `i`-th boundary candidate: `blooio-form-boundary-` and `i` in decimal.
pub open spec fn boundary_text(i: nat) -> Seq<char> {
    "blooio-form-boundary-"@ + dec(i)
}

/// Whether `haystack` contains the non-empty `needle`.
pub fn contains_bytes(haystack: &[u8], needle: &[u8]) -> (r: bool)
    ensures
        r == contains_seq(haystack@, needle@),
{
    let n = needle.len();
    if n == 0 {
        return false;
    }
    if n > haystack.len() {
        return false;
    }
    let last = haystack.len() - n;
    let mut p: usize = 0;
    while p <= last
        invariant
            n == needle@.len(),
            n > 0,
            last + n == haystack@.len(),
            haystack@.len() <= usize::MAX,
            0 <= p <= last + 1,
            forall|q: int| 0 <= q < p ==> !occurs_at(haystack@, needle@, q),
        decreases last + 1 - p,
    {
        let mut k: usize = 0;
        let mut same = true;
        while k < n
            invariant
                n == needle@.len(),
                p <= last,
                last + n == haystack@.len(),
                haystack@.len() <= usize::MAX,
                0 <= k <= n,
                same == forall|t: int| 0 <= t < k ==> haystack@[p + t] == needle@[t],
            decreases n - k,
        {
            if haystack[p + k] != needle[k] {
                same = false;
            }
            k += 1;
        }
        if same {
            assert(haystack@.subrange(p as int, p + n) =~= needle@);
            assert(occurs_at(haystack@, needle@, p as int));
            return true;
        }
        assert(!occurs_at(haystack@, needle@, p as int)) by {
            let t = choose|t: int| 0 <= t < n && haystack@[p + t] != needle@[t];
            assert(haystack@.subrange(p as int, p + n)[t] != needle@[t]);
        }
        p += 1;
    }
    assert forall|q: int| !occurs_at(haystack@, needle@, q) by {
        if 0 <= q && q + n <= haystack@.len() {
            assert(q < p);
        }
    }
    false
}

/// The characters of a decimal text are digits.
proof fn lemma_dec_digits(n: nat)
    ensures
        dec(n).len() >= 1,
        n >= 10 ==> dec(n).len() >= 2,
        forall|k: int| 0 <= k < dec(n).len() ==> '0' <= #[trigger] dec(n)[k] <= '9',
    decreases n,
{
    if n >= 10 {
        lemma_dec_digits(n / 10);
    }
}

/// Decimal texts of different numbers differ.
proof fn lemma_dec_injective(a: nat, b: nat)
    requires
        dec(a) == dec(b),
    ensures
        a == b,
    decreases a,
{
    lemma_dec_digits(a);
    lemma_dec_digits(b);
    if a >= 10 && b >= 10 {
        assert(dec(a).drop_last() == dec(a / 10));
        assert(dec(b).drop_last() == dec(b / 10));
        assert(dec(a).last() == digit_char((a % 10) as nat));
        lemma_dec_injective(a / 10, b / 10);
    } else if a < 10 && b < 10 {
        assert(dec(a)[0] == digit_char(a));
        assert(dec(b)[0] == digit_char(b));
    }
}

/// The bytes of a boundary candidate: the character codes of its ASCII text.
proof fn lemma_boundary_bytes(i: nat)
    ensures
        utf8(boundary_text(i)).len() == boundary_text(i).len(),
        boundary_text(i).len() == 21 + dec(i).len(),
        forall|k: int|
            0 <= k < boundary_text(i).len() ==> #[trigger] utf8(boundary_text(i))[k]
                == boundary_text(i)[k] as u8,
        utf8(boundary_text(i))[20] == 45,
        forall|k: int|
            21 <= k < boundary_text(i).len() ==> 48 <= #[trigger] utf8(boundary_text(i))[k] <= 57,
{
    reveal_strlit("blooio-form-boundary-");
    lemma_dec_digits(i);
    let t = boundary_text(i);
    assert(vstd::utf8::is_ascii_chars(t)) by {
        assert forall|k: int| 0 <= k < t.len() implies '\0' <= #[trigger] t[k] <= '\u{7f}' by {
            if k >= 21 {
                assert(t[k] == dec(i)[k - 21]);
            }
        }
    }
    vstd::utf8::is_ascii_chars_encode_utf8(t);
    assert(t[20] == '-');
    assert forall|k: int| 21 <= k < t.len() implies 48 <= #[trigger] utf8(t)[k] <= 57 by {
        assert(t[k] == dec(i)[k - 21]);
    }
}

/// Two candidates that both occur in `hay` and end at the same byte are the
/// same candidate: the shorter one's `-` would face a digit of the longer.
proof fn lemma_same_end(hay: Seq<u8>, i: nat, j: nat, pi: int, pj: int)
    requires
        occurs_at(hay, utf8(boundary_text(i)), pi),
        occurs_at(hay, utf8(boundary_text(j)), pj),
        pi + utf8(boundary_text(i)).len() == pj + utf8(boundary_text(j)).len(),
        utf8(boundary_text(i)).len() <= utf8(boundary_text(j)).len(),
    ensures
        i == j,
{
    lemma_boundary_bytes(i);
    lemma_boundary_bytes(j);
    let a = utf8(boundary_text(i));
    let b = utf8(boundary_text(j));
    let d = b.len() - a.len();
    assert(pi == pj + d);
    if d > 0 {
        assert(hay.subrange(pi, pi + a.len())[20] == a[20]);
        assert(hay.subrange(pj, pj + b.len())[20 + d] == b[20 + d]);
        assert(hay[pi + 20] == a[20]);
        assert(hay[pj + 20 + d] == b[20 + d]);
        assert(false);
    } else {
        assert(a =~= b) by {
            assert forall|k: int| 0 <= k < a.len() implies a[k] == b[k] by {
                assert(hay.subrange(pi, pi + a.len())[k] == a[k]);
                assert(hay.subrange(pj, pj + b.len())[k] == b[k]);
            }
        }
        let ti = boundary_text(i);
        let tj = boundary_text(j);
        assert(ti =~= tj) by {
            assert forall|k: int| 0 <= k < ti.len() implies ti[k] == tj[k] by {
                assert(a[k] == b[k]);
                if k >= 21 {
                    assert(ti[k] == dec(i)[k - 21]);
                    assert(tj[k] == dec(j)[k - 21]);
                    lemma_dec_digits(i);
                    lemma_dec_digits(j);
                    assert('0' <= ti[k] <= '9');
                    assert('0' <= tj[k] <= '9');
                    assert(ti[k] as u8 == tj[k] as u8);
                }
            }
        }
        assert(dec(i) =~= ti.subrange(21, ti.len() as int));
        assert(dec(j) =~= tj.subrange(21, tj.len() as int));
        lemma_dec_injective(i, j);
    }
}

/// Where a candidate that occurs in `hay` ends (one past its last byte).
spec fn end_of(hay: Seq<u8>, i: nat) -> int {
    (choose|p: int| #[trigger] occurs_at(hay, utf8(boundary_text(i)), p)) + utf8(boundary_text(i)).len()
}

/// Not every candidate among the first `hay.len() + 1` occurs in `hay`: the
/// candidates that occur end at distinct positions, and there are only
/// `hay.len()` positions where a candidate can end.
proof fn lemma_some_candidate_absent(hay: Seq<u8>)
    ensures
        exists|i: nat| i <= hay.len() && !contains_seq(hay, #[trigger] utf8(boundary_text(i))),
{
    let n: int = hay.len() as int;
    if forall|i: nat| i <= n ==> contains_seq(hay, #[trigger] utf8(boundary_text(i))) {
        let idx = Set::new(|i: int| 0 <= i <= n);
        assert(idx =~= set_int_range(0, n + 1));
        lemma_int_range(0, n + 1);
        let f = |i: int| end_of(hay, i as nat);
        assert(vstd::relations::injective_on(f, idx)) by {
            assert forall|x: int, y: int|
                idx.contains(x) && idx.contains(y) && #[trigger] f(x) == #[trigger] f(y) implies x
                == y by {
                let px = choose|p: int| #[trigger] occurs_at(hay, utf8(boundary_text(x as nat)), p);
                let py = choose|p: int| #[trigger] occurs_at(hay, utf8(boundary_text(y as nat)), p);
                assert(contains_seq(hay, utf8(boundary_text(x as nat))));
                assert(contains_seq(hay, utf8(boundary_text(y as nat))));
                if utf8(boundary_text(x as nat)).len() <= utf8(boundary_text(y as nat)).len() {
                    lemma_same_end(hay, x as nat, y as nat, px, py);
                } else {
                    lemma_same_end(hay, y as nat, x as nat, py, px);
                }
            }
        }
        let img = idx.map(f);
        lemma_map_size(idx, img, f);
        assert(img.subset_of(set_int_range(1, n + 1))) by {
            assert forall|e: int| img.contains(e) implies set_int_range(1, n + 1).contains(e) by {
                let x = choose|x: int| idx.contains(x) && f(x) == e;
                assert(contains_seq(hay, utf8(boundary_text(x as nat))));
                let px = choose|p: int| #[trigger] occurs_at(hay, utf8(boundary_text(x as nat)), p);
                lemma_boundary_bytes(x as nat);
            }
        }
        lemma_int_range(1, n + 1);
        lemma_len_subset(img, set_int_range(1, n + 1));
        assert(false);
    }
}

/// A boundary that `payload` does not contain: the first candidate
/// `blooio-form-boundary-{i}` (i = 0, 1, 2, ...) absent from it.
pub fn boundary_for(payload: &[u8]) -> (r: String)
    ensures
        exists|i: nat|
            r@ == boundary_text(i) && !contains_seq(payload@, utf8(boundary_text(i))) && forall|
                j: nat,
            |
                j < i ==> contains_seq(payload@, #[trigger] utf8(boundary_text(j))),
{
    let mut index: usize = 0;
    loop
        invariant
            index <= payload@.len(),
            forall|j: nat| j < index ==> contains_seq(payload@, #[trigger] utf8(boundary_text(j))),
        decreases payload@.len() - index,
    {
        let mut candidate = "blooio-form-boundary-".to_owned();
        push_decimal(&mut candidate, index as u64);
        assert(candidate@ == boundary_text(index as nat));
        if !contains_bytes(payload, candidate.as_str().as_bytes()) {
            return candidate;
        }
        if index == payload.len() {
            proof {
                lemma_some_candidate_absent(payload@);
                let i = choose|i: nat|
                    i <= payload@.len() && !contains_seq(
                        payload@,
                        #[trigger] utf8(boundary_text(i)),
                    );
                if i < index {
                } else {
                    assert(i == index);
                }
            }
        }
        index += 1;
    }
}

/// The content type of a file part: `application/octet-stream` when none
/// is given, and an error when the value is not a valid header value.
pub fn part_content_type<'a>(content_type: Option<&'a str>) -> (r: Result<&'a str>)
    ensures
        match content_type {
            Some(c) => match r {
                Ok(x) => x == c && valid_header_value(c@),
                Err(e) => !valid_header_value(c@) && (e matches Error::Config(m) && m@
                    == "failed to parse header value"@),
            },
            None => r matches Ok(x) && x@ == "application/octet-stream"@,
        },
{
    match content_type {
        Some(c) => {
            if header_value_ok(c) {
                Ok(c)
            } else {
                Err(Error::config("failed to parse header value".to_owned()))
            }
        },
        None => Ok("application/octet-stream"),
    }
}

/// The escaped form of one character in a quoted header parameter.
pub open spec fn escape_char(c: char) -> Seq<char> {
    if c == '"' {
        seq!['\\', '"']
    } else if c == '\\' {
        seq!['\\', '\\']
    } else if c == '\r' || c == '\n' {
        seq!['_']
    } else {
        seq![c]
    }
}

/// The escaped form of a quoted header parameter value.
pub open spec fn escape_header(s: Seq<char>) -> Seq<char>
    decreases s.len(),
{
    if s.len() == 0 {
        Seq::empty()
    } else {
        escape_header(s.drop_last()) + escape_char(s.last())
    }
}

/// An escaped value holds no line break, so it cannot end a header line.
proof fn lemma_escape_no_line_break(s: Seq<char>)
    ensures
        forall|k: int|
            0 <= k < escape_header(s).len() ==> #[trigger] escape_header(s)[k] != '\r'
                && escape_header(s)[k] != '\n',
    decreases s.len(),
{
    if s.len() > 0 {
        lemma_escape_no_line_break(s.drop_last());
        let a = escape_header(s.drop_last());
        let b = escape_char(s.last());
        assert forall|k: int| 0 <= k < escape_header(s).len() implies #[trigger] escape_header(
            s,
        )[k] != '\r' && escape_header(s)[k] != '\n' by {
            if k >= a.len() {
                assert(escape_header(s)[k] == b[k - a.len()]);
            } else {
                assert(escape_header(s)[k] == a[k]);
            }
        }
    }
}

/// Escape a value for a quoted header parameter: `"` and `\` get a
/// backslash, and CR and LF become `_`.
pub fn escape_header_value(value: &str) -> (r: String)
    ensures
        r@ == escape_header(value@),
        forall|k: int| 0 <= k < r@.len() ==> #[trigger] r@[k] != '\r' && r@[k] != '\n',
{
    let chars = crate::text::chars_of(value);
    let mut out = String::new();
    let mut i: usize = 0;
    while i < chars.len()
        invariant
            chars@ == value@,
            0 <= i <= chars@.len(),
            out@ == escape_header(chars@.take(i as int)),
        decreases chars.len() - i,
    {
        let c = chars[i];
        if c == '"' {
            push_str(&mut out, "\\\"");
        } else if c == '\\' {
            push_str(&mut out, "\\\\");
        } else if c == '\r' || c == '\n' {
            push_char(&mut out, '_');
        } else {
            push_char(&mut out, c);
        }
        proof {
            reveal_strlit("\\\"");
            reveal_strlit("\\\\");
            assert(chars@.take(i + 1).drop_last() =~= chars@.take(i as int));
            assert(out@ =~= escape_header(chars@.take(i + 1)));
        }
        i += 1;
    }
    assert(chars@.take(chars@.len() as int) =~= chars@);
    proof {
        lemma_escape_no_line_break(value@);
    }
    out
}

/// Append the UTF-8 bytes of `s`.
fn extend_text(out: &mut Vec<u8>, s: &str)
    ensures
        final(out)@ == old(out)@ + utf8(s@),
{
    let mut b = vstd::slice::slice_to_vec(s.as_bytes());
    out.append(&mut b);
}

/// Append raw bytes.
fn extend_bytes(out: &mut Vec<u8>, s: &[u8])
    ensures
        final(out)@ == old(out)@ + s@,
{
    let mut b = vstd::slice::slice_to_vec(s);
    out.append(&mut b);
}

/// The encoded multipart body with one file part.
pub open spec fn file_body_spec(
    boundary: Seq<char>,
    field_name: Seq<char>,
    payload: Seq<u8>,
    filename: Option<Seq<char>>,
    content_type: Seq<char>,
) -> Seq<u8> {
    utf8("--"@) + utf8(boundary) + utf8("\r\nContent-Disposition: form-data; name=\""@) + utf8(
        field_name,
    ) + utf8("\""@) + match filename {
        Some(f) => utf8("; filename=\""@) + utf8(escape_header(f)) + utf8("\""@),
        None => Seq::empty(),
    } + utf8("\r\nContent-Type: "@) + utf8(content_type) + utf8("\r\n\r\n"@) + payload + utf8(
        "\r\n--"@,
    ) + utf8(boundary) + utf8("--\r\n"@)
}

/// A multipart/form-data body holding one file part named `field_name`,
/// delimited by `boundary`, with an optional escaped file name and the part's
/// content type.
pub fn file_body(
    boundary: &str,
    field_name: &str,
    payload: &[u8],
    filename: Option<&str>,
    content_type: &str,
) -> (r: Vec<u8>)
    ensures
        r@ == file_body_spec(
            boundary@,
            field_name@,
            payload@,
            match filename {
                Some(f) => Some(f@),
                None => None,
            },
            content_type@,
        ),
{
    let mut body: Vec<u8> = Vec::new();
    extend_text(&mut body, "--");
    extend_text(&mut body, boundary);
    extend_text(&mut body, "\r\nContent-Disposition: form-data; name=\"");
    extend_text(&mut body, field_name);
    extend_text(&mut body, "\"");
    let ghost head = body@;
    match filename {
        Some(f) => {
            extend_text(&mut body, "; filename=\"");
            let escaped = escape_header_value(f);
            extend_text(&mut body, escaped.as_str());
            extend_text(&mut body, "\"");
        },
        None => {},
    }
    let ghost mid = body@;
    extend_text(&mut body, "\r\nContent-Type: ");
    extend_text(&mut body, content_type);
    extend_text(&mut body, "\r\n\r\n");
    extend_bytes(&mut body, payload);
    extend_text(&mut body, "\r\n--");
    extend_text(&mut body, boundary);
    extend_text(&mut body, "--\r\n");
    assert(body@ =~= file_body_spec(
        boundary@,
        field_name@,
        payload@,
        match filename {
            Some(f) => Some(f@),
            None => None,
        },
        content_type@,
    ));
    body
}

} // verus!
