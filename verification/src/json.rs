//! JSON framing of request bodies, byte for byte as a compact serializer
//! writes them: members in declaration order, absent optional members
//! omitted. Strings are written by `serde_json` itself.

use vstd::prelude::*;
use crate::text::{dec, dec_int};

verus! {

/// ASCII text as bytes.
pub open spec fn ascii(cs: Seq<char>) -> Seq<u8> {
    cs.map_values(|c: char| c as u8)
}

/// What `serde_json::to_vec` writes for a string: the string in double
/// quotes, with quotes, backslashes and control characters escaped.
pub uninterp spec fn serde_json_str(s: Seq<char>) -> Seq<u8>;

/// `serde_json::to_vec(s)` for a string slice. Its only errors come from the
/// writer, and writing into a `Vec` never fails, so the error arm is never
/// taken; the bytes depend on the text alone. How each character is escaped
/// is not stated here.
#[verifier::external_body]
fn json_str_to_vec(s: &str) -> (r: Vec<u8>)
    ensures
        r@ == serde_json_str(s@),
{
    serde_json::to_vec(s).unwrap_or_default()
}

/// A JSON string, as `serde_json` writes it.
pub open spec fn json_string(s: Seq<char>) -> Seq<u8> {
    serde_json_str(s)
}

/// A JSON boolean.
pub open spec fn json_bool(b: bool) -> Seq<u8> {
    if b {
        ascii("true"@)
    } else {
        ascii("false"@)
    }
}

/// A JSON integer.
pub open spec fn json_int(n: int) -> Seq<u8> {
    ascii(dec_int(n))
}

/// Encoded values separated by commas.
pub open spec fn join(items: Seq<Seq<u8>>) -> Seq<u8>
    decreases items.len(),
{
    if items.len() == 0 {
        Seq::empty()
    } else if items.len() == 1 {
        items[0]
    } else {
        join(items.drop_last()) + seq![44u8] + items.last()
    }
}

/// A JSON array of encoded values.
pub open spec fn json_array(items: Seq<Seq<u8>>) -> Seq<u8> {
    seq![91u8] + join(items) + seq![93u8]
}

/// One object member: the key as a JSON string, a colon, the encoded value.
pub open spec fn member_bytes(m: (Seq<char>, Seq<u8>)) -> Seq<u8> {
    json_string(m.0) + seq![58u8] + m.1
}

/// A JSON object of members in the given order.
pub open spec fn json_object(members: Seq<(Seq<char>, Seq<u8>)>) -> Seq<u8> {
    seq![123u8] + join(members.map_values(|m: (Seq<char>, Seq<u8>)| member_bytes(m))) + seq![125u8]
}

/// The member `key` when the value is present, nothing otherwise.
pub open spec fn opt_member(key: Seq<char>, v: Option<Seq<u8>>) -> Seq<(Seq<char>, Seq<u8>)> {
    match v {
        Some(x) => seq![(key, x)],
        None => Seq::empty(),
    }
}

/// An optional string encoded as a JSON string.
pub open spec fn opt_string(v: Option<String>) -> Option<Seq<u8>> {
    match v {
        Some(s) => Some(json_string(s@)),
        None => None,
    }
}

/// An optional boolean encoded as JSON.
pub open spec fn opt_bool(v: Option<bool>) -> Option<Seq<u8>> {
    match v {
        Some(b) => Some(json_bool(b)),
        None => None,
    }
}

/// An optional integer encoded as JSON.
pub open spec fn opt_int(v: Option<i64>) -> Option<Seq<u8>> {
    match v {
        Some(n) => Some(json_int(n as int)),
        None => None,
    }
}

/// A list of strings encoded as a JSON array of strings.
pub open spec fn string_array(v: Seq<String>) -> Seq<u8> {
    json_array(v.map_values(|s: String| json_string(s@)))
}

/// An optional list of strings encoded as a JSON array of strings.
pub open spec fn opt_string_array(v: Option<Vec<String>>) -> Option<Seq<u8>> {
    match v {
        Some(xs) => Some(string_array(xs@)),
        None => None,
    }
}

/// Appends `s` as a JSON string.
pub fn push_json_string(out: &mut Vec<u8>, s: &str)
    ensures
        final(out)@ == old(out)@ + json_string(s@),
{
    let mut bytes = json_string_bytes(s);
    let ghost before = out@;
    out.append(&mut bytes);
    assert(out@ =~= before + json_string(s@));
}

/// `s` as a JSON string (`serde_json::to_vec`).
pub fn json_string_bytes(s: &str) -> (r: Vec<u8>)
    ensures
        r@ == json_string(s@),
{
    json_str_to_vec(s)
}

/// `b` as a JSON boolean.
pub fn json_bool_bytes(b: bool) -> (r: Vec<u8>)
    ensures
        r@ == json_bool(b),
{
    let mut out = Vec::new();
    if b {
        out.push(116);
        out.push(114);
        out.push(117);
        out.push(101);
        proof {
            reveal_strlit("true");
        }
        assert(out@ =~= ascii("true"@));
    } else {
        out.push(102);
        out.push(97);
        out.push(108);
        out.push(115);
        out.push(101);
        proof {
            reveal_strlit("false");
        }
        assert(out@ =~= ascii("false"@));
    }
    out
}

fn push_decimal_bytes(out: &mut Vec<u8>, n: u64)
    ensures
        final(out)@ == old(out)@ + ascii(dec(n as nat)),
    decreases n,
{
    if n >= 10 {
        push_decimal_bytes(out, n / 10);
        let ghost mid = out@;
        out.push((48 + n % 10) as u8);
        assert(ascii(dec(n as nat)) =~= ascii(dec((n / 10) as nat)).push((48 + n % 10) as u8));
        assert(out@ =~= old(out)@ + ascii(dec(n as nat)));
    } else {
        out.push((48 + n) as u8);
        assert(out@ =~= old(out)@ + ascii(dec(n as nat)));
    }
}

/// `n` as a JSON integer.
pub fn json_int_bytes(n: i64) -> (r: Vec<u8>)
    ensures
        r@ == json_int(n as int),
{
    let mut out = Vec::new();
    if n < 0 {
        out.push(45);
        let m: u64 = if n == i64::MIN {
            9223372036854775808u64
        } else {
            (-n) as u64
        };
        push_decimal_bytes(&mut out, m);
        assert(ascii(seq!['-'] + dec(m as nat)) =~= seq![45u8] + ascii(dec(m as nat)));
        assert(out@ =~= json_int(n as int));
    } else {
        push_decimal_bytes(&mut out, n as u64);
        assert(out@ =~= json_int(n as int));
    }
    out
}

/// Builds a JSON array element by element.
pub struct JsonArray {
    buf: Vec<u8>,
    started: bool,
    items: Ghost<Seq<Seq<u8>>>,
}

impl View for JsonArray {
    type V = Seq<Seq<u8>>;

    closed spec fn view(&self) -> Seq<Seq<u8>> {
        self.items@
    }
}

impl JsonArray {
    /// The buffer holds the opening bracket and the joined elements.
    pub closed spec fn wf(&self) -> bool {
        &&& self.buf@ == seq![91u8] + join(self.items@)
        &&& self.started == (self.items@.len() > 0)
    }

    /// An empty array.
    pub fn new() -> (r: Self)
        ensures
            r@ == Seq::<Seq<u8>>::empty(),
            r.wf(),
    {
        let mut buf = Vec::new();
        buf.push(91);
        let r = JsonArray { buf, started: false, items: Ghost(Seq::empty()) };
        assert(r.buf@ =~= seq![91u8] + join(Seq::<Seq<u8>>::empty()));
        r
    }

    /// Append an encoded element.
    pub fn push(&mut self, value: &[u8])
        requires
            old(self).wf(),
        ensures
            final(self).wf(),
            final(self)@ == old(self)@.push(value@),
    {
        let ghost old_items = self.items@;
        if self.started {
            self.buf.push(44);
        }
        let mut copy = vstd::slice::slice_to_vec(value);
        self.buf.append(&mut copy);
        self.started = true;
        self.items = Ghost(old_items.push(value@));
        proof {
            let ni = old_items.push(value@);
            assert(ni.drop_last() =~= old_items);
            if old_items.len() == 0 {
                assert(join(ni) == value@);
            }
            assert(self.buf@ =~= seq![91u8] + join(ni));
        }
    }

    /// The encoded array.
    pub fn finish(self) -> (r: Vec<u8>)
        requires
            self.wf(),
        ensures
            r@ == json_array(self@),
    {
        let mut buf = self.buf;
        buf.push(93);
        assert(buf@ =~= json_array(self@));
        buf
    }
}

/// `items` as a JSON array of strings.
pub fn json_string_array(items: &Vec<String>) -> (r: Vec<u8>)
    ensures
        r@ == string_array(items@),
{
    let mut a = JsonArray::new();
    let mut i: usize = 0;
    while i < items.len()
        invariant
            a.wf(),
            0 <= i <= items@.len(),
            a@ == items@.take(i as int).map_values(|s: String| json_string(s@)),
        decreases items.len() - i,
    {
        let e = json_string_bytes(items[i].as_str());
        a.push(e.as_slice());
        assert(items@.take(i + 1).map_values(|s: String| json_string(s@)) =~= items@.take(
            i as int,
        ).map_values(|s: String| json_string(s@)).push(json_string(items@[i as int]@)));
        i += 1;
    }
    assert(items@.take(items@.len() as int) =~= items@);
    a.finish()
}

/// Builds a JSON object member by member.
pub struct JsonObject {
    buf: Vec<u8>,
    started: bool,
    members: Ghost<Seq<(Seq<char>, Seq<u8>)>>,
}

impl View for JsonObject {
    type V = Seq<(Seq<char>, Seq<u8>)>;

    closed spec fn view(&self) -> Seq<(Seq<char>, Seq<u8>)> {
        self.members@
    }
}

impl JsonObject {
    /// The buffer holds the opening brace and the joined members.
    pub closed spec fn wf(&self) -> bool {
        &&& self.buf@ == seq![123u8] + join(
            self.members@.map_values(|m: (Seq<char>, Seq<u8>)| member_bytes(m)),
        )
        &&& self.started == (self.members@.len() > 0)
    }

    /// An empty object.
    pub fn new() -> (r: Self)
        ensures
            r@ == Seq::<(Seq<char>, Seq<u8>)>::empty(),
            r.wf(),
    {
        let mut buf = Vec::new();
        buf.push(123);
        let r = JsonObject { buf, started: false, members: Ghost(Seq::empty()) };
        assert(r.members@.map_values(|m: (Seq<char>, Seq<u8>)| member_bytes(m)) =~= Seq::<
            Seq<u8>,
        >::empty());
        assert(r.buf@ =~= seq![123u8] + join(Seq::<Seq<u8>>::empty()));
        r
    }

    /// Append the member `key: value` (`value` already encoded).
    pub fn field(&mut self, key: &str, value: &[u8])
        requires
            old(self).wf(),
        ensures
            final(self).wf(),
            final(self)@ == old(self)@.push((key@, value@)),
    {
        let ghost old_members = self.members@;
        if self.started {
            self.buf.push(44);
        }
        let ghost mid = self.buf@;
        push_json_string(&mut self.buf, key);
        self.buf.push(58);
        let mut copy = vstd::slice::slice_to_vec(value);
        self.buf.append(&mut copy);
        self.started = true;
        self.members = Ghost(old_members.push((key@, value@)));
        proof {
            let f = |m: (Seq<char>, Seq<u8>)| member_bytes(m);
            let nm = old_members.push((key@, value@));
            let olds = old_members.map_values(f);
            let news = nm.map_values(f);
            assert(news.drop_last() =~= olds);
            assert(news.last() == member_bytes((key@, value@)));
            if old_members.len() == 0 {
                assert(join(news) == news[0]);
            }
            assert(self.buf@ =~= seq![123u8] + join(news));
        }
    }

    /// Append `key` with a string value when present.
    pub fn opt_str(&mut self, key: &str, value: &Option<String>)
        requires
            old(self).wf(),
        ensures
            final(self).wf(),
            final(self)@ == old(self)@ + opt_member(key@, opt_string(*value)),
    {
        match value {
            Some(v) => {
                let e = json_string_bytes(v.as_str());
                self.field(key, e.as_slice());
            },
            None => {},
        }
        assert(self@ =~= old(self)@ + opt_member(key@, opt_string(*value)));
    }

    /// Append `key` with a boolean value when present.
    pub fn opt_bool(&mut self, key: &str, value: Option<bool>)
        requires
            old(self).wf(),
        ensures
            final(self).wf(),
            final(self)@ == old(self)@ + opt_member(key@, opt_bool(value)),
    {
        match value {
            Some(v) => {
                let e = json_bool_bytes(v);
                self.field(key, e.as_slice());
            },
            None => {},
        }
        assert(self@ =~= old(self)@ + opt_member(key@, opt_bool(value)));
    }

    /// Append `key` with an integer value when present.
    pub fn opt_int(&mut self, key: &str, value: Option<i64>)
        requires
            old(self).wf(),
        ensures
            final(self).wf(),
            final(self)@ == old(self)@ + opt_member(key@, opt_int(value)),
    {
        match value {
            Some(v) => {
                let e = json_int_bytes(v);
                self.field(key, e.as_slice());
            },
            None => {},
        }
        assert(self@ =~= old(self)@ + opt_member(key@, opt_int(value)));
    }

    /// Append `key` with an encoded value when present.
    pub fn opt_raw(&mut self, key: &str, value: &Option<Vec<u8>>)
        requires
            old(self).wf(),
        ensures
            final(self).wf(),
            final(self)@ == old(self)@ + opt_member(
                key@,
                match value {
                    Some(v) => Some(v@),
                    None => None,
                },
            ),
    {
        match value {
            Some(v) => {
                self.field(key, v.as_slice());
            },
            None => {},
        }
        assert(self@ =~= old(self)@ + opt_member(
            key@,
            match value {
                Some(v) => Some(v@),
                None => None,
            },
        ));
    }

    /// The encoded object.
    pub fn finish(self) -> (r: Vec<u8>)
        requires
            self.wf(),
        ensures
            r@ == json_object(self@),
    {
        let mut buf = self.buf;
        buf.push(125);
        assert(buf@ =~= json_object(self@));
        buf
    }
}

} // verus!

verus! {

/// The JSON encoding of an optional list of strings.
pub fn opt_string_array_bytes(v: &Option<Vec<String>>) -> (r: Option<Vec<u8>>)
    ensures
        crate::operation::opt_bytes(r) == opt_string_array(*v),
{
    match v {
        Some(xs) => Some(json_string_array(xs)),
        None => None,
    }
}

} // verus!
