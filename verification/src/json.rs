//! JSON serialization of an event request, specified exactly: the
//! output is a single object with the four fields `name`, `user_id`,
//! `event_at` and `data`, with every string escaped per JSON rules.
use vstd::prelude::*;
use vstd::string::StrSliceExecFns;
use vstd::string::StringExecFns;

use crate::send_event::SendEventRequest;

verus! {

/// The lower-case hex digit for a nibble value.
pub open spec fn hex_digit(n: int) -> char {
    if n == 0 { '0' }
    else if n == 1 { '1' }
    else if n == 2 { '2' }
    else if n == 3 { '3' }
    else if n == 4 { '4' }
    else if n == 5 { '5' }
    else if n == 6 { '6' }
    else if n == 7 { '7' }
    else if n == 8 { '8' }
    else if n == 9 { '9' }
    else if n == 10 { 'a' }
    else if n == 11 { 'b' }
    else if n == 12 { 'c' }
    else if n == 13 { 'd' }
    else if n == 14 { 'e' }
    else { 'f' }
}

/// How one character appears inside a JSON string literal: quote and
/// backslash get a backslash escape, the common control characters get
/// their short forms, other control characters the `\u00XX` form, and
/// everything else stands as itself.
pub open spec fn escape_char(c: char) -> Seq<char> {
    if c == '"' { "\\\""@ }
    else if c == '\\' { "\\\\"@ }
    else if c == '\n' { "\\n"@ }
    else if c == '\r' { "\\r"@ }
    else if c == '\t' { "\\t"@ }
    else if (c as u32) < 0x20 {
        "\\u00"@ + seq![hex_digit(c as u32 as int / 16), hex_digit(c as u32 as int % 16)]
    } else {
        seq![c]
    }
}

/// A whole string escaped character by character.
pub open spec fn json_escape(s: Seq<char>) -> Seq<char>
    decreases s.len(),
{
    if s.len() == 0 {
        Seq::empty()
    } else {
        escape_char(s[0]) + json_escape(s.drop_first())
    }
}

/// A JSON string literal: the escaped characters between quotes.
pub open spec fn json_string(s: Seq<char>) -> Seq<char> {
    "\""@ + json_escape(s) + "\""@
}

/// One attribute entry, `"key":"value"`.
pub open spec fn entry_json(p: (String, String)) -> Seq<char> {
    json_string(p.0@) + ":"@ + json_string(p.1@)
}

/// The attribute entries in order, separated by commas.
pub open spec fn entries_json(pairs: Seq<(String, String)>) -> Seq<char>
    decreases pairs.len(),
{
    if pairs.len() == 0 {
        Seq::empty()
    } else if pairs.len() == 1 {
        entry_json(pairs[0])
    } else {
        entries_json(pairs.drop_last()) + ","@ + entry_json(pairs.last())
    }
}

/// The attribute mapping as a JSON object.
pub open spec fn data_json(pairs: Seq<(String, String)>) -> Seq<char> {
    "{"@ + entries_json(pairs) + "}"@
}

/// The timestamp field: an explicit `null` when absent.
pub open spec fn event_at_json(o: Option<String>) -> Seq<char> {
    match o {
        Option::None => "null"@,
        Option::Some(t) => json_string(t@),
    }
}

/// The full request body: one object holding exactly the four fields,
/// in this order.
pub open spec fn request_json(req: SendEventRequest) -> Seq<char> {
    "{\"name\":"@ + json_string(req.name@) + ",\"user_id\":"@ + json_string(req.user_id@)
        + ",\"event_at\":"@ + event_at_json(req.event_at) + ",\"data\":"@
        + data_json(req.data@) + "}"@
}

/// An absent timestamp is serialized as the JSON `null` value, never
/// omitted from the object.
pub proof fn lemma_absent_event_at_serializes_null(o: Option<String>)
    requires
        o is None,
    ensures
        event_at_json(o) == "null"@,
{
}

/// An empty attribute mapping is serialized as an empty JSON object,
/// never omitted.
pub proof fn lemma_empty_data_serializes_empty_object(pairs: Seq<(String, String)>)
    requires
        pairs.len() == 0,
    ensures
        data_json(pairs) == "{}"@,
{
    reveal_strlit("{");
    reveal_strlit("}");
    reveal_strlit("{}");
    assert(data_json(pairs) =~= "{}"@);
}

/// Appending one character appends its escape form.
proof fn lemma_json_escape_push(s: Seq<char>, c: char)
    ensures
        json_escape(s.push(c)) == json_escape(s) + escape_char(c),
    decreases s.len(),
{
    if s.len() == 0 {
        assert(s.push(c).len() == 1);
        assert(s.push(c)[0] == c);
        assert(s.push(c).drop_first() =~= Seq::<char>::empty());
        assert(json_escape(s.push(c)) == escape_char(c) + json_escape(Seq::<char>::empty()));
        assert(escape_char(c) + Seq::<char>::empty() =~= escape_char(c));
        assert(json_escape(s) + escape_char(c) =~= escape_char(c));
        assert(json_escape(s.push(c)) =~= json_escape(s) + escape_char(c));
    } else {
        assert(s.push(c)[0] == s[0]);
        assert(s.push(c).drop_first() =~= s.drop_first().push(c));
        lemma_json_escape_push(s.drop_first(), c);
        assert(json_escape(s.push(c)) =~= json_escape(s) + escape_char(c));
    }
}

/// Relies on `String::push`: appends exactly the one character.
#[verifier::external_body]
fn push_char(out: &mut String, c: char)
    ensures
        final(out)@ == old(out)@ + seq![c],
{
    out.push(c);
}

/// The lower-case hex digit character for a nibble value.
fn hex_digit_char(n: u8) -> (c: char)
    requires
        n < 16,
    ensures
        c == hex_digit(n as int),
{
    if n == 0 { '0' }
    else if n == 1 { '1' }
    else if n == 2 { '2' }
    else if n == 3 { '3' }
    else if n == 4 { '4' }
    else if n == 5 { '5' }
    else if n == 6 { '6' }
    else if n == 7 { '7' }
    else if n == 8 { '8' }
    else if n == 9 { '9' }
    else if n == 10 { 'a' }
    else if n == 11 { 'b' }
    else if n == 12 { 'c' }
    else if n == 13 { 'd' }
    else if n == 14 { 'e' }
    else { 'f' }
}

/// Appends the escaped form of `s` to `out`.
fn append_escaped(out: &mut String, s: &str)
    ensures
        final(out)@ == old(out)@ + json_escape(s@),
{
    let ghost base: Seq<char> = out@;
    let n = s.unicode_len();
    let mut i: usize = 0;
    while i < n
        invariant
            i <= n,
            n == s@.len(),
            out@ == base + json_escape(s@.take(i as int)),
        decreases n - i,
    {
        let c = s.get_char(i);
        proof {
            lemma_json_escape_push(s@.take(i as int), c);
            assert(s@.take(i + 1 as int) =~= s@.take(i as int).push(c));
        }
        if c == '"' {
            out.append("\\\"");
        } else if c == '\\' {
            out.append("\\\\");
        } else if c == '\n' {
            out.append("\\n");
        } else if c == '\r' {
            out.append("\\r");
        } else if c == '\t' {
            out.append("\\t");
        } else if (c as u32) < 0x20 {
            out.append("\\u00");
            let code: u32 = c as u32;
            push_char(out, hex_digit_char((code / 16) as u8));
            push_char(out, hex_digit_char((code % 16) as u8));
            proof {
                assert(escape_char(c) =~= "\\u00"@
                    + seq![hex_digit(c as u32 as int / 16)] + seq![hex_digit(c as u32 as int % 16)]);
            }
        } else {
            push_char(out, c);
        }
        proof {
            assert(out@ =~= base + json_escape(s@.take(i + 1 as int)));
        }
        i = i + 1;
    }
    proof {
        assert(s@.take(n as int) =~= s@);
    }
}

/// Appends `s` as a JSON string literal to `out`.
fn append_json_string(out: &mut String, s: &str)
    ensures
        final(out)@ == old(out)@ + json_string(s@),
{
    let ghost base: Seq<char> = out@;
    out.append("\"");
    append_escaped(out, s);
    out.append("\"");
    proof {
        assert(out@ =~= base + json_string(s@));
    }
}

/// Appends the attribute mapping as a JSON object to `out`.
fn append_data_object(out: &mut String, pairs: &Vec<(String, String)>)
    ensures
        final(out)@ == old(out)@ + data_json(pairs@),
{
    let ghost base: Seq<char> = out@;
    out.append("{");
    let n = pairs.len();
    let mut i: usize = 0;
    while i < n
        invariant
            i <= n,
            n == pairs@.len(),
            out@ == base + "{"@ + entries_json(pairs@.take(i as int)),
        decreases n - i,
    {
        if i > 0 {
            out.append(",");
        }
        append_json_string(out, pairs[i].0.as_str());
        out.append(":");
        append_json_string(out, pairs[i].1.as_str());
        proof {
            let prefix = pairs@.take(i + 1 as int);
            assert(prefix.drop_last() =~= pairs@.take(i as int));
            assert(prefix.last() == pairs@[i as int]);
            assert(entry_json(pairs@[i as int]) =~= json_string(pairs@[i as int].0@) + ":"@
                + json_string(pairs@[i as int].1@));
            assert(out@ =~= base + "{"@ + entries_json(prefix));
        }
        i = i + 1;
    }
    out.append("}");
    proof {
        assert(pairs@.take(n as int) =~= pairs@);
        assert(out@ =~= base + data_json(pairs@));
    }
}

impl SendEventRequest {
    /// Serializes the request into its JSON body, exactly as
    /// [`request_json`] describes it.
    pub fn to_json(&self) -> (r: String)
        ensures
            r@ == request_json(*self),
    {
        let mut out = String::new();
        out.append("{\"name\":");
        append_json_string(&mut out, self.name.as_str());
        out.append(",\"user_id\":");
        append_json_string(&mut out, self.user_id.as_str());
        out.append(",\"event_at\":");
        match &self.event_at {
            Option::None => {
                out.append("null");
            },
            Option::Some(t) => {
                append_json_string(&mut out, t.as_str());
            },
        }
        out.append(",\"data\":");
        append_data_object(&mut out, &self.data);
        out.append("}");
        proof {
            assert(out@ =~= request_json(*self));
        }
        out
    }
}

} // verus!
