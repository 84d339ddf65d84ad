//! The pipe protocol between the text service and the input method: JSON
//! messages, the server's answer to a key message, and how the text service
//! reads the answer.
use vstd::prelude::*;
use vstd::string::StrSliceExecFns;
use crate::engine::{ContextView, KeyResult};
use crate::text::{
    decimal, lossy_utf8, push_char, push_decimal, push_signed_decimal, push_str, signed_decimal,
    trim_nul_end, trim_trailing_nul, utf8_text_lossy,
};

verus! {

/// A top-level field of a JSON message, as far as the protocol reads it.
pub enum JsonScalar {
    Text(String),
    Integer(i64),
    Boolean(bool),
    /// Any other value: a number outside `i64`, null, an array or an object.
    Other,
}

/// The value of a `JsonScalar`.
pub enum JsonScalarView {
    Text(Seq<char>),
    Integer(i64),
    Boolean(bool),
    Other,
}

impl View for JsonScalar {
    type V = JsonScalarView;

    open spec fn view(&self) -> JsonScalarView {
        match self {
            JsonScalar::Text(s) => JsonScalarView::Text(s@),
            JsonScalar::Integer(n) => JsonScalarView::Integer(*n),
            JsonScalar::Boolean(b) => JsonScalarView::Boolean(*b),
            JsonScalar::Other => JsonScalarView::Other,
        }
    }
}

/// The top-level fields that `serde_json` reads from `text`: `None` when the
/// text is not JSON, no fields when it is JSON but not an object.
pub uninterp spec fn json_fields(text: Seq<char>) -> Option<Seq<(Seq<char>, JsonScalarView)>>;

/// The views of a list of fields.
pub open spec fn fields_view(v: Seq<(String, JsonScalar)>) -> Seq<(Seq<char>, JsonScalarView)> {
    v.map_values(|f: (String, JsonScalar)| (f.0@, f.1@))
}

/// `serde_json::from_str::<Value>`, with the parsed object's fields read as
/// plain values (`Number::as_i64` for numbers).
#[verifier::external_body]
fn parse_fields(text: &str) -> (r: Option<Vec<(String, JsonScalar)>>)
    ensures
        match r {
            None => json_fields(text@) is None,
            Some(v) => json_fields(text@) == Some(fields_view(v@)),
        },
{
    match serde_json::from_str::<serde_json::Value>(text) {
        Err(_) => None,
        Ok(serde_json::Value::Object(m)) => Some(m.into_iter().map(|(k, v)| (k, match v {
            serde_json::Value::String(s) => JsonScalar::Text(s),
            serde_json::Value::Bool(b) => JsonScalar::Boolean(b),
            serde_json::Value::Number(n) => n.as_i64().map_or(JsonScalar::Other, JsonScalar::Integer),
            _ => JsonScalar::Other,
        })).collect()),
        Ok(_) => Some(Vec::new()),
    }
}

/// The value of the first field named `key`.
pub open spec fn field(fields: Seq<(Seq<char>, JsonScalarView)>, key: Seq<char>) -> Option<JsonScalarView>
    decreases fields.len(),
{
    if fields.len() == 0 {
        None
    } else if fields[0].0 == key {
        Some(fields[0].1)
    } else {
        field(fields.drop_first(), key)
    }
}

/// The value of field `key` of the JSON `text`: `None` when the text is not
/// JSON; `Some(None)` when it has no such field.
pub open spec fn json_field(text: Seq<char>, key: Seq<char>) -> Option<Option<JsonScalarView>> {
    match json_fields(text) {
        None => None,
        Some(fs) => Some(field(fs, key)),
    }
}

fn find_field(fields: &Vec<(String, JsonScalar)>, key: &str) -> (r: Option<usize>)
    ensures
        match r {
            None => field(fields_view(fields@), key@) is None,
            Some(i) => i < fields@.len() && field(fields_view(fields@), key@) == Some(
                fields@[i as int].1@,
            ),
        },
{
    let key_string = key.to_owned();
    let mut i: usize = 0;
    assert(fields_view(fields@).skip(0) =~= fields_view(fields@));
    while i < fields.len()
        invariant
            i <= fields@.len(),
            key_string@ == key@,
            field(fields_view(fields@), key@) == field(fields_view(fields@).skip(i as int), key@),
        decreases fields.len() - i,
    {
        let ghost rest = fields_view(fields@).skip(i as int);
        assert(rest[0] == (fields@[i as int].0@, fields@[i as int].1@));
        if fields[i].0 == key_string {
            return Some(i);
        }
        assert(rest.drop_first() =~= fields_view(fields@).skip(i + 1));
        i = i + 1;
    }
    None
}

/// The JSON text's field `key` when it is a string: `None` when the text is
/// not JSON, `Some(None)` when the field is missing or not a string.
pub fn json_text_field(text: &str, key: &str) -> (r: Option<Option<String>>)
    ensures
        match json_field(text@, key@) {
            None => r is None,
            Some(Some(JsonScalarView::Text(s))) => r matches Some(Some(t)) && t@ == s,
            Some(_) => r == Some(None::<String>),
        },
{
    match parse_fields(text) {
        None => None,
        Some(fields) => match find_field(&fields, key) {
            None => Some(None),
            Some(i) => match &fields[i].1 {
                JsonScalar::Text(s) => Some(Some(s.clone())),
                _ => Some(None),
            },
        },
    }
}

/// The JSON text's field `key` when it is an integer that fits `i64`.
pub fn json_integer_field(text: &str, key: &str) -> (r: Option<Option<i64>>)
    ensures
        r == match json_field(text@, key@) {
            None => None,
            Some(Some(JsonScalarView::Integer(n))) => Some(Some(n)),
            Some(_) => Some(None::<i64>),
        },
{
    match parse_fields(text) {
        None => None,
        Some(fields) => match find_field(&fields, key) {
            None => Some(None),
            Some(i) => match &fields[i].1 {
                JsonScalar::Integer(n) => Some(Some(*n)),
                _ => Some(None),
            },
        },
    }
}

/// The JSON text's field `key` when it is a boolean.
pub fn json_boolean_field(text: &str, key: &str) -> (r: Option<Option<bool>>)
    ensures
        r == match json_field(text@, key@) {
            None => None,
            Some(Some(JsonScalarView::Boolean(b))) => Some(Some(b)),
            Some(_) => Some(None::<bool>),
        },
{
    match parse_fields(text) {
        None => None,
        Some(fields) => match find_field(&fields, key) {
            None => Some(None),
            Some(i) => match &fields[i].1 {
                JsonScalar::Boolean(b) => Some(Some(*b)),
                _ => Some(None),
            },
        },
    }
}

/// The answer to a message the input method did not handle.
pub open spec fn handled_false() -> Seq<char> {
    "{\"handled\":false}"@
}

/// An integer field of a key message: 0 when missing or not an `i64`,
/// otherwise cut to its low 32 bits.
pub open spec fn key_number(text: Seq<char>, key: Seq<char>) -> i32 {
    match json_field(text, key) {
        Some(Some(JsonScalarView::Integer(n))) => n as i32,
        _ => 0,
    }
}

/// Whether a request is a key-down message: JSON whose "type" is the string
/// "keydown".
pub open spec fn is_keydown(text: Seq<char>) -> bool {
    json_field(text, "type"@) == Some(Some(JsonScalarView::Text("keydown"@)))
}

/// The key event of a pipe request: (keycode, modifiers) for a key-down
/// message, `None` for anything else, including text that is not JSON.
pub fn key_request(request: &str) -> (r: Option<(i32, i32)>)
    ensures
        r == if is_keydown(request@) {
            Some((key_number(request@, "keycode"@), key_number(request@, "modifiers"@)))
        } else {
            None
        },
{
    let kind = json_text_field(request, "type");
    let keydown = match &kind {
        Some(Some(t)) => {
            let k = "keydown".to_owned();
            *t == k
        },
        _ => false,
    };
    if keydown {
        let keycode: i32 = match json_integer_field(request, "keycode") {
            Some(Some(n)) => #[verifier::truncate] (n as i32),
            _ => 0,
        };
        let modifiers: i32 = match json_integer_field(request, "modifiers") {
            Some(Some(n)) => #[verifier::truncate] (n as i32),
            _ => 0,
        };
        Some((keycode, modifiers))
    } else {
        proof {
            if is_keydown(request@) {
                assert(kind matches Some(Some(t)) && t@ == "keydown"@);
            }
        }
        None
    }
}

/// A lower-case hexadecimal digit for a value in `0..16`.
pub open spec fn hex_lower(d: int) -> char {
    if d < 10 {
        (d + 48) as char
    } else {
        (d + 87) as char
    }
}

/// A character as it stands inside a JSON string: quote and backslash
/// escaped with a backslash, control characters as `\u00xx`.
pub open spec fn json_escape_char(c: char) -> Seq<char> {
    if c == '"' {
        seq!['\\', '"']
    } else if c == '\\' {
        seq!['\\', '\\']
    } else if (c as int) < 0x20 {
        seq!['\\', 'u', '0', '0', hex_lower((c as int) / 16), hex_lower((c as int) % 16)]
    } else {
        seq![c]
    }
}

/// The characters of a text, each as it stands inside a JSON string.
pub open spec fn json_escaped(s: Seq<char>) -> Seq<char>
    decreases s.len(),
{
    if s.len() == 0 {
        seq![]
    } else {
        json_escaped(s.drop_last()) + json_escape_char(s.last())
    }
}

/// A text as a JSON string literal.
pub open spec fn json_string(s: Seq<char>) -> Seq<char> {
    seq!['"'] + json_escaped(s) + seq!['"']
}

/// The value of a hexadecimal digit (either case), -1 for any other
/// character.
pub open spec fn hex_value(c: char) -> int {
    let v = c as int;
    if 48 <= v <= 57 {
        v - 48
    } else if 97 <= v <= 102 {
        v - 87
    } else if 65 <= v <= 70 {
        v - 55
    } else {
        -1
    }
}

/// The character a one-letter JSON escape (`\"`, `\\`, `\/`, `\b`, `\f`,
/// `\n`, `\r`, `\t`) stands for.
pub open spec fn json_simple_escape(e: char) -> Option<char> {
    if e == '"' {
        Some('"')
    } else if e == '\\' {
        Some('\\')
    } else if e == '/' {
        Some('/')
    } else if e == 'b' {
        Some(8int as char)
    } else if e == 'f' {
        Some(12int as char)
    } else if e == 'n' {
        Some(10int as char)
    } else if e == 'r' {
        Some(13int as char)
    } else if e == 't' {
        Some(9int as char)
    } else {
        None
    }
}

/// `seq![c] + r` for a decoded rest `r`.
pub open spec fn cons_decoded(c: char, rest: Option<Seq<char>>) -> Option<Seq<char>> {
    match rest {
        Some(r) => Some(seq![c] + r),
        None => None,
    }
}

/// What a JSON reader makes of the characters between the quotes of a string
/// literal: the text, or `None` when they are not a valid string body (an
/// unescaped quote or control character, or an unknown or cut escape).
/// `\uXXXX` escapes of surrogates are not read (`None`).
pub open spec fn json_unescape(t: Seq<char>) -> Option<Seq<char>>
    decreases t.len(),
{
    if t.len() == 0 {
        Some(Seq::empty())
    } else if t[0] == '"' || (t[0] as int) < 0x20 {
        None
    } else if t[0] == '\\' {
        if t.len() < 2 {
            None
        } else if json_simple_escape(t[1]) is Some {
            cons_decoded(json_simple_escape(t[1])->0, json_unescape(t.skip(2)))
        } else if t[1] == 'u' && t.len() >= 6 && hex_value(t[2]) >= 0 && hex_value(t[3]) >= 0
            && hex_value(t[4]) >= 0 && hex_value(t[5]) >= 0 {
            let v = hex_value(t[2]) * 4096 + hex_value(t[3]) * 256 + hex_value(t[4]) * 16
                + hex_value(t[5]);
            if 0xD800 <= v <= 0xDFFF {
                None
            } else {
                cons_decoded(v as char, json_unescape(t.skip(6)))
            }
        } else {
            None
        }
    } else {
        cons_decoded(t[0], json_unescape(t.skip(1)))
    }
}

proof fn lemma_unescape_char(c: char, rest: Seq<char>)
    ensures
        json_unescape(json_escape_char(c) + rest) == cons_decoded(c, json_unescape(rest)),
{
    let t = json_escape_char(c) + rest;
    if c == '"' || c == '\\' {
        assert(t.skip(2) =~= rest);
    } else if (c as int) < 0x20 {
        let v = c as int;
        assert(hex_value('0') == 0);
        assert(hex_value(hex_lower(v / 16)) == v / 16);
        assert(hex_value(hex_lower(v % 16)) == v % 16);
        assert(t[1] == 'u' && t[2] == '0' && t[3] == '0');
        assert(t.skip(6) =~= rest);
        assert(0 * 4096 + 0 * 256 + (v / 16) * 16 + v % 16 == v);
        assert((v as char) == c);
    } else {
        assert(t.skip(1) =~= rest);
    }
}

proof fn lemma_unescape_escaped(s: Seq<char>, rest: Seq<char>)
    ensures
        json_unescape(json_escaped(s) + rest) == match json_unescape(rest) {
            Some(r) => Some(s + r),
            None => None,
        },
    decreases s.len(),
{
    if s.len() == 0 {
        assert(json_escaped(s) + rest =~= rest);
        if let Some(r) = json_unescape(rest) {
            assert(s + r =~= r);
        }
    } else {
        let d = s.drop_last();
        let c = s.last();
        let tail = json_escape_char(c) + rest;
        assert(json_escaped(s) + rest =~= json_escaped(d) + tail);
        lemma_unescape_escaped(d, tail);
        lemma_unescape_char(c, rest);
        if let Some(r) = json_unescape(rest) {
            assert(d + (seq![c] + r) =~= s + r);
        }
    }
}

/// Every JSON string literal the library writes reads back as its text: it
/// is a quote, a valid string body and a quote, and a JSON reader decodes
/// the body to exactly the text. So different texts give different
/// literals, and no text (a quote, a backslash or a control character
/// among them) can end the literal early or spoil the JSON around it.
pub proof fn lemma_json_string_round_trip(s: Seq<char>, s2: Seq<char>)
    ensures
        json_string(s).len() >= 2,
        json_string(s)[0] == '"',
        json_string(s).last() == '"',
        json_unescape(json_string(s).subrange(1, json_string(s).len() - 1)) == Some(s),
        json_string(s) == json_string(s2) ==> s == s2,
{
    lemma_unescape_escaped(s, Seq::empty());
    lemma_unescape_escaped(s2, Seq::empty());
    let j = json_string(s);
    assert(j.subrange(1, j.len() - 1) =~= json_escaped(s) + Seq::empty());
    assert(s + Seq::<char>::empty() =~= s);
    assert(s2 + Seq::<char>::empty() =~= s2);
    let j2 = json_string(s2);
    assert(j2.subrange(1, j2.len() - 1) =~= json_escaped(s2) + Seq::empty());
}

/// Texts as the elements of a JSON array, separated by commas.
pub open spec fn json_string_list(ts: Seq<Seq<char>>) -> Seq<char>
    decreases ts.len(),
{
    if ts.len() == 0 {
        seq![]
    } else if ts.len() == 1 {
        json_string(ts[0])
    } else {
        json_string_list(ts.drop_last()) + seq![','] + json_string(ts.last())
    }
}

/// The answer to a key message: for a key the engine handled,
/// `{"handled":true,"commit":…,"candidates":[…],"preedit":…}` with the
/// context's committed text, candidate texts and preedit; for a key it did
/// not handle, or when the engine failed, `{"handled":false}`.
pub open spec fn key_response_text(result: Result<Option<ContextView>, Seq<char>>) -> Seq<char> {
    match result {
        Ok(Some(c)) => "{\"handled\":true,\"commit\":"@ + json_string(c.commit_text)
            + ",\"candidates\":["@ + json_string_list(
            c.candidates.map_values(|p: (Seq<char>, Seq<char>)| p.0),
        ) + "],\"preedit\":"@ + json_string(c.preedit) + "}"@,
        _ => handled_false(),
    }
}

fn push_hex_lower(out: &mut String, d: u32)
    requires
        d < 16,
    ensures
        final(out)@ == old(out)@.push(hex_lower(d as int)),
{
    let c: char = if d < 10 { ((d + 48) as u8) as char } else { ((d + 87) as u8) as char };
    push_char(out, c);
}

/// Appends a text as a JSON string literal (see `json_string`).
pub fn push_json_string(out: &mut String, s: &str)
    ensures
        final(out)@ == old(out)@ + json_string(s@),
{
    let ghost start = out@;
    push_char(out, '"');
    let n = s.unicode_len();
    let mut i: usize = 0;
    while i < n
        invariant
            n == s@.len(),
            i <= n,
            out@ == start + seq!['"'] + json_escaped(s@.take(i as int)),
        decreases n - i,
    {
        let c = s.get_char(i);
        let ghost before = out@;
        let v: u32 = c as u32;
        if c == '"' {
            push_char(out, '\\');
            push_char(out, '"');
        } else if c == '\\' {
            push_char(out, '\\');
            push_char(out, '\\');
        } else if v < 0x20 {
            push_char(out, '\\');
            push_char(out, 'u');
            push_char(out, '0');
            push_char(out, '0');
            push_hex_lower(out, v / 16);
            push_hex_lower(out, v % 16);
        } else {
            push_char(out, c);
        }
        proof {
            assert(out@ =~= before + json_escape_char(c));
            let t = s@.take(i + 1);
            assert(t.drop_last() =~= s@.take(i as int));
            assert(t.last() == c);
        }
        i = i + 1;
    }
    push_char(out, '"');
    assert(s@.take(n as int) =~= s@);
    assert(out@ =~= start + json_string(s@));
}

/// The answer `{"handled":false}`.
pub fn not_handled() -> (r: String)
    ensures
        r@ == handled_false(),
{
    "{\"handled\":false}".to_owned()
}

/// The answer to a key message for the engine's result (see
/// `key_response_text`).
pub fn key_response(result: &Result<KeyResult, String>) -> (r: String)
    ensures
        r@ == key_response_text(
            match result {
                Ok(k) => Ok(k@),
                Err(e) => Err(e@),
            },
        ),
{
    match result {
        Ok(KeyResult::Handled(ctx)) => {
            let ghost texts = ctx@.candidates.map_values(|p: (Seq<char>, Seq<char>)| p.0);
            let mut out = String::new();
            push_str(&mut out, "{\"handled\":true,\"commit\":");
            push_json_string(&mut out, ctx.commit_text.as_str());
            push_str(&mut out, ",\"candidates\":[");
            let ghost prefix = out@;
            let mut i: usize = 0;
            assert(texts.take(0) =~= Seq::<Seq<char>>::empty());
            while i < ctx.candidates.len()
                invariant
                    i <= ctx.candidates@.len(),
                    texts.len() == ctx.candidates@.len(),
                    forall|k: int| 0 <= k < texts.len() ==> texts[k] == #[trigger] ctx.candidates@[k].text@,
                    out@ == prefix + json_string_list(texts.take(i as int)),
                decreases ctx.candidates.len() - i,
            {
                let ghost before = out@;
                if i > 0 {
                    push_char(&mut out, ',');
                }
                push_json_string(&mut out, ctx.candidates[i].text.as_str());
                proof {
                    let t = texts.take(i + 1);
                    assert(t.drop_last() =~= texts.take(i as int));
                    assert(t.last() == ctx.candidates@[i as int].text@);
                    if i == 0 {
                        assert(out@ =~= prefix + json_string_list(t));
                    } else {
                        assert(out@ =~= prefix + json_string_list(t));
                    }
                }
                i = i + 1;
            }
            assert(texts.take(ctx.candidates@.len() as int) =~= texts);
            push_str(&mut out, "],\"preedit\":");
            push_json_string(&mut out, ctx.preedit.as_str());
            push_str(&mut out, "}");
            assert(out@ =~= key_response_text(Ok(Some(ctx@))));
            out
        },
        _ => not_handled(),
    }
}

/// The key-down message the text service sends: with the cursor position,
/// `{"cursor_x":…,"cursor_y":…,"keycode":…,"modifiers":…,"type":"keydown"}`;
/// without it, `{"type":"keydown","keycode":…,"modifiers":…}`.
pub open spec fn key_message_text(keycode: u32, modifiers: u32, cursor: Option<(i32, i32)>) -> Seq<char> {
    match cursor {
        Some((x, y)) => "{\"cursor_x\":"@ + signed_decimal(x as int) + ",\"cursor_y\":"@
            + signed_decimal(y as int) + ",\"keycode\":"@ + decimal(keycode as nat)
            + ",\"modifiers\":"@ + decimal(modifiers as nat) + ",\"type\":\"keydown\"}"@,
        None => "{\"type\":\"keydown\",\"keycode\":"@ + decimal(keycode as nat) + ",\"modifiers\":"@
            + decimal(modifiers as nat) + "}"@,
    }
}

/// The key-down message for a key, its modifier mask and the cursor
/// position when it is known (see `key_message_text`).
pub fn key_message(keycode: u32, modifiers: u32, cursor: Option<(i32, i32)>) -> (r: String)
    ensures
        r@ == key_message_text(keycode, modifiers, cursor),
{
    let mut out = String::new();
    match cursor {
        Some((x, y)) => {
            push_str(&mut out, "{\"cursor_x\":");
            push_signed_decimal(&mut out, x as i64);
            push_str(&mut out, ",\"cursor_y\":");
            push_signed_decimal(&mut out, y as i64);
            push_str(&mut out, ",\"keycode\":");
            push_decimal(&mut out, keycode as u64);
            push_str(&mut out, ",\"modifiers\":");
            push_decimal(&mut out, modifiers as u64);
            push_str(&mut out, ",\"type\":\"keydown\"}");
        },
        None => {
            push_str(&mut out, "{\"type\":\"keydown\",\"keycode\":");
            push_decimal(&mut out, keycode as u64);
            push_str(&mut out, ",\"modifiers\":");
            push_decimal(&mut out, modifiers as u64);
            push_str(&mut out, "}");
        },
    }
    assert(out@ =~= key_message_text(keycode, modifiers, cursor));
    out
}

/// The bytes written back for a handler's answer: its UTF-8 bytes, or
/// `{"handled":false}` when the handler gave none.
pub fn response_bytes(response: &Option<String>) -> (r: Vec<u8>)
    ensures
        r@ == vstd::utf8::encode_utf8(
            match response {
                Some(s) => s@,
                None => handled_false(),
            },
        ),
{
    let b = match response {
        Some(s) => s.as_str().as_bytes(),
        None => "{\"handled\":false}".as_bytes(),
    };
    let mut out: Vec<u8> = Vec::new();
    let mut i: usize = 0;
    while i < b.len()
        invariant
            i <= b@.len(),
            out@ == b@.take(i as int),
        decreases b.len() - i,
    {
        out.push(b[i]);
        assert(b@.take(i + 1) =~= b@.take(i as int).push(b@[i as int]));
        i = i + 1;
    }
    assert(b@.take(b@.len() as int) =~= b@);
    out
}

/// The text of the first `n` bytes of a buffer, invalid sequences replaced
/// and trailing NULs removed.
pub open spec fn message_text(buffer: Seq<u8>, n: int) -> Seq<char> {
    trim_trailing_nul(lossy_utf8(buffer.take(n)))
}

fn prefix(buffer: &[u8], n: usize) -> (r: Vec<u8>)
    requires
        n <= buffer@.len(),
    ensures
        r@ == buffer@.take(n as int),
{
    let mut out: Vec<u8> = Vec::new();
    let mut i: usize = 0;
    while i < n
        invariant
            i <= n,
            n <= buffer@.len(),
            out@ == buffer@.take(i as int),
        decreases n - i,
    {
        out.push(buffer[i]);
        assert(buffer@.take(i + 1) =~= buffer@.take(i as int).push(buffer@[i as int]));
        i = i + 1;
    }
    out
}

/// The text of the first `n` bytes of a pipe buffer (see `message_text`).
pub fn decode_message(buffer: &[u8], n: usize) -> (r: String)
    requires
        n <= buffer@.len(),
    ensures
        r@ == message_text(buffer@, n as int),
{
    let bytes = prefix(buffer, n);
    let text = utf8_text_lossy(bytes.as_slice());
    trim_nul_end(text.as_str())
}

/// What the text service reads from the pipe after sending a message:
/// nothing when no byte arrived, otherwise the message text.
pub fn read_response(buffer: &[u8], read_bytes: u32) -> (r: Option<String>)
    requires
        read_bytes <= buffer@.len(),
    ensures
        read_bytes == 0 ==> r is None,
        read_bytes > 0 ==> (r matches Some(s) && s@ == message_text(buffer@, read_bytes as int)),
{
    if read_bytes > 0 {
        Some(decode_message(buffer, read_bytes as usize))
    } else {
        None
    }
}

/// Whether the input method's answer says it handled the key: the answer's
/// "handled" field when it is a boolean, false otherwise.
pub open spec fn answer_handled(text: Seq<char>) -> bool {
    json_field(text, "handled"@) == Some(Some(JsonScalarView::Boolean(true)))
}

/// How the text service reads the outcome of sending a key message: whether
/// the key was handled, and the answer's text (empty when the send failed or
/// nothing came back).
pub fn key_answer(sent: Result<Option<String>, String>) -> (r: (bool, String))
    ensures
        match sent {
            Ok(Some(a)) => r.0 == answer_handled(a@) && r.1@ == a@,
            _ => !r.0 && r.1@ == Seq::<char>::empty(),
        },
{
    match sent {
        Ok(Some(answer)) => {
            let handled = match json_boolean_field(answer.as_str(), "handled") {
                Some(Some(b)) => b,
                _ => false,
            };
            (handled, answer)
        },
        _ => (false, String::new()),
    }
}

/// The text to commit that an answer carries: its "commit" field when that is
/// a non-empty string (an empty answer is not looked into).
pub open spec fn answer_commit(text: Seq<char>) -> Option<Seq<char>> {
    if text.len() == 0 {
        None
    } else {
        answer_commit_field(text)
    }
}

/// The "commit" field of an answer when it is a non-empty string.
pub open spec fn answer_commit_field(text: Seq<char>) -> Option<Seq<char>> {
    match json_field(text, "commit"@) {
        Some(Some(JsonScalarView::Text(c))) => if c.len() > 0 {
            Some(c)
        } else {
            None
        },
        _ => None,
    }
}

/// What the text service does with a key-down: whether it eats the key, and
/// the text it commits (in an edit session) when the answer carries one.
pub fn key_down_outcome(handled: bool, answer: &str) -> (r: (bool, Option<String>))
    ensures
        r.0 == handled,
        match answer_commit(answer@) {
            None => r.1 is None,
            Some(c) => r.1 matches Some(t) && t@ == c,
        },
{
    if answer.is_empty() {
        return (handled, None);
    }
    let commit = match json_text_field(answer, "commit") {
        Some(Some(c)) => if !c.as_str().is_empty() {
            Some(c)
        } else {
            None
        },
        _ => None,
    };
    (handled, commit)
}

/// The size of the server's read buffer.
pub const PIPE_BUFFER_SIZE: usize = 4096;

/// What a client connection of the pipe server does next.
pub enum ConnectionStep {
    /// Read at most `capacity` bytes and report them with `on_read`.
    Read { capacity: usize },
    /// Give this request to the handler and report its answer with `on_answer`.
    Handle(String),
    /// Write these bytes and report with `on_written`.
    Write(Vec<u8>),
    /// Close the connection.
    Close,
}

/// Where a client connection stands.
#[derive(PartialEq, Eq, Structural, Clone, Copy, Debug)]
pub enum ConnectionPhase {
    /// Reading (more of) a request into the buffer.
    Filling,
    /// Waiting for the handler's answer.
    Answering,
    /// Waiting for the answer to be written.
    Writing,
    /// The connection is over.
    Closed,
}

/// `buf` with `d` written at position `at`.
pub open spec fn written_at(buf: Seq<u8>, at: int, d: Seq<u8>) -> Seq<u8> {
    buf.take(at) + d + buf.skip(at + d.len())
}

proof fn lemma_written_at(buf: Seq<u8>, at: int, d: Seq<u8>)
    requires
        0 <= at,
        at + d.len() <= buf.len(),
    ensures
        written_at(buf, at, d).len() == buf.len(),
        forall|k: int|
            0 <= k < buf.len() ==> #[trigger] written_at(buf, at, d)[k] == if at <= k < at + d.len() {
                d[k - at]
            } else {
                buf[k]
            },
{
    let w = written_at(buf, at, d);
    assert forall|k: int| 0 <= k < buf.len() implies #[trigger] w[k] == if at <= k < at + d.len() {
        d[k - at]
    } else {
        buf[k]
    } by {
        if k < at {
            assert(w[k] == buf.take(at)[k]);
        } else if k < at + d.len() {
            assert(w[k] == (buf.take(at) + d)[k]);
        } else {
            assert(w[k] == buf.skip(at + d.len())[k - at - d.len()]);
        }
    }
}

/// A client connection of the pipe server: a fixed buffer, how many bytes of
/// it hold the pending request, and the phase.
pub struct PipeConnection {
    buffer: Vec<u8>,
    offset: usize,
    phase: ConnectionPhase,
}

impl PipeConnection {
    /// The buffer's contents.
    pub closed spec fn buffer(&self) -> Seq<u8> {
        self.buffer@
    }

    /// How many bytes of the buffer hold the pending request.
    pub closed spec fn offset(&self) -> nat {
        self.offset as nat
    }

    /// Where the connection stands.
    pub closed spec fn phase(&self) -> ConnectionPhase {
        self.phase
    }

    /// The connection's consistency: a full-size buffer, the request inside it.
    pub open spec fn wf(&self) -> bool {
        &&& self.buffer().len() == PIPE_BUFFER_SIZE
        &&& self.offset() <= PIPE_BUFFER_SIZE
    }

    /// The most a read may bring: the free rest of the buffer.
    pub open spec fn capacity(&self) -> nat {
        (PIPE_BUFFER_SIZE - self.offset()) as nat
    }

    /// A new connection: an empty (zeroed) buffer; the first step reads up
    /// to a whole buffer.
    pub fn open() -> (r: (PipeConnection, ConnectionStep))
        ensures
            r.0.wf(),
            r.0.buffer() == Seq::new(PIPE_BUFFER_SIZE as nat, |i: int| 0u8),
            r.0.offset() == 0,
            r.0.phase() == ConnectionPhase::Filling,
            r.1 matches ConnectionStep::Read { capacity } && capacity == PIPE_BUFFER_SIZE,
    {
        let mut buffer: Vec<u8> = Vec::new();
        let mut i: usize = 0;
        while i < PIPE_BUFFER_SIZE
            invariant
                i <= PIPE_BUFFER_SIZE,
                buffer@ == Seq::new(i as nat, |j: int| 0u8),
            decreases PIPE_BUFFER_SIZE - i,
        {
            buffer.push(0u8);
            assert(buffer@ =~= Seq::new((i + 1) as nat, |j: int| 0u8));
            i = i + 1;
        }
        (
            PipeConnection { buffer, offset: 0, phase: ConnectionPhase::Filling },
            ConnectionStep::Read { capacity: PIPE_BUFFER_SIZE },
        )
    }

    fn write_at(&mut self, at: usize, data: &Vec<u8>)
        requires
            old(self).wf(),
            at + data@.len() <= PIPE_BUFFER_SIZE,
        ensures
            final(self).buffer() == written_at(old(self).buffer(), at as int, data@),
            final(self).offset() == old(self).offset(),
            final(self).phase() == old(self).phase(),
    {
        let mut i: usize = 0;
        while i < data.len()
            invariant
                at + data@.len() <= PIPE_BUFFER_SIZE,
                self.buffer@.len() == PIPE_BUFFER_SIZE,
                old(self).buffer@.len() == PIPE_BUFFER_SIZE,
                i <= data@.len(),
                self.offset == old(self).offset,
                self.phase == old(self).phase,
                self.buffer@ == written_at(old(self).buffer@, at as int, data@.take(i as int)),
            decreases data.len() - i,
        {
            let ghost prev = self.buffer@;
            self.buffer.set(at + i, data[i]);
            proof {
                lemma_written_at(old(self).buffer@, at as int, data@.take(i as int));
                lemma_written_at(old(self).buffer@, at as int, data@.take(i + 1));
                assert(self.buffer@ =~= written_at(old(self).buffer@, at as int, data@.take(i + 1)));
            }
            i = i + 1;
        }
        assert(data@.take(data@.len() as int) =~= data@);
    }

    /// Reports a read: `None` when it failed, the bytes otherwise (none at
    /// the end of the stream). A failed or empty read closes the connection;
    /// otherwise the bytes are appended to the pending request and the whole
    /// request goes to the handler.
    pub fn on_read(&mut self, data: Option<Vec<u8>>) -> (step: ConnectionStep)
        requires
            old(self).wf(),
            old(self).phase() is Filling,
            data matches Some(d) ==> d@.len() <= old(self).capacity(),
        ensures
            final(self).wf(),
            match data {
                Some(d) if d@.len() > 0 => {
                    let buf = written_at(old(self).buffer(), old(self).offset() as int, d@);
                    let n = old(self).offset() + d@.len();
                    &&& final(self).buffer() == buf
                    &&& final(self).offset() == n
                    &&& final(self).phase() == ConnectionPhase::Answering
                    &&& step matches ConnectionStep::Handle(r) && r@ == message_text(buf, n as int)
                },
                _ => final(self).phase() == ConnectionPhase::Closed && step is Close
                    && final(self).buffer() == old(self).buffer(),
            },
    {
        match data {
            Some(d) => {
                if d.len() == 0 {
                    self.phase = ConnectionPhase::Closed;
                    return ConnectionStep::Close;
                }
                let at = self.offset;
                self.write_at(at, &d);
                self.offset = at + d.len();
                self.phase = ConnectionPhase::Answering;
                let request = decode_message(self.buffer.as_slice(), self.offset);
                ConnectionStep::Handle(request)
            },
            None => {
                self.phase = ConnectionPhase::Closed;
                ConnectionStep::Close
            },
        }
    }

    /// Reports the handler's answer (`None` for none); it is written back
    /// (see `response_bytes`).
    pub fn on_answer(&mut self, answer: Option<String>) -> (step: ConnectionStep)
        requires
            old(self).wf(),
            old(self).phase() is Answering,
        ensures
            final(self).wf(),
            final(self).buffer() == old(self).buffer(),
            final(self).offset() == old(self).offset(),
            final(self).phase() == ConnectionPhase::Writing,
            step matches ConnectionStep::Write(b) && b@ == vstd::utf8::encode_utf8(
                match answer {
                    Some(s) => s@,
                    None => handled_false(),
                },
            ),
    {
        self.phase = ConnectionPhase::Writing;
        ConnectionStep::Write(response_bytes(&answer))
    }

    /// Reports the write: a failed write closes the connection; otherwise the
    /// request is done and the connection reads the next request into the
    /// emptied buffer, so that every request gets its own answer.
    pub fn on_written(&mut self, ok: bool) -> (step: ConnectionStep)
        requires
            old(self).wf(),
            old(self).phase() is Writing,
        ensures
            final(self).wf(),
            final(self).buffer() == old(self).buffer(),
            !ok ==> final(self).phase() == ConnectionPhase::Closed && step is Close
                && final(self).offset() == old(self).offset(),
            ok ==> final(self).phase() == ConnectionPhase::Filling,
            ok ==> final(self).offset() == 0,
            ok ==> (step matches ConnectionStep::Read { capacity } && capacity == PIPE_BUFFER_SIZE),
    {
        if !ok {
            self.phase = ConnectionPhase::Closed;
            return ConnectionStep::Close;
        }
        self.offset = 0;
        self.phase = ConnectionPhase::Filling;
        ConnectionStep::Read { capacity: PIPE_BUFFER_SIZE }
    }
}

/// Whether the pipe server's accept loop runs.
pub struct PipeServer {
    running: bool,
}

impl PipeServer {
    /// Whether the accept loop runs.
    pub closed spec fn running(&self) -> bool {
        self.running
    }

    /// A server that does not run yet.
    pub fn new() -> (s: PipeServer)
        ensures
            !s.running(),
    {
        PipeServer { running: false }
    }

    /// Starting: the accept loop is to be entered only when the server was
    /// not running; a second start returns at once (successfully).
    pub fn start(&mut self) -> (enter_loop: bool)
        ensures
            enter_loop == !old(self).running(),
            final(self).running(),
    {
        let enter = !self.running;
        self.running = true;
        enter
    }

    /// Stopping: the accept loop is to be signalled only when the server was
    /// running.
    pub fn stop(&mut self) -> (signal: bool)
        ensures
            signal == old(self).running(),
            !final(self).running(),
    {
        let signal = self.running;
        self.running = false;
        signal
    }

    /// The accept loop saw the stop signal and ends.
    pub fn on_stop_signal(&mut self)
        ensures
            !final(self).running(),
    {
        self.running = false;
    }
}

} // verus!
