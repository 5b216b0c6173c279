//! The wire form of an envelope: one compact JSON object in the CLEF
//! layout, with keys in ascending order.
use vstd::prelude::*;
use vstd::string::*;
use crate::codec::{Envelope, opt_view};

verus! {

/// A lower-case hexadecimal digit.
pub open spec fn hex_char(d: nat) -> char {
    if d < 10 {
        digit_char(d)
    } else if d == 10 {
        'a'
    } else if d == 11 {
        'b'
    } else if d == 12 {
        'c'
    } else if d == 13 {
        'd'
    } else if d == 14 {
        'e'
    } else {
        'f'
    }
}

/// How one character stands inside a JSON string: the quote and the
/// backslash get a backslash, five control characters their short escape,
/// the other controls below 0x20 a `\u00XX` escape, and every other
/// character stands as itself.
pub open spec fn escape_char(c: char) -> Seq<char> {
    if c == '"' {
        seq!['\\', '"']
    } else if c == '\\' {
        seq!['\\', '\\']
    } else if c == '\x08' {
        seq!['\\', 'b']
    } else if c == '\t' {
        seq!['\\', 't']
    } else if c == '\n' {
        seq!['\\', 'n']
    } else if c == '\x0C' {
        seq!['\\', 'f']
    } else if c == '\r' {
        seq!['\\', 'r']
    } else if (c as u32) < 32 {
        seq!['\\', 'u', '0', '0', hex_char((c as u32 / 16) as nat), hex_char((c as u32 % 16) as nat)]
    } else {
        seq![c]
    }
}

pub open spec fn escape_all(s: Seq<char>) -> Seq<char>
    decreases s.len(),
{
    if s.len() == 0 {
        Seq::empty()
    } else {
        escape_all(s.drop_last()) + escape_char(s.last())
    }
}

/// The JSON string literal for the characters `s`, quotes included.
pub open spec fn json_string_of(s: Seq<char>) -> Seq<char> {
    seq!['"'] + escape_all(s) + seq!['"']
}

/// Relies on serde_json's `Display` for `Value::String`: the compact JSON
/// rendering of a string value, escaped by its escape table.
#[verifier::external_body]
fn json_string(s: &str) -> (r: String)
    ensures
        r@ == json_string_of(s@),
{
    serde_json::Value::String(s.to_string()).to_string()
}

pub open spec fn digit_char(d: nat) -> char {
    if d == 0 { '0' }
    else if d == 1 { '1' }
    else if d == 2 { '2' }
    else if d == 3 { '3' }
    else if d == 4 { '4' }
    else if d == 5 { '5' }
    else if d == 6 { '6' }
    else if d == 7 { '7' }
    else if d == 8 { '8' }
    else { '9' }
}

/// The decimal digits of `n`, without leading zeros.
pub open spec fn decimal(n: nat) -> Seq<char>
    decreases n,
{
    if n < 10 {
        seq![digit_char(n)]
    } else {
        decimal(n / 10) + seq![digit_char(n % 10)]
    }
}

/// Relies on serde_json's `From<u32>` for `Value` and its `Display`: an
/// unsigned number renders as its decimal digits.
#[verifier::external_body]
fn json_u32(n: u32) -> (r: String)
    ensures
        r@ == decimal(n as nat),
{
    serde_json::Value::from(n).to_string()
}

/// `key` followed by the JSON string for `v`, or nothing when `v` is absent.
pub open spec fn opt_member(key: Seq<char>, v: Option<Seq<char>>) -> Seq<char> {
    match v {
        Some(x) => key + json_string_of(x),
        None => Seq::empty(),
    }
}

pub open spec fn line_member(line: Option<u32>) -> Seq<char> {
    match line {
        Some(n) => ",\"line\":"@ + decimal(n as nat),
        None => Seq::empty(),
    }
}

/// The request body posted for envelope `e`.
pub open spec fn clef_body(e: Envelope) -> Seq<char> {
    "{\"@l\":"@ + json_string_of(e.level_name@)
        + ",\"@mt\":"@ + json_string_of(e.template@)
        + ",\"@t\":"@ + json_string_of(e.timestamp@)
        + opt_member(",\"@x\":"@, opt_view(e.trace))
        + opt_member(",\"file\":"@, opt_view(e.file))
        + ",\"level\":"@ + json_string_of(e.level_name@)
        + line_member(e.line)
        + opt_member(",\"module\":"@, opt_view(e.module))
        + ",\"msg\":"@ + json_string_of(e.msg@)
        + ",\"source\":"@ + json_string_of(e.source@)
        + opt_member(",\"target\":"@, opt_view(e.target))
        + ",\"thread\":"@ + json_string_of(e.thread@)
        + "}"@
}

fn push_member(body: &mut String, key: &str, value: &str)
    ensures
        final(body)@ == old(body)@ + key@ + json_string_of(value@),
{
    body.append(key);
    let v = json_string(value);
    body.append(v.as_str());
}

fn push_opt_member(body: &mut String, key: &str, value: &Option<String>)
    ensures
        final(body)@ == old(body)@ + opt_member(key@, opt_view(*value)),
{
    match value {
        Some(v) => {
            push_member(body, key, v.as_str());
            assert(final(body)@ =~= old(body)@ + opt_member(key@, opt_view(*value)));
        },
        None => {
            assert(body@ =~= old(body)@ + opt_member(key@, opt_view(*value)));
        },
    }
}

/// Encodes an envelope as the JSON object posted to the ingestion endpoint.
pub fn to_clef(e: &Envelope) -> (r: String)
    ensures
        r@ == clef_body(*e),
{
    let mut body = String::new();
    push_member(&mut body, "{\"@l\":", e.level_name.as_str());
    push_member(&mut body, ",\"@mt\":", e.template.as_str());
    push_member(&mut body, ",\"@t\":", e.timestamp.as_str());
    push_opt_member(&mut body, ",\"@x\":", &e.trace);
    push_opt_member(&mut body, ",\"file\":", &e.file);
    push_member(&mut body, ",\"level\":", e.level_name.as_str());
    match e.line {
        Some(n) => {
            body.append(",\"line\":");
            let digits = json_u32(n);
            body.append(digits.as_str());
        },
        None => {},
    }
    push_opt_member(&mut body, ",\"module\":", &e.module);
    push_member(&mut body, ",\"msg\":", e.msg.as_str());
    push_member(&mut body, ",\"source\":", e.source.as_str());
    push_opt_member(&mut body, ",\"target\":", &e.target);
    push_member(&mut body, ",\"thread\":", e.thread.as_str());
    body.append("}");
    assert(body@ =~= clef_body(*e));
    body
}

} // verus!
