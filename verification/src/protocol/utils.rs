use crate::protocol::error::ProtocolError;
use crate::protocol::types::Reader;
use vstd::prelude::*;

verus! {

/// Reads one byte; fails at the end of the input.
pub fn read_u8(reader: &mut Reader<'_>) -> (res: Result<u8, ProtocolError>)
    requires
        old(reader).wf(),
    ensures
        final(reader).wf(),
        final(reader).data == old(reader).data,
        old(reader).pos < old(reader).data@.len() ==> res == Ok::<u8, ProtocolError>(
            old(reader).data@[old(reader).pos as int],
        ) && final(reader).pos == old(reader).pos + 1,
        old(reader).pos >= old(reader).data@.len() ==> res == Err::<u8, ProtocolError>(
            ProtocolError::UnexpectedEof,
        ),
{
    if reader.pos < reader.data.len() {
        let b = reader.data[reader.pos];
        reader.pos = reader.pos + 1;
        Ok(b)
    } else {
        Err(ProtocolError::UnexpectedEof)
    }
}

/// Appends one byte.
pub fn write_u8(writer: &mut Vec<u8>, value: u8) -> (res: Result<(), ProtocolError>)
    ensures
        res is Ok,
        final(writer)@ == old(writer)@.push(value),
{
    writer.push(value);
    Ok(())
}

/// Appends all of `bytes`.
pub fn write_all(writer: &mut Vec<u8>, bytes: &[u8])
    ensures
        final(writer)@ == old(writer)@ + bytes@,
{
    let mut i: usize = 0;
    while i < bytes.len()
        invariant
            i <= bytes@.len(),
            writer@ =~= old(writer)@ + bytes@.take(i as int),
        decreases bytes.len() - i,
    {
        writer.push(bytes[i]);
        i = i + 1;
    }
    assert(bytes@.take(i as int) =~= bytes@);
}

/// What the server answers to a status request, serialised as JSON.
#[derive(Debug)]
pub struct ServerListPingStatusResponse {
    pub version: Version,
    pub players: Players,
    pub description: Description,
}

/// The game version and protocol number the server speaks.
#[derive(Debug)]
pub struct Version {
    pub name: std::string::String,
    pub protocol: u32,
}

/// The player limit and the number of players online.
#[derive(Debug)]
pub struct Players {
    pub max: usize,
    pub online: usize,
}

/// The message of the day.
#[derive(Debug)]
pub struct Description {
    pub text: std::string::String,
}

/// The lower-case hexadecimal digit for `d`, below sixteen.
pub open spec fn json_hex_digit(d: int) -> char {
    if d < 10 {
        (d + 48) as char
    } else {
        (d + 87) as char
    }
}

/// How one character stands inside a JSON string: the quote and the backslash
/// get a backslash in front; backspace, tab, line feed, form feed and carriage
/// return are written `\b`, `\t`, `\n`, `\f`, `\r`; the other characters below
/// 0x20 are written `\u00` and two lower-case hexadecimal digits; every other
/// character stands for itself.
pub open spec fn json_escape_char(c: char) -> Seq<char> {
    if c == '"' {
        seq!['\\', '"']
    } else if c == '\\' {
        seq!['\\', '\\']
    } else if c == '\u{8}' {
        seq!['\\', 'b']
    } else if c == '\t' {
        seq!['\\', 't']
    } else if c == '\n' {
        seq!['\\', 'n']
    } else if c == '\u{c}' {
        seq!['\\', 'f']
    } else if c == '\r' {
        seq!['\\', 'r']
    } else if (c as int) < 0x20 {
        seq!['\\', 'u', '0', '0', json_hex_digit((c as int) / 16), json_hex_digit((c as int) % 16)]
    } else {
        seq![c]
    }
}

/// The characters of `s`, each escaped as inside a JSON string.
pub open spec fn json_escape(s: Seq<char>) -> Seq<char>
    decreases s.len(),
{
    if s.len() == 0 {
        Seq::empty()
    } else {
        json_escape(s.drop_last()) + json_escape_char(s.last())
    }
}

/// A string as JSON writes it: in quotes, its characters escaped.
pub open spec fn json_string(s: Seq<char>) -> Seq<char> {
    seq!['"'] + json_escape(s) + seq!['"']
}

/// The compact JSON text of the object whose only member is `key`, set to the
/// string `value`.
pub open spec fn spec_json_object(key: Seq<char>, value: Seq<char>) -> Seq<char> {
    seq!['{'] + json_string(key) + seq![':'] + json_string(value) + seq!['}']
}

/// The compact JSON text of the object whose only member is `"text"`, set to the
/// string `reason`: `{"text":"`, the escaped reason, `"}`.
pub open spec fn spec_text_component(reason: Seq<char>) -> Seq<char> {
    spec_json_object(seq!['t', 'e', 'x', 't'], reason)
}

/// serde_json: the `Display` of the object `{key: value}`, which writes it
/// compactly and escapes both strings as `format_escaped_str` does.
#[verifier::external_body]
fn json_object(key: &str, value: &str) -> (res: std::string::String)
    ensures
        res@ == spec_json_object(key@, value@),
{
    let mut object = serde_json::Map::new();
    object.insert(key.to_string(), serde_json::Value::String(value.to_string()));
    serde_json::Value::Object(object).to_string()
}

/// The text component whose text is `reason`, as JSON.
pub(crate) fn text_component(reason: &str) -> (res: std::string::String)
    ensures
        res@ == spec_text_component(reason@),
{
    let res = json_object("text", reason);
    proof {
        reveal_strlit("text");
        assert("text"@ =~= seq!['t', 'e', 'x', 't']);
    }
    res
}

} // verus!
