//! The JSON wire shapes: a todo record, the list of records, the
//! `{"data": ...}` success envelope, and the `{"message": ...}` error
//! body, each with a spec-level description of the exact character
//! sequence produced.

use vstd::prelude::*;

use crate::num::{dec_str_of_i64, fmt_i64, chars_to_string};
use crate::todo::{Todo, TodoView};

verus! {

/// The hexadecimal digit character for a value below sixteen.
pub open spec fn hex_char(d: int) -> char {
    if d == 0 {
        '0'
    } else if d == 1 {
        '1'
    } else if d == 2 {
        '2'
    } else if d == 3 {
        '3'
    } else if d == 4 {
        '4'
    } else if d == 5 {
        '5'
    } else if d == 6 {
        '6'
    } else if d == 7 {
        '7'
    } else if d == 8 {
        '8'
    } else if d == 9 {
        '9'
    } else if d == 10 {
        'a'
    } else if d == 11 {
        'b'
    } else if d == 12 {
        'c'
    } else if d == 13 {
        'd'
    } else if d == 14 {
        'e'
    } else {
        'f'
    }
}

/// How one character appears inside a JSON string: quote and backslash
/// are escaped, the named control characters take their short escapes,
/// the remaining control characters a `\u00..` escape, and everything
/// else stands as itself.
pub open spec fn json_escape_char(c: char) -> Seq<char> {
    if c == '"' {
        seq!['\\', '"']
    } else if c == '\\' {
        seq!['\\', '\\']
    } else if c == '\u{8}' {
        seq!['\\', 'b']
    } else if c == '\u{c}' {
        seq!['\\', 'f']
    } else if c == '\n' {
        seq!['\\', 'n']
    } else if c == '\r' {
        seq!['\\', 'r']
    } else if c == '\t' {
        seq!['\\', 't']
    } else if (c as int) < 32 {
        seq!['\\', 'u', '0', '0', hex_char((c as int) / 16), hex_char((c as int) % 16)]
    } else {
        seq![c]
    }
}

/// A string's characters, each escaped for JSON.
pub open spec fn json_escape(s: Seq<char>) -> Seq<char>
    decreases s.len(),
{
    if s.len() == 0 {
        Seq::empty()
    } else {
        json_escape(s.drop_last()) + json_escape_char(s.last())
    }
}

/// The JSON object for one todo record.
pub open spec fn json_of_todo(t: TodoView) -> Seq<char> {
    "{\"id_todo\":"@ + dec_str_of_i64(t.id_todo) + ",\"id_creator\":"@ + dec_str_of_i64(
        t.id_creator,
    ) + ",\"title\":\""@ + json_escape(t.title) + "\",\"status\":\""@ + t.status.spec_name()
        + "\"}"@
}

/// The comma-separated JSON objects of a record sequence.
pub open spec fn json_of_todo_list(s: Seq<TodoView>) -> Seq<char>
    decreases s.len(),
{
    if s.len() == 0 {
        Seq::empty()
    } else if s.len() == 1 {
        json_of_todo(s[0])
    } else {
        json_of_todo_list(s.drop_last()) + ","@ + json_of_todo(s.last())
    }
}

/// The JSON array of a record sequence.
pub open spec fn json_array_of_todos(s: Seq<TodoView>) -> Seq<char> {
    "["@ + json_of_todo_list(s) + "]"@
}

/// The success envelope around a JSON payload.
pub open spec fn json_data_envelope(payload: Seq<char>) -> Seq<char> {
    "{\"data\":"@ + payload + "}"@
}

/// The error body carrying a message.
pub open spec fn json_error_body(message: Seq<char>) -> Seq<char> {
    "{\"message\":\""@ + json_escape(message) + "\"}"@
}

/// Append a string's characters to the output.
fn push_chars(out: &mut Vec<char>, s: &str)
    ensures
        final(out)@ == old(out)@ + s@,
{
    let len = s.unicode_len();
    let mut i: usize = 0;
    while i < len
        invariant
            i <= len,
            len == s@.len(),
            out@ == old(out)@ + s@.take(i as int),
        decreases len - i,
    {
        out.push(s.get_char(i));
        assert(s@.take(i + 1) =~= s@.take(i as int).push(s@[i as int]));
        i = i + 1;
    }
    assert(s@.take(len as int) =~= s@);
}

/// The hexadecimal digit character, executably.
fn hex_char_exec(d: u32) -> (r: char)
    requires
        d < 16,
    ensures
        r == hex_char(d as int),
{
    if d == 0 {
        '0'
    } else if d == 1 {
        '1'
    } else if d == 2 {
        '2'
    } else if d == 3 {
        '3'
    } else if d == 4 {
        '4'
    } else if d == 5 {
        '5'
    } else if d == 6 {
        '6'
    } else if d == 7 {
        '7'
    } else if d == 8 {
        '8'
    } else if d == 9 {
        '9'
    } else if d == 10 {
        'a'
    } else if d == 11 {
        'b'
    } else if d == 12 {
        'c'
    } else if d == 13 {
        'd'
    } else if d == 14 {
        'e'
    } else {
        'f'
    }
}

/// Append one character's JSON escape to the output.
fn push_escaped_char(out: &mut Vec<char>, c: char)
    ensures
        final(out)@ == old(out)@ + json_escape_char(c),
{
    if c == '"' {
        out.push('\\');
        out.push('"');
    } else if c == '\\' {
        out.push('\\');
        out.push('\\');
    } else if c == '\u{8}' {
        out.push('\\');
        out.push('b');
    } else if c == '\u{c}' {
        out.push('\\');
        out.push('f');
    } else if c == '\n' {
        out.push('\\');
        out.push('n');
    } else if c == '\r' {
        out.push('\\');
        out.push('r');
    } else if c == '\t' {
        out.push('\\');
        out.push('t');
    } else if (c as u32) < 32 {
        let v = c as u32;
        out.push('\\');
        out.push('u');
        out.push('0');
        out.push('0');
        out.push(hex_char_exec(v / 16));
        out.push(hex_char_exec(v % 16));
    } else {
        out.push(c);
    }
    assert(out@ =~= old(out)@ + json_escape_char(c));
}

/// Append a string's characters, JSON-escaped, to the output.
fn push_escaped(out: &mut Vec<char>, s: &str)
    ensures
        final(out)@ == old(out)@ + json_escape(s@),
{
    let len = s.unicode_len();
    let mut i: usize = 0;
    while i < len
        invariant
            i <= len,
            len == s@.len(),
            out@ == old(out)@ + json_escape(s@.take(i as int)),
        decreases len - i,
    {
        let c = s.get_char(i);
        push_escaped_char(out, c);
        proof {
            assert(s@.take(i + 1).drop_last() =~= s@.take(i as int));
            assert(s@.take(i + 1).last() == c);
        }
        i = i + 1;
    }
    assert(s@.take(len as int) =~= s@);
}

/// Append a signed integer's decimal rendering to the output.
fn push_i64(out: &mut Vec<char>, n: i64)
    ensures
        final(out)@ == old(out)@ + dec_str_of_i64(n as int),
{
    let mut digits = fmt_i64(n);
    out.append(&mut digits);
}

/// Render one todo record as its JSON object.
pub fn todo_json(t: &Todo) -> (r: String)
    ensures
        r@ == json_of_todo(t@),
{
    let mut out: Vec<char> = Vec::new();
    push_chars(&mut out, "{\"id_todo\":");
    push_i64(&mut out, t.id_todo);
    push_chars(&mut out, ",\"id_creator\":");
    push_i64(&mut out, t.id_creator);
    push_chars(&mut out, ",\"title\":\"");
    push_escaped(&mut out, t.title.as_str());
    push_chars(&mut out, "\",\"status\":\"");
    push_chars(&mut out, t.status.name());
    push_chars(&mut out, "\"}");
    chars_to_string(&out)
}

/// Render a list of todo records as a JSON array.
pub fn todos_json(todos: &Vec<Todo>) -> (r: String)
    ensures
        r@ == json_array_of_todos(todos@.map_values(|t: Todo| t@)),
{
    let ghost views = todos@.map_values(|t: Todo| t@);
    let mut out: Vec<char> = Vec::new();
    push_chars(&mut out, "[");
    let mut i: usize = 0;
    while i < todos.len()
        invariant
            i <= todos.len(),
            views == todos@.map_values(|t: Todo| t@),
            views.len() == todos@.len(),
            out@ == "["@ + json_of_todo_list(views.take(i as int)),
        decreases todos.len() - i,
    {
        if i > 0 {
            push_chars(&mut out, ",");
        }
        let item = todo_json(&todos[i]);
        push_chars(&mut out, item.as_str());
        proof {
            assert(views.take(i + 1).drop_last() =~= views.take(i as int));
            assert(views.take(i + 1).last() == views[i as int]);
            assert(views[i as int] == todos@[i as int]@);
        }
        i = i + 1;
    }
    push_chars(&mut out, "]");
    proof {
        assert(views.take(views.len() as int) =~= views);
    }
    chars_to_string(&out)
}

/// Wrap a rendered payload in the success envelope.
pub fn data_envelope(payload: &str) -> (r: String)
    ensures
        r@ == json_data_envelope(payload@),
{
    let mut out: Vec<char> = Vec::new();
    push_chars(&mut out, "{\"data\":");
    push_chars(&mut out, payload);
    push_chars(&mut out, "}");
    chars_to_string(&out)
}

/// Render an error message as the JSON error body.
pub fn error_body(message: &str) -> (r: String)
    ensures
        r@ == json_error_body(message@),
{
    let mut out: Vec<char> = Vec::new();
    push_chars(&mut out, "{\"message\":\"");
    push_escaped(&mut out, message);
    push_chars(&mut out, "\"}");
    chars_to_string(&out)
}

} // verus!
