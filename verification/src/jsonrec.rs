//! Construction of the synthesized wire records the proxy emits in place of
//! backend output: blocked envelopes, masked rewrites and error records.
//!
//! The records are JSON objects built by hand so that their exact text is
//! part of the contract; string values are escaped per the JSON grammar.

use vstd::prelude::*;
use vstd::string::StrSliceExecFns;
use vstd::string::StringExecFns;
use crate::util::push_char;

verus! {

/// The hexadecimal digit for `n`.
pub open spec fn hex_digit(n: int) -> char {
    if n == 0 {
        '0'
    } else if n == 1 {
        '1'
    } else if n == 2 {
        '2'
    } else if n == 3 {
        '3'
    } else if n == 4 {
        '4'
    } else if n == 5 {
        '5'
    } else if n == 6 {
        '6'
    } else if n == 7 {
        '7'
    } else if n == 8 {
        '8'
    } else if n == 9 {
        '9'
    } else if n == 10 {
        'a'
    } else if n == 11 {
        'b'
    } else if n == 12 {
        'c'
    } else if n == 13 {
        'd'
    } else if n == 14 {
        'e'
    } else {
        'f'
    }
}

/// The JSON escape of one character: quote, backslash and the common control
/// characters get their two-character escapes, other control characters get
/// the `\u00XX` form, and everything else stands as itself.
pub open spec fn escape_char(c: char) -> Seq<char> {
    if c == '"' {
        seq!['\\', '"']
    } else if c == '\\' {
        seq!['\\', '\\']
    } else if c == '\n' {
        seq!['\\', 'n']
    } else if c == '\r' {
        seq!['\\', 'r']
    } else if c == '\t' {
        seq!['\\', 't']
    } else if (c as u32) < 32 {
        seq!['\\', 'u', '0', '0', hex_digit((c as u32) as int / 16), hex_digit((c as u32) as int % 16)]
    } else {
        seq![c]
    }
}

/// The JSON escape of a whole text.
pub open spec fn json_escaped(s: Seq<char>) -> Seq<char>
    decreases s.len(),
{
    if s.len() == 0 {
        Seq::empty()
    } else {
        json_escaped(s.drop_last()) + escape_char(s.last())
    }
}

/// A JSON string literal: the escaped text in double quotes.
pub open spec fn json_str(s: Seq<char>) -> Seq<char> {
    seq!['"'] + json_escaped(s) + seq!['"']
}

/// A JSON boolean literal.
pub open spec fn bool_lit(b: bool) -> Seq<char> {
    if b {
        "true"@
    } else {
        "false"@
    }
}

/// A chat-shaped wire record with an assistant message.
pub open spec fn chat_record(
    model: Seq<char>,
    created_at: Seq<char>,
    role: Seq<char>,
    content: Seq<char>,
    done: bool,
) -> Seq<char> {
    "{\"model\":"@ + json_str(model) + ",\"created_at\":"@ + json_str(created_at)
        + ",\"message\":{\"role\":"@ + json_str(role) + ",\"content\":"@ + json_str(content)
        + "},\"done\":"@ + bool_lit(done) + "}"@
}

/// A generate-shaped wire record.
pub open spec fn generate_record(
    model: Seq<char>,
    created_at: Seq<char>,
    response: Seq<char>,
    done: bool,
) -> Seq<char> {
    "{\"model\":"@ + json_str(model) + ",\"created_at\":"@ + json_str(created_at)
        + ",\"response\":"@ + json_str(response) + ",\"done\":"@ + bool_lit(done) + "}"@
}

/// A terminal error record.
pub open spec fn error_record(model: Seq<char>, error: Seq<char>) -> Seq<char> {
    "{\"model\":"@ + json_str(model) + ",\"error\":"@ + json_str(error) + ",\"done\":true}"@
}

fn hex_digit_char(n: u32) -> (r: char)
    requires
        n < 16,
    ensures
        r == hex_digit(n as int),
{
    if n == 0 {
        '0'
    } else if n == 1 {
        '1'
    } else if n == 2 {
        '2'
    } else if n == 3 {
        '3'
    } else if n == 4 {
        '4'
    } else if n == 5 {
        '5'
    } else if n == 6 {
        '6'
    } else if n == 7 {
        '7'
    } else if n == 8 {
        '8'
    } else if n == 9 {
        '9'
    } else if n == 10 {
        'a'
    } else if n == 11 {
        'b'
    } else if n == 12 {
        'c'
    } else if n == 13 {
        'd'
    } else if n == 14 {
        'e'
    } else {
        'f'
    }
}

/// Escapes a text for use inside a JSON string literal.
pub fn json_escape(s: &str) -> (r: String)
    ensures
        r@ == json_escaped(s@),
{
    let n = s.unicode_len();
    let mut out = String::new();
    let mut i: usize = 0;
    proof {
        assert(s@.take(0) =~= Seq::<char>::empty());
    }
    while i < n
        invariant
            i <= n,
            n == s@.len(),
            out@ == json_escaped(s@.take(i as int)),
        decreases n - i,
    {
        let c = s.get_char(i);
        let ghost prev = out@;
        proof {
            assert(s@.take(i as int + 1).drop_last() =~= s@.take(i as int));
            assert(s@.take(i as int + 1).last() == s@[i as int]);
        }
        if c == '"' {
            push_char(&mut out, '\\');
            push_char(&mut out, '"');
        } else if c == '\\' {
            push_char(&mut out, '\\');
            push_char(&mut out, '\\');
        } else if c == '\n' {
            push_char(&mut out, '\\');
            push_char(&mut out, 'n');
        } else if c == '\r' {
            push_char(&mut out, '\\');
            push_char(&mut out, 'r');
        } else if c == '\t' {
            push_char(&mut out, '\\');
            push_char(&mut out, 't');
        } else if (c as u32) < 32 {
            let v = c as u32;
            push_char(&mut out, '\\');
            push_char(&mut out, 'u');
            push_char(&mut out, '0');
            push_char(&mut out, '0');
            push_char(&mut out, hex_digit_char(v / 16));
            push_char(&mut out, hex_digit_char(v % 16));
        } else {
            push_char(&mut out, c);
        }
        proof {
            assert(out@ =~= prev + escape_char(s@[i as int]));
        }
        i = i + 1;
    }
    proof {
        assert(s@.take(n as int) =~= s@);
    }
    out
}

/// Appends a JSON string literal holding `s` to `out`.
fn append_json_str(out: &mut String, s: &str)
    ensures
        final(out)@ == old(out)@ + json_str(s@),
{
    push_char(out, '"');
    let escaped = json_escape(s);
    out.append(escaped.as_str());
    push_char(out, '"');
    proof {
        assert(final(out)@ =~= old(out)@ + json_str(s@));
    }
}

/// Builds a chat-shaped wire record.
pub fn encode_chat_record(
    model: &str,
    created_at: &str,
    role: &str,
    content: &str,
    done: bool,
) -> (r: String)
    ensures
        r@ == chat_record(model@, created_at@, role@, content@, done),
{
    let mut out = String::new();
    out.append("{\"model\":");
    append_json_str(&mut out, model);
    out.append(",\"created_at\":");
    append_json_str(&mut out, created_at);
    out.append(",\"message\":{\"role\":");
    append_json_str(&mut out, role);
    out.append(",\"content\":");
    append_json_str(&mut out, content);
    out.append("},\"done\":");
    if done {
        out.append("true");
    } else {
        out.append("false");
    }
    out.append("}");
    proof {
        assert(out@ =~= chat_record(model@, created_at@, role@, content@, done));
    }
    out
}

/// Builds a generate-shaped wire record.
pub fn encode_generate_record(
    model: &str,
    created_at: &str,
    response: &str,
    done: bool,
) -> (r: String)
    ensures
        r@ == generate_record(model@, created_at@, response@, done),
{
    let mut out = String::new();
    out.append("{\"model\":");
    append_json_str(&mut out, model);
    out.append(",\"created_at\":");
    append_json_str(&mut out, created_at);
    out.append(",\"response\":");
    append_json_str(&mut out, response);
    out.append(",\"done\":");
    if done {
        out.append("true");
    } else {
        out.append("false");
    }
    out.append("}");
    proof {
        assert(out@ =~= generate_record(model@, created_at@, response@, done));
    }
    out
}

/// Builds a terminal error record.
pub fn encode_error_record(model: &str, error: &str) -> (r: String)
    ensures
        r@ == error_record(model@, error@),
{
    let mut out = String::new();
    out.append("{\"model\":");
    append_json_str(&mut out, model);
    out.append(",\"error\":");
    append_json_str(&mut out, error);
    out.append(",\"done\":true}");
    proof {
        assert(out@ =~= error_record(model@, error@));
    }
    out
}

} // verus!
