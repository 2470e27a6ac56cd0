//! Framing of the JSON texts the relay sends: the escaping of a string for
//! a place inside a JSON document, the outbound completion request body, and
//! the reply body sent back to the client.

use vstd::prelude::*;
use crate::config::{MODEL_ID, PERSONA_PROMPT};

verus! {

/// The hexadecimal digit for a value below sixteen.
pub open spec fn hex_digit(n: u32) -> char
    recommends
        n < 16,
{
    if n == 0 {
        '0'
    } else if n == 1 {
        '1'
    } else if n == 2 {
        '2'
    } else if n == 3 {
        '3'
    } else if n == 4 {
        '4'
    } else if n == 5 {
        '5'
    } else if n == 6 {
        '6'
    } else if n == 7 {
        '7'
    } else if n == 8 {
        '8'
    } else if n == 9 {
        '9'
    } else if n == 10 {
        'a'
    } else if n == 11 {
        'b'
    } else if n == 12 {
        'c'
    } else if n == 13 {
        'd'
    } else if n == 14 {
        'e'
    } else {
        'f'
    }
}

/// How one character appears inside a JSON string literal: quote, backslash
/// and the common control characters get their two-character escapes, any
/// other control character a `\u00XX` escape, and every other character
/// stands for itself.
pub open spec fn escape_char(c: char) -> Seq<char> {
    if c == '"' {
        seq!['\\', '"']
    } else if c == '\\' {
        seq!['\\', '\\']
    } else if c == '\n' {
        seq!['\\', 'n']
    } else if c == '\r' {
        seq!['\\', 'r']
    } else if c == '\t' {
        seq!['\\', 't']
    } else if (c as u32) < 0x20 {
        seq!['\\', 'u', '0', '0', hex_digit((c as u32) / 16), hex_digit((c as u32) % 16)]
    } else {
        seq![c]
    }
}

/// The body of a JSON string literal holding the given text.
pub open spec fn escape_string(s: Seq<char>) -> Seq<char>
    decreases s.len(),
{
    if s.len() == 0 {
        Seq::empty()
    } else {
        escape_string(s.drop_last()) + escape_char(s.last())
    }
}

/// Escaping a text one character longer appends that character's escape.
pub proof fn lemma_escape_string_push(s: Seq<char>, c: char)
    ensures
        escape_string(s.push(c)) == escape_string(s) + escape_char(c),
{
    assert(s.push(c).drop_last() =~= s);
    assert(s.push(c).last() == c);
}

/// Relies on `String::push`: appends the one character at the end.
#[verifier::external_body]
fn push_char(s: &mut String, c: char)
    ensures
        final(s)@ == old(s)@.push(c),
{
    s.push(c);
}

/// The hexadecimal digit for a value below sixteen.
fn hex_digit_char(n: u32) -> (r: char)
    requires
        n < 16,
    ensures
        r == hex_digit(n),
{
    if n == 0 {
        '0'
    } else if n == 1 {
        '1'
    } else if n == 2 {
        '2'
    } else if n == 3 {
        '3'
    } else if n == 4 {
        '4'
    } else if n == 5 {
        '5'
    } else if n == 6 {
        '6'
    } else if n == 7 {
        '7'
    } else if n == 8 {
        '8'
    } else if n == 9 {
        '9'
    } else if n == 10 {
        'a'
    } else if n == 11 {
        'b'
    } else if n == 12 {
        'c'
    } else if n == 13 {
        'd'
    } else if n == 14 {
        'e'
    } else {
        'f'
    }
}

/// Escapes a text for inclusion between the quotes of a JSON string literal.
pub fn escape_json_string(s: &str) -> (r: String)
    ensures
        r@ == escape_string(s@),
{
    let n = s.unicode_len();
    let mut out = String::new();
    let mut i: usize = 0;
    while i < n
        invariant
            n == s@.len(),
            i <= n,
            out@ == escape_string(s@.subrange(0, i as int)),
        decreases n - i,
    {
        let c = s.get_char(i);
        if c == '"' {
            proof {
                reveal_strlit("\\\"");
            }
            out.append("\\\"");
            assert("\\\""@ =~= escape_char(c));
        } else if c == '\\' {
            proof {
                reveal_strlit("\\\\");
            }
            out.append("\\\\");
            assert("\\\\"@ =~= escape_char(c));
        } else if c == '\n' {
            proof {
                reveal_strlit("\\n");
            }
            out.append("\\n");
            assert("\\n"@ =~= escape_char(c));
        } else if c == '\r' {
            proof {
                reveal_strlit("\\r");
            }
            out.append("\\r");
            assert("\\r"@ =~= escape_char(c));
        } else if c == '\t' {
            proof {
                reveal_strlit("\\t");
            }
            out.append("\\t");
            assert("\\t"@ =~= escape_char(c));
        } else if (c as u32) < 0x20 {
            proof {
                reveal_strlit("\\u00");
            }
            out.append("\\u00");
            push_char(&mut out, hex_digit_char((c as u32) / 16));
            push_char(&mut out, hex_digit_char((c as u32) % 16));
            assert("\\u00"@.push(hex_digit((c as u32) / 16)).push(hex_digit((c as u32) % 16))
                =~= escape_char(c));
        } else {
            push_char(&mut out, c);
            assert(Seq::<char>::empty().push(c) =~= escape_char(c));
        }
        proof {
            lemma_escape_string_push(s@.subrange(0, i as int), c);
            assert(s@.subrange(0, i as int).push(c) =~= s@.subrange(0, i as int + 1));
        }
        i = i + 1;
    }
    proof {
        assert(s@.subrange(0, n as int) =~= s@);
    }
    out
}

/// The opening of the outbound completion request body, up to the start of
/// the user's message.
pub open spec fn request_body_prefix() -> Seq<char> {
    "{\"model\":\""@ + MODEL_ID@ + "\",\"messages\":[{\"role\":\"system\",\"content\":\""@
        + PERSONA_PROMPT@ + "\"},{\"role\":\"user\",\"content\":\""@
}

/// The outbound completion request body for a user message: the fixed model
/// identity, the fixed persona prompt as the system turn, and the message,
/// escaped, as the sole user turn.
pub open spec fn spec_request_body(message: Seq<char>) -> Seq<char> {
    request_body_prefix() + escape_string(message) + "\"}]}"@
}

/// Builds the outbound completion request body for a user message.
pub fn build_upstream_body(message: &str) -> (r: String)
    ensures
        r@ == spec_request_body(message@),
{
    let mut out = String::from_str("{\"model\":\"");
    out.append(MODEL_ID);
    out.append("\",\"messages\":[{\"role\":\"system\",\"content\":\"");
    out.append(PERSONA_PROMPT);
    out.append("\"},{\"role\":\"user\",\"content\":\"");
    let escaped = escape_json_string(message);
    out.append(escaped.as_str());
    out.append("\"}]}");
    out
}

/// The reply body sent back to the client for a reply text: the text,
/// escaped, as the sole `message` member.
pub open spec fn spec_response_body(message: Seq<char>) -> Seq<char> {
    "{\"message\":\""@ + escape_string(message) + "\"}"@
}

/// Builds the reply body sent back to the client for a reply text.
pub fn build_response_body(message: &str) -> (r: String)
    ensures
        r@ == spec_response_body(message@),
{
    let mut out = String::from_str("{\"message\":\"");
    let escaped = escape_json_string(message);
    out.append(escaped.as_str());
    out.append("\"}");
    out
}

} // verus!
