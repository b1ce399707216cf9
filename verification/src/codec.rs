//! Wire encoding of server events: one JSON object per frame.
//!
//! - a history snapshot becomes
//!   `{"type":"history","messages":[{"id":...,"user":...,"message":...,"created_at":...},...]}`;
//! - a user chat event becomes
//!   `{"type":"chat_message","id":...,"user":...,"message":...,"created_at":...}`;
//! - a system notice and the bare pong both become `{"type":"pong"}`.
//!
//! String values are escaped as JSON string literals: quote, backslash and
//! the named control characters by their two-character escapes, any other
//! control character as `\u00XX`.

use vstd::prelude::*;

use crate::events::ServerEvent;
use crate::room::MessageResponse;
use crate::text::{str_chars, string_from_chars};
use crate::topic::{ChatMessage, MessageType};

verus! {

/// The lower-case hexadecimal digit for `v`.
pub open spec fn hex_digit(v: int) -> char {
    if v == 0 {
        '0'
    } else if v == 1 {
        '1'
    } else if v == 2 {
        '2'
    } else if v == 3 {
        '3'
    } else if v == 4 {
        '4'
    } else if v == 5 {
        '5'
    } else if v == 6 {
        '6'
    } else if v == 7 {
        '7'
    } else if v == 8 {
        '8'
    } else if v == 9 {
        '9'
    } else if v == 10 {
        'a'
    } else if v == 11 {
        'b'
    } else if v == 12 {
        'c'
    } else if v == 13 {
        'd'
    } else if v == 14 {
        'e'
    } else {
        'f'
    }
}

/// Runtime mirror of [`hex_digit`].
fn hex_digit_char(v: u32) -> (c: char)
    requires
        v < 16,
    ensures
        c == hex_digit(v as int),
{
    if v == 0 {
        '0'
    } else if v == 1 {
        '1'
    } else if v == 2 {
        '2'
    } else if v == 3 {
        '3'
    } else if v == 4 {
        '4'
    } else if v == 5 {
        '5'
    } else if v == 6 {
        '6'
    } else if v == 7 {
        '7'
    } else if v == 8 {
        '8'
    } else if v == 9 {
        '9'
    } else if v == 10 {
        'a'
    } else if v == 11 {
        'b'
    } else if v == 12 {
        'c'
    } else if v == 13 {
        'd'
    } else if v == 14 {
        'e'
    } else {
        'f'
    }
}

/// How one character appears inside a JSON string literal.
pub open spec fn json_escape_char(c: char) -> Seq<char> {
    if c == '"' {
        seq!['\\', '"']
    } else if c == '\\' {
        seq!['\\', '\\']
    } else if c == '\n' {
        seq!['\\', 'n']
    } else if c == '\r' {
        seq!['\\', 'r']
    } else if c == '\t' {
        seq!['\\', 't']
    } else if c == '\u{8}' {
        seq!['\\', 'b']
    } else if c == '\u{c}' {
        seq!['\\', 'f']
    } else if (c as u32) < 32 {
        seq!['\\', 'u', '0', '0', hex_digit(c as u32 as int / 16), hex_digit(c as u32 as int % 16)]
    } else {
        seq![c]
    }
}

/// The characters of `s` as they appear inside a JSON string literal.
pub open spec fn json_escape(s: Seq<char>) -> Seq<char>
    decreases s.len(),
{
    if s.len() == 0 {
        Seq::empty()
    } else {
        json_escape(s.drop_last()) + json_escape_char(s.last())
    }
}

/// `s` as a complete JSON string literal, with its surrounding quotes.
pub open spec fn quoted(s: Seq<char>) -> Seq<char> {
    seq!['"'] + json_escape(s) + seq!['"']
}

/// Appends the characters of `s` to `out`.
fn push_str_chars(out: &mut Vec<char>, s: &str)
    ensures
        final(out)@ == old(out)@ + s@,
{
    let mut chars = str_chars(s);
    out.append(&mut chars);
}

/// Appends the JSON-escaped characters of `s` to `out`.
fn push_escaped(out: &mut Vec<char>, s: &str)
    ensures
        final(out)@ == old(out)@ + json_escape(s@),
{
    let chars = str_chars(s);
    let n = chars.len();
    let mut i: usize = 0;
    while i < n
        invariant
            0 <= i <= n,
            n == chars@.len(),
            chars@ == s@,
            out@ == old(out)@ + json_escape(chars@.subrange(0, i as int)),
        decreases n - i,
    {
        let c = chars[i];
        if c == '"' {
            out.push('\\');
            out.push('"');
        } else if c == '\\' {
            out.push('\\');
            out.push('\\');
        } else if c == '\n' {
            out.push('\\');
            out.push('n');
        } else if c == '\r' {
            out.push('\\');
            out.push('r');
        } else if c == '\t' {
            out.push('\\');
            out.push('t');
        } else if c == '\u{8}' {
            out.push('\\');
            out.push('b');
        } else if c == '\u{c}' {
            out.push('\\');
            out.push('f');
        } else if (c as u32) < 32 {
            out.push('\\');
            out.push('u');
            out.push('0');
            out.push('0');
            out.push(hex_digit_char((c as u32) / 16));
            out.push(hex_digit_char((c as u32) % 16));
        } else {
            out.push(c);
        }
        proof {
            assert(chars@.subrange(0, i + 1 as int).drop_last() =~= chars@.subrange(0, i as int));
            assert(chars@.subrange(0, i + 1 as int).last() == chars@[i as int]);
            assert(out@ =~= old(out)@ + json_escape(chars@.subrange(0, i + 1 as int)));
        }
        i = i + 1;
    }
    proof {
        assert(chars@.subrange(0, n as int) =~= s@);
    }
}

/// Appends `s` as a quoted, escaped JSON string literal to `out`.
fn push_quoted(out: &mut Vec<char>, s: &str)
    ensures
        final(out)@ == old(out)@ + quoted(s@),
{
    out.push('"');
    push_escaped(out, s);
    out.push('"');
    proof {
        assert(out@ =~= old(out)@ + quoted(s@));
    }
}

/// One history entry as a JSON object.
pub open spec fn message_object(m: MessageResponse) -> Seq<char> {
    "{\"id\":"@ + quoted(m.id@) + ",\"user\":"@ + quoted(m.user_name@) + ",\"message\":"@ + quoted(
        m.content@,
    ) + ",\"created_at\":"@ + quoted(m.created_at@) + "}"@
}

/// Appends one history entry to `out`; see [`message_object`].
fn push_message_object(out: &mut Vec<char>, m: &MessageResponse)
    ensures
        final(out)@ == old(out)@ + message_object(*m),
{
    push_str_chars(out, "{\"id\":");
    push_quoted(out, m.id.as_str());
    push_str_chars(out, ",\"user\":");
    push_quoted(out, m.user_name.as_str());
    push_str_chars(out, ",\"message\":");
    push_quoted(out, m.content.as_str());
    push_str_chars(out, ",\"created_at\":");
    push_quoted(out, m.created_at.as_str());
    push_str_chars(out, "}");
    proof {
        assert(out@ =~= old(out)@ + message_object(*m));
    }
}

/// A history snapshot's entries as a comma-separated list of JSON objects.
pub open spec fn message_list(ms: Seq<MessageResponse>) -> Seq<char>
    decreases ms.len(),
{
    if ms.len() == 0 {
        Seq::empty()
    } else if ms.len() == 1 {
        message_object(ms[0])
    } else {
        message_list(ms.drop_last()) + seq![','] + message_object(ms.last())
    }
}

/// The full history frame.
pub open spec fn history_frame(ms: Seq<MessageResponse>) -> Seq<char> {
    "{\"type\":\"history\",\"messages\":["@ + message_list(ms) + "]}"@
}

/// The full chat-message frame.
pub open spec fn chat_message_frame(m: ChatMessage) -> Seq<char> {
    "{\"type\":\"chat_message\",\"id\":"@ + quoted(opt_view(m.id)) + ",\"user\":"@ + quoted(m.user@)
        + ",\"message\":"@ + quoted(m.message@) + ",\"created_at\":"@ + quoted(opt_view(m.created_at))
        + "}"@
}

/// The pong frame.
pub open spec fn pong_frame() -> Seq<char> {
    "{\"type\":\"pong\"}"@
}

/// The characters of an optional string; an absent one reads as empty.
pub open spec fn opt_view(o: Option<String>) -> Seq<char> {
    match o {
        Option::Some(s) => s@,
        Option::None => Seq::empty(),
    }
}

/// How a server event appears on the wire: a history snapshot and a user
/// chat event carry their payloads; a system notice and the bare pong are
/// both sent as the pong frame.
pub open spec fn encoded_server_event(e: ServerEvent) -> Seq<char> {
    match e {
        ServerEvent::History(ms) => history_frame(ms@),
        ServerEvent::ChatMessage(m) => if m.message_type == MessageType::System {
            pong_frame()
        } else {
            chat_message_frame(m)
        },
        ServerEvent::Pong => pong_frame(),
    }
}

/// Encodes a server event as its one-object JSON frame; see
/// [`encoded_server_event`].
pub fn encode_server_event(e: &ServerEvent) -> (r: String)
    ensures
        r@ == encoded_server_event(*e),
{
    let mut out: Vec<char> = Vec::new();
    match e {
        ServerEvent::History(ms) => {
            push_str_chars(&mut out, "{\"type\":\"history\",\"messages\":[");
            let ghost base = out@;
            let n = ms.len();
            let mut i: usize = 0;
            while i < n
                invariant
                    0 <= i <= n,
                    n == ms@.len(),
                    out@ == base + message_list(ms@.subrange(0, i as int)),
                decreases n - i,
            {
                if i > 0 {
                    push_str_chars(&mut out, ",");
                }
                push_message_object(&mut out, &ms[i]);
                proof {
                    reveal_strlit(",");
                    assert(ms@.subrange(0, i + 1 as int).drop_last() =~= ms@.subrange(0, i as int));
                    assert(ms@.subrange(0, i + 1 as int).last() == ms@[i as int]);
                    assert(","@ =~= seq![',']);
                    assert(out@ =~= base + message_list(ms@.subrange(0, i + 1 as int)));
                }
                i = i + 1;
            }
            push_str_chars(&mut out, "]}");
            proof {
                assert(ms@.subrange(0, n as int) =~= ms@);
                assert(out@ =~= encoded_server_event(*e));
            }
        },
        ServerEvent::ChatMessage(m) => {
            match m.message_type {
                MessageType::System => {
                    push_str_chars(&mut out, "{\"type\":\"pong\"}");
                },
                MessageType::User => {
                    push_str_chars(&mut out, "{\"type\":\"chat_message\",\"id\":");
                    match &m.id {
                        Some(id) => push_quoted(&mut out, id.as_str()),
                        None => push_quoted(&mut out, ""),
                    }
                    push_str_chars(&mut out, ",\"user\":");
                    push_quoted(&mut out, m.user.as_str());
                    push_str_chars(&mut out, ",\"message\":");
                    push_quoted(&mut out, m.message.as_str());
                    push_str_chars(&mut out, ",\"created_at\":");
                    match &m.created_at {
                        Some(c) => push_quoted(&mut out, c.as_str()),
                        None => push_quoted(&mut out, ""),
                    }
                    push_str_chars(&mut out, "}");
                    proof {
                        reveal_strlit("");
                        assert(""@ =~= Seq::<char>::empty());
                        assert(out@ =~= encoded_server_event(*e));
                    }
                },
            }
        },
        ServerEvent::Pong => {
            push_str_chars(&mut out, "{\"type\":\"pong\"}");
        },
    }
    string_from_chars(&out)
}

} // verus!
