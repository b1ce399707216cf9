//! Wire decoding of client frames.
//!
//! The accepted grammar is the compact one-object layout of the two client
//! events, as a serde-style encoder emits them:
//! `{"type":"ping"}` and `{"type":"chat_send","content":"..."}`, with full
//! JSON string-literal escape handling in the content (two-character
//! escapes, and `\uXXXX` for scalar values outside the surrogate range).
//! Anything else — other layouts, other event types, broken escapes — is a
//! decode error, which the session treats as a malformed frame: the frame
//! is skipped and the session carries on.

use vstd::prelude::*;

use crate::codec::{json_escape, json_escape_char};
use crate::events::ClientEvent;
use crate::text::string_from_chars;
use crate::text::str_chars;

verus! {

/// The value of a hexadecimal digit, or -1 for any other character.
pub open spec fn hex_val(c: char) -> int {
    let u = c as u32;
    if 48 <= u <= 57 {
        u - 48
    } else if 97 <= u <= 102 {
        u - 87
    } else if 65 <= u <= 70 {
        u - 55
    } else {
        -1
    }
}

/// Runtime mirror of [`hex_val`], as an option.
fn hex_val_char(c: char) -> (r: Option<u32>)
    ensures
        r is Some <==> hex_val(c) >= 0,
        r matches Some(v) ==> v as int == hex_val(c) && v < 16,
{
    let u = c as u32;
    if 48 <= u && u <= 57 {
        Some(u - 48)
    } else if 97 <= u && u <= 102 {
        Some(u - 87)
    } else if 65 <= u && u <= 70 {
        Some(u - 55)
    } else {
        None
    }
}

/// Relies on `char::from_u32`: returns the scalar value `v` as a `char`
/// exactly when `v` is a Unicode scalar value (not a surrogate, not past
/// the maximum code point).
#[verifier::external_body]
fn char_from_u32(v: u32) -> (r: Option<char>)
    ensures
        r is Some <==> (v < 0xD800 || (0xE000 <= v && v < 0x110000)),
        r matches Some(c) ==> c == (v as char),
{
    char::from_u32(v)
}

/// What one escape sequence denotes: the character it stands for and the
/// position after it. `i` is the position right after the backslash.
pub open spec fn parse_escape(s: Seq<char>, i: int) -> Option<(char, int)> {
    if i >= s.len() {
        None
    } else {
        let c = s[i];
        if c == '"' {
            Some(('"', i + 1))
        } else if c == '\\' {
            Some(('\\', i + 1))
        } else if c == '/' {
            Some(('/', i + 1))
        } else if c == 'n' {
            Some(('\n', i + 1))
        } else if c == 't' {
            Some(('\t', i + 1))
        } else if c == 'r' {
            Some(('\r', i + 1))
        } else if c == 'b' {
            Some(('\u{8}', i + 1))
        } else if c == 'f' {
            Some(('\u{c}', i + 1))
        } else if c == 'u' {
            if i + 5 <= s.len() && hex_val(s[i + 1]) >= 0 && hex_val(s[i + 2]) >= 0 && hex_val(
                s[i + 3],
            ) >= 0 && hex_val(s[i + 4]) >= 0 {
                let v = hex_val(s[i + 1]) * 4096 + hex_val(s[i + 2]) * 256 + hex_val(s[i + 3]) * 16
                    + hex_val(s[i + 4]);
                if v < 0xD800 || v >= 0xE000 {
                    Some((v as char, i + 5))
                } else {
                    None
                }
            } else {
                None
            }
        } else {
            None
        }
    }
}

/// The characters a JSON string-literal body denotes, read from position
/// `i` (right after the opening quote) up to its closing quote, and the
/// position after that quote. `None` on an unterminated literal, a bad
/// escape, or a bare control character.
pub open spec fn parse_string_body(s: Seq<char>, i: int) -> Option<(Seq<char>, int)>
    decreases s.len() - i,
{
    if i >= s.len() {
        None
    } else if s[i] == '"' {
        Some((Seq::empty(), i + 1))
    } else if s[i] == '\\' {
        match parse_escape(s, i + 1) {
            Option::Some((c, j)) => if i + 1 < j <= s.len() {
                match parse_string_body(s, j) {
                    Option::Some((rest, k)) => Option::Some((seq![c] + rest, k)),
                    Option::None => Option::None,
                }
            } else {
                Option::None
            },
            Option::None => Option::None,
        }
    } else if (s[i] as u32) < 32 {
        None
    } else {
        match parse_string_body(s, i + 1) {
            Option::Some((rest, k)) => Option::Some((seq![s[i]] + rest, k)),
            Option::None => Option::None,
        }
    }
}

/// `r` with `p` prepended to its parsed value, if it parsed.
pub open spec fn with_prefix(p: Seq<char>, r: Option<(Seq<char>, int)>) -> Option<
    (Seq<char>, int),
> {
    match r {
        Option::Some((v, j)) => Option::Some((p + v, j)),
        Option::None => Option::None,
    }
}

/// Whether `s` is the ping frame.
pub open spec fn decoded_is_ping(s: Seq<char>) -> bool {
    s == "{\"type\":\"ping\"}"@
}

/// The content a chat-send frame carries, if `s` is one.
pub open spec fn decoded_chat_content(s: Seq<char>) -> Option<Seq<char>> {
    let p = "{\"type\":\"chat_send\",\"content\":\""@;
    if p.is_prefix_of(s) {
        match parse_string_body(s, p.len() as int) {
            Option::Some((v, j)) => if j + 1 == s.len() && s[j] == '}' {
                Option::Some(v)
            } else {
                Option::None
            },
            Option::None => Option::None,
        }
    } else {
        Option::None
    }
}

/// Whether the characters of `lit` equal `chars`.
fn chars_eq_str(chars: &Vec<char>, lit: &str) -> (b: bool)
    ensures
        b == (chars@ == lit@),
{
    let l = str_chars(lit);
    if chars.len() != l.len() {
        proof {
            assert(chars@.len() != lit@.len());
        }
        return false;
    }
    let n = chars.len();
    let mut i: usize = 0;
    while i < n
        invariant
            0 <= i <= n,
            n == chars@.len(),
            n == l@.len(),
            l@ == lit@,
            forall|j: int| 0 <= j < i as int ==> chars@[j] == l@[j],
        decreases n - i,
    {
        if chars[i] != l[i] {
            return false;
        }
        i = i + 1;
    }
    proof {
        assert(chars@ =~= lit@);
    }
    true
}

/// Whether the characters of `lit` are a prefix of `chars`.
fn chars_have_prefix(chars: &Vec<char>, lit: &str) -> (b: bool)
    ensures
        b == lit@.is_prefix_of(chars@),
{
    let l = str_chars(lit);
    if chars.len() < l.len() {
        return false;
    }
    let n = l.len();
    let mut i: usize = 0;
    while i < n
        invariant
            0 <= i <= n,
            n == l@.len(),
            n <= chars@.len(),
            l@ == lit@,
            forall|j: int| 0 <= j < i as int ==> chars@[j] == l@[j],
        decreases n - i,
    {
        if chars[i] != l[i] {
            return false;
        }
        i = i + 1;
    }
    proof {
        assert(lit@ =~= chars@.subrange(0, n as int));
    }
    true
}

/// Reads a JSON string-literal body out of `s` starting at `start` (right
/// after the opening quote); see [`parse_string_body`].
fn read_string_body(s: &Vec<char>, start: usize) -> (r: Option<(Vec<char>, usize)>)
    requires
        start <= s@.len(),
    ensures
        r is None <==> parse_string_body(s@, start as int) is None,
        r matches Some((v, j)) ==> parse_string_body(s@, start as int) matches Some((sv, sj)) && v@
            == sv && j as int == sj && j <= s@.len(),
{
    let n = s.len();
    let mut cur: usize = start;
    let mut acc: Vec<char> = Vec::new();
    proof {
        match parse_string_body(s@, start as int) {
            Option::Some((v, j)) => {
                assert(Seq::<char>::empty() + v =~= v);
            },
            Option::None => {},
        }
    }
    while cur < n
        invariant
            start <= cur <= n,
            n == s@.len(),
            parse_string_body(s@, start as int) == with_prefix(
                acc@,
                parse_string_body(s@, cur as int),
            ),
        decreases n - cur,
    {
        let c = s[cur];
        if c == '"' {
            proof {
                assert(acc@ + Seq::<char>::empty() =~= acc@);
            }
            return Some((acc, cur + 1));
        } else if c == '\\' {
            if cur + 1 >= n {
                return None;
            }
            let e = s[cur + 1];
            let ghost acc_old = acc@;
            let decoded: char;
            let next: usize;
            if e == '"' {
                decoded = '"';
                next = cur + 2;
            } else if e == '\\' {
                decoded = '\\';
                next = cur + 2;
            } else if e == '/' {
                decoded = '/';
                next = cur + 2;
            } else if e == 'n' {
                decoded = '\n';
                next = cur + 2;
            } else if e == 't' {
                decoded = '\t';
                next = cur + 2;
            } else if e == 'r' {
                decoded = '\r';
                next = cur + 2;
            } else if e == 'b' {
                decoded = '\u{8}';
                next = cur + 2;
            } else if e == 'f' {
                decoded = '\u{c}';
                next = cur + 2;
            } else if e == 'u' {
                if n - cur < 6 {
                    return None;
                }
                let h1 = match hex_val_char(s[cur + 2]) {
                    Some(v) => v,
                    None => {
                        return None;
                    },
                };
                let h2 = match hex_val_char(s[cur + 3]) {
                    Some(v) => v,
                    None => {
                        return None;
                    },
                };
                let h3 = match hex_val_char(s[cur + 4]) {
                    Some(v) => v,
                    None => {
                        return None;
                    },
                };
                let h4 = match hex_val_char(s[cur + 5]) {
                    Some(v) => v,
                    None => {
                        return None;
                    },
                };
                let v = h1 * 4096 + h2 * 256 + h3 * 16 + h4;
                if 0xD800 <= v && v < 0xE000 {
                    return None;
                }
                decoded = match char_from_u32(v) {
                    Some(c) => c,
                    None => vstd::pervasive::unreached(),
                };
                next = cur + 6;
            } else {
                return None;
            }
            acc.push(decoded);
            proof {
                assert(parse_escape(s@, cur + 1 as int) == Some((decoded, next as int)));
                match parse_string_body(s@, next as int) {
                    Option::Some((rest, k)) => {
                        assert(acc_old + (seq![decoded] + rest) =~= acc@ + rest);
                    },
                    Option::None => {},
                }
            }
            cur = next;
        } else if (c as u32) < 32 {
            return None;
        } else {
            let ghost acc_old = acc@;
            acc.push(c);
            proof {
                match parse_string_body(s@, cur + 1 as int) {
                    Option::Some((rest, k)) => {
                        assert(acc_old + (seq![c] + rest) =~= acc@ + rest);
                    },
                    Option::None => {},
                }
            }
            cur = cur + 1;
        }
    }
    None
}

/// [`json_escape`] read character by character from the front: the escape
/// of the first character, then the escape of the rest.
pub proof fn lemma_json_escape_head(s: Seq<char>)
    requires
        s.len() > 0,
    ensures
        json_escape(s) == json_escape_char(s[0]) + json_escape(s.drop_first()),
    decreases s.len(),
{
    if s.len() == 1 {
        assert(s.drop_last() =~= Seq::<char>::empty());
        assert(s.drop_first() =~= Seq::<char>::empty());
        assert(s.last() == s[0]);
        assert(json_escape(s) =~= json_escape_char(s[0]) + json_escape(s.drop_first()));
    } else {
        lemma_json_escape_head(s.drop_last());
        assert(s.drop_last()[0] == s[0]);
        assert(s.drop_last().drop_first() =~= s.drop_first().drop_last());
        assert(s.drop_first().last() == s.last());
        assert(s.drop_first().len() > 0);
        assert(json_escape(s) == json_escape(s.drop_last()) + json_escape_char(s.last()));
        assert(json_escape(s.drop_first()) == json_escape(s.drop_first().drop_last())
            + json_escape_char(s.drop_first().last()));
        assert(json_escape(s) =~= json_escape_char(s[0]) + json_escape(s.drop_first()));
    }
}

/// [`hex_val`] inverts [`crate::codec::hex_digit`] on digit values.
pub proof fn lemma_hex_digit_val(v: int)
    requires
        0 <= v < 16,
    ensures
        hex_val(crate::codec::hex_digit(v)) == v,
{
}

/// A character's scalar value cast back to `char` is the character itself.
proof fn lemma_char_cast_round_trip(c: char)
    ensures
        ((c as u32 as int) as char) == c,
{
}

/// The decoder's string parser inverts the encoder's escaping: at position
/// `i` of a text that continues with the escape of `s`, a closing quote and
/// anything after it, the parser reads back exactly `s` and stops right
/// after that quote.
pub proof fn lemma_parse_escaped_at(t: Seq<char>, i: int, s: Seq<char>, rest: Seq<char>)
    requires
        0 <= i <= t.len(),
        t == t.subrange(0, i) + json_escape(s) + seq!['"'] + rest,
    ensures
        parse_string_body(t, i) == Some((s, i + json_escape(s).len() + 1)),
    decreases s.len(),
{
    assert(t.len() == i + json_escape(s).len() + 1 + rest.len());
    if s.len() == 0 {
        assert(json_escape(s) =~= Seq::<char>::empty());
        assert(t[i] == '"');
        assert(s =~= Seq::<char>::empty());
        assert(parse_string_body(t, i) == Some((Seq::<char>::empty(), i + 1)));
    } else {
        let c = s[0];
        let e = json_escape_char(c);
        let s2 = s.drop_first();
        lemma_json_escape_head(s);
        let j = i + e.len();
        assert(t =~= t.subrange(0, j) + json_escape(s2) + seq!['"'] + rest);
        assert(seq![c] + s2 =~= s);
        if c == '"' || c == '\\' || c == '\n' || c == '\r' || c == '\t' || c == '\u{8}' || c
            == '\u{c}' {
            assert(e.len() == 2);
            assert(t[i] == '\\');
            assert(t[i + 1] == e[1]);
            assert(parse_escape(t, i + 1) == Some((c, i + 2)));
            lemma_parse_escaped_at(t, i + 2, s2, rest);
            assert(parse_string_body(t, i) == Some((s, i + json_escape(s).len() + 1)));
        } else if (c as u32) < 32 {
            let u = c as u32 as int;
            assert(e.len() == 6);
            assert(t[i] == '\\');
            assert(t[i + 1] == 'u');
            assert(t[i + 2] == '0');
            assert(t[i + 3] == '0');
            assert(t[i + 4] == crate::codec::hex_digit(u / 16));
            assert(t[i + 5] == crate::codec::hex_digit(u % 16));
            assert(hex_val('0') == 0);
            assert(0 <= u / 16 < 16 && 0 <= u % 16 < 16);
            lemma_hex_digit_val(u / 16);
            lemma_hex_digit_val(u % 16);
            assert(u / 16 * 16 + u % 16 == u);
            assert(hex_val(t[i + 2]) * 4096 + hex_val(t[i + 3]) * 256 + hex_val(t[i + 4]) * 16
                + hex_val(t[i + 5]) == u);
            lemma_char_cast_round_trip(c);
            assert((u as char) == c);
            assert(parse_escape(t, i + 1) == Some((c, i + 6)));
            lemma_parse_escaped_at(t, i + 6, s2, rest);
            assert(parse_string_body(t, i) == Some((s, i + json_escape(s).len() + 1)));
        } else {
            assert(e.len() == 1);
            assert(t[i] == c);
            lemma_parse_escaped_at(t, i + 1, s2, rest);
            assert(parse_string_body(t, i) == Some((s, i + json_escape(s).len() + 1)));
        }
    }
}

/// Round trip through the wire: the chat-send frame a client builds by
/// JSON-escaping any content decodes back to exactly that content.
pub proof fn lemma_chat_frame_round_trip(content: Seq<char>)
    ensures
        decoded_chat_content(
            "{\"type\":\"chat_send\",\"content\":\""@ + json_escape(content) + "\"}"@,
        ) == Some(content),
{
    let p = "{\"type\":\"chat_send\",\"content\":\""@;
    let t = p + json_escape(content) + "\"}"@;
    reveal_strlit("\"}");
    assert("\"}"@ =~= seq!['"', '}']);
    assert(t == t.subrange(0, p.len() as int) + json_escape(content) + seq!['"'] + seq!['}'])
        by {
        assert(t.subrange(0, p.len() as int) =~= p);
        assert(t =~= t.subrange(0, p.len() as int) + json_escape(content) + seq!['"'] + seq![
            '}',
        ]);
    }
    assert(p.is_prefix_of(t)) by {
        assert(t.subrange(0, p.len() as int) =~= p);
    }
    lemma_parse_escaped_at(t, p.len() as int, content, seq!['}']);
    let j = p.len() + json_escape(content).len() + 1;
    assert(t[j as int] == '}');
    assert(j + 1 == t.len());
}

/// Decodes one inbound frame into a typed client event, or `None` for a
/// malformed frame; see [`decoded_is_ping`] and [`decoded_chat_content`].
pub fn decode_client_frame(s: &str) -> (r: Option<ClientEvent>)
    ensures
        r == Some(ClientEvent::Ping) <==> decoded_is_ping(s@),
        r is None <==> !decoded_is_ping(s@) && decoded_chat_content(s@) is None,
        decoded_chat_content(s@) matches Some(v) ==> r matches Some(e) && e matches
            ClientEvent::ChatSend { content } && content@ == v,
        r matches Some(e) ==> (e matches ClientEvent::ChatSend { content }
            ==> decoded_chat_content(s@) == Some(content@)),
{
    let chars = str_chars(s);
    if chars_eq_str(&chars, "{\"type\":\"ping\"}") {
        proof {
            assert(decoded_chat_content(s@) is None) by {
                if "{\"type\":\"chat_send\",\"content\":\""@.is_prefix_of(s@) {
                    reveal_strlit("{\"type\":\"ping\"}");
                    reveal_strlit("{\"type\":\"chat_send\",\"content\":\"");
                    assert(s@.len() == 15);
                    assert("{\"type\":\"chat_send\",\"content\":\""@.len() == 31);
                    assert(false);
                }
            }
        }
        return Some(ClientEvent::Ping);
    }
    if !chars_have_prefix(&chars, "{\"type\":\"chat_send\",\"content\":\"") {
        return None;
    }
    let p = str_chars("{\"type\":\"chat_send\",\"content\":\"").len();
    match read_string_body(&chars, p) {
        Some((v, j)) => {
            if j < chars.len() && j + 1 == chars.len() && chars[j] == '}' {
                let content = string_from_chars(&v);
                Some(ClientEvent::ChatSend { content })
            } else {
                None
            }
        },
        None => None,
    }
}

} // verus!
