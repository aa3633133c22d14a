//! JSON string literals: how a string is encoded, how a literal is read back,
//! and the facts that keep an embedded stylesheet inside its literal.
use vstd::prelude::*;

verus! {

/// Lower-case hexadecimal digits.
pub open spec fn hex_digits() -> Seq<char> {
    seq!['0', '1', '2', '3', '4', '5', '6', '7', '8', '9', 'a', 'b', 'c', 'd', 'e', 'f']
}

/// How one character is written inside a JSON string literal: `"` and `\` and
/// the control characters below U+0020 are escaped (the short forms where JSON
/// has one, `\u00XX` otherwise); every other character stands as it is.
pub open spec fn json_escape_char(c: char) -> Seq<char> {
    if c == '"' {
        seq!['\\', '"']
    } else if c == '\\' {
        seq!['\\', '\\']
    } else if c == '\x08' {
        seq!['\\', 'b']
    } else if c == '\t' {
        seq!['\\', 't']
    } else if c == '\n' {
        seq!['\\', 'n']
    } else if c == '\x0c' {
        seq!['\\', 'f']
    } else if c == '\r' {
        seq!['\\', 'r']
    } else if (c as int) < 0x20 {
        seq!['\\', 'u', '0', '0', hex_digits()[(c as int) / 16], hex_digits()[(c as int) % 16]]
    } else {
        seq![c]
    }
}

/// The body of a JSON string literal for `s`.
pub open spec fn json_escape(s: Seq<char>) -> Seq<char>
    decreases s.len(),
{
    if s.len() == 0 {
        Seq::empty()
    } else {
        json_escape_char(s[0]) + json_escape(s.drop_first())
    }
}

/// The JSON string literal for `s`, quotes included.
pub open spec fn json_string_literal(s: Seq<char>) -> Seq<char> {
    seq!['"'] + json_escape(s) + seq!['"']
}

// ---------------------------------------------------------------------------
// Reading a literal back
// ---------------------------------------------------------------------------

/// The value of a hexadecimal digit (either case).
pub open spec fn hex_value(c: char) -> Option<int> {
    if '0' <= c && c <= '9' {
        Some(c as int - '0' as int)
    } else if 'a' <= c && c <= 'f' {
        Some(c as int - 'a' as int + 10)
    } else if 'A' <= c && c <= 'F' {
        Some(c as int - 'A' as int + 10)
    } else {
        None
    }
}

/// The code unit of four hexadecimal digits.
pub open spec fn hex4_value(s: Seq<char>) -> Option<int> {
    match (hex_value(s[0]), hex_value(s[1]), hex_value(s[2]), hex_value(s[3])) {
        (Some(a), Some(b), Some(c), Some(d)) => Some(((a * 16 + b) * 16 + c) * 16 + d),
        _ => None,
    }
}

/// The character of a two-character escape `\e`.
pub open spec fn short_escape_value(e: char) -> Option<char> {
    if e == '"' {
        Some('"')
    } else if e == '\\' {
        Some('\\')
    } else if e == '/' {
        Some('/')
    } else if e == 'b' {
        Some('\x08')
    } else if e == 'f' {
        Some('\x0c')
    } else if e == 'n' {
        Some('\n')
    } else if e == 'r' {
        Some('\r')
    } else if e == 't' {
        Some('\t')
    } else {
        None
    }
}

pub open spec fn prepend(c: char, rest: Option<Seq<char>>) -> Option<Seq<char>> {
    match rest {
        Some(r) => Some(seq![c] + r),
        None => None,
    }
}

/// The string that the body of a JSON string literal stands for, per RFC 8259:
/// `None` for a raw `"` or control character, or for a malformed escape.
/// A `\u` escape is read as one code point outside the surrogate range; a
/// surrogate pair is not read here (the encoder above never writes one).
pub open spec fn json_unescape(s: Seq<char>) -> Option<Seq<char>>
    decreases s.len(),
{
    if s.len() == 0 {
        Some(Seq::empty())
    } else if s[0] == '\\' {
        if s.len() < 2 {
            None
        } else {
            match short_escape_value(s[1]) {
                Some(c) => prepend(c, json_unescape(s.skip(2))),
                None => if s[1] == 'u' && s.len() >= 6 {
                    match hex4_value(s.subrange(2, 6)) {
                        Some(v) => if 0xD800 <= v && v <= 0xDFFF {
                            None
                        } else {
                            prepend(v as char, json_unescape(s.skip(6)))
                        },
                        None => None,
                    }
                } else {
                    None
                },
            }
        }
    } else if s[0] == '"' || (s[0] as int) < 0x20 {
        None
    } else {
        prepend(s[0], json_unescape(s.drop_first()))
    }
}

/// The string a JSON string literal stands for, if it is one.
pub open spec fn json_string_value(lit: Seq<char>) -> Option<Seq<char>> {
    if lit.len() >= 2 && lit[0] == '"' && lit[lit.len() - 1] == '"' {
        json_unescape(lit.subrange(1, lit.len() - 1))
    } else {
        None
    }
}

/// `s` holds no raw line feed.
pub open spec fn has_no_line_feed(s: Seq<char>) -> bool {
    forall|i: int| 0 <= i < s.len() ==> s[i] != '\n'
}

// ---------------------------------------------------------------------------
// Facts
// ---------------------------------------------------------------------------

proof fn lemma_hex_digit_value(k: int)
    requires
        0 <= k < 16,
    ensures
        hex_value(hex_digits()[k]) == Some(k),
        hex_digits()[k] != '\n',
{
}

proof fn lemma_escape_char_no_line_feed(c: char)
    ensures
        has_no_line_feed(json_escape_char(c)),
{
    if c != '"' && c != '\\' && c != '\x08' && c != '\t' && c != '\n' && c != '\x0c' && c != '\r'
        && (c as int) < 0x20 {
        lemma_hex_digit_value((c as int) / 16);
        lemma_hex_digit_value((c as int) % 16);
    }
}

proof fn lemma_concat_no_line_feed(a: Seq<char>, b: Seq<char>)
    requires
        has_no_line_feed(a),
        has_no_line_feed(b),
    ensures
        has_no_line_feed(a + b),
{
    assert forall|i: int| 0 <= i < (a + b).len() implies (a + b)[i] != '\n' by {
        if i < a.len() {
            assert((a + b)[i] == a[i]);
        } else {
            assert((a + b)[i] == b[i - a.len()]);
        }
    }
}

/// The body of an encoded literal holds no raw line feed.
pub proof fn lemma_escape_no_line_feed(s: Seq<char>)
    ensures
        has_no_line_feed(json_escape(s)),
    decreases s.len(),
{
    if s.len() > 0 {
        lemma_escape_char_no_line_feed(s[0]);
        lemma_escape_no_line_feed(s.drop_first());
        lemma_concat_no_line_feed(json_escape_char(s[0]), json_escape(s.drop_first()));
    }
}

/// Reading back one escaped character gives that character, then the rest.
proof fn lemma_unescape_char(c: char, t: Seq<char>)
    ensures
        json_unescape(json_escape_char(c) + t) == prepend(c, json_unescape(t)),
{
    let e = json_escape_char(c);
    let s = e + t;
    if e.len() == 2 {
        assert(s[0] == '\\');
        assert(s[1] == e[1]);
        assert(s.skip(2) =~= t);
    } else if e.len() == 6 {
        let hi = (c as int) / 16;
        let lo = (c as int) % 16;
        lemma_hex_digit_value(hi);
        lemma_hex_digit_value(lo);
        assert(s[0] == '\\');
        assert(s[1] == 'u');
        assert(s.subrange(2, 6) =~= seq!['0', '0', hex_digits()[hi], hex_digits()[lo]]);
        assert(hex4_value(s.subrange(2, 6)) == Some(c as int));
        assert(((c as int) as char) == c);
        assert(s.skip(6) =~= t);
    } else {
        assert(s[0] == c);
        assert(s.drop_first() =~= t);
    }
}

/// Reading back an encoded body gives the original string.
pub proof fn lemma_unescape_escape(s: Seq<char>)
    ensures
        json_unescape(json_escape(s)) == Some(s),
    decreases s.len(),
{
    if s.len() == 0 {
    } else {
        lemma_unescape_escape(s.drop_first());
        lemma_unescape_char(s[0], json_escape(s.drop_first()));
        assert(seq![s[0]] + s.drop_first() =~= s);
    }
}

/// A JSON string literal is quoted, holds no raw line feed, and reads back as
/// the string it encodes: what is embedded cannot break out of the literal.
pub proof fn lemma_json_literal_round_trip(s: Seq<char>)
    ensures
        json_string_literal(s)[0] == '"',
        json_string_literal(s)[json_string_literal(s).len() - 1] == '"',
        has_no_line_feed(json_string_literal(s)),
        json_string_value(json_string_literal(s)) == Some(s),
{
    let lit = json_string_literal(s);
    lemma_escape_no_line_feed(s);
    lemma_concat_no_line_feed(seq!['"'], json_escape(s));
    lemma_concat_no_line_feed(seq!['"'] + json_escape(s), seq!['"']);
    assert(lit.subrange(1, lit.len() - 1) =~= json_escape(s));
    lemma_unescape_escape(s);
}

#[verifier::external_type_specification]
#[verifier::external_body]
pub struct ExJsonError(serde_json::Error);

/// Calls `serde_json::to_string` on a string slice. Serialising a `str` writes
/// the escaped literal into a `Vec<u8>`, which cannot fail; the contract claims
/// success and that the result is the literal `json_string_literal` describes
/// (serde_json's escape table: `"`, `\`, and U+0000..U+001F).
#[verifier::external_body]
pub(crate) fn json_encode_str(s: &str) -> (r: Result<String, serde_json::Error>)
    ensures
        r is Ok,
        r matches Ok(j) ==> j@ == json_string_literal(s@),
{
    serde_json::to_string(s)
}

} // verus!
