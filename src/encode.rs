//! Percent-encoding of URL parts and JSON string literals for request bodies.
use vstd::prelude::*;
use vstd::string::StringSliceAdditionalSpecFns;
use vstd::utf8::encode_utf8;

verus! {

/// Relies on `String::push`: the character is appended at the end.
pub assume_specification[ String::push ](s: &mut String, ch: char)
    ensures
        final(s)@ == old(s)@.push(ch),
;

/// A byte that stands for itself in a URL (RFC 3986's unreserved characters).
pub open spec fn is_unreserved(b: u8) -> bool {
    // 0-9, A-Z, a-z, '-', '.', '_', '~'
    (48 <= b <= 57) || (65 <= b <= 90) || (97 <= b <= 122) || b == 45 || b == 46 || b == 95
        || b == 126
}

/// The upper-case hexadecimal digit of `n`, below 16.
pub open spec fn hex_digit(n: u8) -> char {
    if n < 10 {
        ((48 + n) as u8) as char
    } else {
        ((55 + n) as u8) as char
    }
}

/// How one byte is written in a percent-encoded text.
pub open spec fn encoded_byte(b: u8) -> Seq<char> {
    if is_unreserved(b) {
        seq![b as char]
    } else {
        seq!['%', hex_digit(b / 16), hex_digit(b % 16)]
    }
}

/// The percent-encoding of a byte string: every byte that is not unreserved becomes `%XX`.
pub open spec fn percent_encoded(bytes: Seq<u8>) -> Seq<char>
    decreases bytes.len(),
{
    if bytes.len() == 0 {
        Seq::empty()
    } else {
        percent_encoded(bytes.drop_last()) + encoded_byte(bytes.last())
    }
}

fn hex_char(n: u8) -> (c: char)
    requires
        n < 16,
    ensures
        c == hex_digit(n),
{
    if n < 10 {
        (48 + n) as char
    } else {
        (55 + n) as char
    }
}

/// Appends the percent-encoding of `s`'s UTF-8 bytes to `out`.
pub fn push_percent_encoded(out: &mut String, s: &str)
    ensures
        final(out)@ == old(out)@ + percent_encoded(encode_utf8(s@)),
{
    let bytes = s.as_bytes();
    let n = bytes.len();
    let mut i: usize = 0;
    while i < n
        invariant
            n == bytes@.len(),
            bytes@ == s.spec_bytes(),
            i <= n,
            out@ == old(out)@ + percent_encoded(bytes@.subrange(0, i as int)),
        decreases n - i,
    {
        let b = bytes[i];
        let ghost before = out@;
        if (48 <= b && b <= 57) || (65 <= b && b <= 90) || (97 <= b && b <= 122) || b == 45 || b == 46
            || b == 95 || b == 126 {
            out.push(b as char);
        } else {
            out.push('%');
            out.push(hex_char(b / 16));
            out.push(hex_char(b % 16));
        }
        assert(bytes@.subrange(0, i + 1).drop_last() =~= bytes@.subrange(0, i as int));
        assert(out@ =~= before + encoded_byte(b));
        i += 1;
    }
    assert(bytes@.subrange(0, n as int) =~= bytes@);
}

/// The percent-encoding of `s`'s UTF-8 bytes.
pub fn percent_encode(s: &str) -> (r: String)
    ensures
        r@ == percent_encoded(encode_utf8(s@)),
{
    let mut r = String::new();
    push_percent_encoded(&mut r, s);
    r
}

#[verifier::external_type_specification]
#[verifier::external_body]
pub struct ExJsonError(serde_json::Error);

/// The lower-case hexadecimal digit of `n`, below 16.
pub open spec fn lower_hex_digit(n: u32) -> char {
    if n < 10 {
        ((48 + n) as u32) as char
    } else {
        ((87 + n) as u32) as char
    }
}

/// How one character is written inside a JSON string literal: the quote and the backslash
/// behind a backslash, the five control characters that have a short escape by it, the other
/// control characters below U+0020 as `\u00xx`, everything else as itself.
pub open spec fn json_escaped_char(c: char) -> Seq<char> {
    let n = c as u32;
    if c == '"' {
        seq!['\\', '"']
    } else if c == '\\' {
        seq!['\\', '\\']
    } else if n == 8 {
        seq!['\\', 'b']
    } else if n == 9 {
        seq!['\\', 't']
    } else if n == 10 {
        seq!['\\', 'n']
    } else if n == 12 {
        seq!['\\', 'f']
    } else if n == 13 {
        seq!['\\', 'r']
    } else if n < 32 {
        seq!['\\', 'u', '0', '0', lower_hex_digit(n / 16), lower_hex_digit(n % 16)]
    } else {
        seq![c]
    }
}

pub open spec fn json_escaped(s: Seq<char>) -> Seq<char>
    decreases s.len(),
{
    if s.len() == 0 {
        Seq::empty()
    } else {
        json_escaped(s.drop_last()) + json_escaped_char(s.last())
    }
}

/// The JSON string literal of a text, quotes and escapes included.
pub open spec fn json_quoted(s: Seq<char>) -> Seq<char> {
    seq!['"'] + json_escaped(s) + seq!['"']
}

/// Relies on `serde_json::to_string` on a `str`: it writes the string literal into a `Vec<u8>`,
/// escaping the bytes that its `ESCAPE` table marks (the quote, the backslash and the bytes
/// below 0x20) as `json_escaped_char` says; neither that writer nor the escaping has an error
/// path.
#[verifier::external_body]
fn json_string(s: &str) -> (r: Result<String, serde_json::Error>)
    ensures
        r is Ok,
        r->Ok_0@ == json_quoted(s@),
{
    serde_json::to_string(s)
}

/// A JSON object of string members, written out in the given order.
pub open spec fn json_object(members: Seq<(Seq<char>, Seq<char>)>) -> Seq<char>
    decreases members.len(),
{
    if members.len() == 0 {
        seq!['{', '}']
    } else if members.len() == 1 {
        seq!['{'] + json_quoted(members[0].0) + seq![':'] + json_quoted(members[0].1) + seq!['}']
    } else {
        json_object(members.drop_last()).drop_last() + seq![','] + json_quoted(members.last().0)
            + seq![':'] + json_quoted(members.last().1) + seq!['}']
    }
}

fn push_json_string(out: &mut String, s: &str)
    ensures
        final(out)@ == old(out)@ + json_quoted(s@),
{
    match json_string(s) {
        Ok(t) => out.append(t.as_str()),
        Err(_) => {},
    }
}

/// A JSON object with one string member.
pub fn json_object1(k: &str, v: &str) -> (r: String)
    ensures
        r@ == json_object(seq![(k@, v@)]),
{
    let mut r = String::new();
    r.push('{');
    push_json_string(&mut r, k);
    r.push(':');
    push_json_string(&mut r, v);
    r.push('}');
    assert(seq![(k@, v@)].len() == 1);
    assert(r@ =~= json_object(seq![(k@, v@)]));
    r
}

/// A JSON object with two string members.
pub fn json_object2(k1: &str, v1: &str, k2: &str, v2: &str) -> (r: String)
    ensures
        r@ == json_object(seq![(k1@, v1@), (k2@, v2@)]),
{
    let mut r = String::new();
    r.push('{');
    push_json_string(&mut r, k1);
    r.push(':');
    push_json_string(&mut r, v1);
    r.push(',');
    push_json_string(&mut r, k2);
    r.push(':');
    push_json_string(&mut r, v2);
    r.push('}');
    let ghost m = seq![(k1@, v1@), (k2@, v2@)];
    assert(m.drop_last() =~= seq![(k1@, v1@)]);
    let ghost first = json_object(m.drop_last());
    assert(first =~= seq!['{'] + json_quoted(k1@) + seq![':'] + json_quoted(v1@) + seq!['}']);
    assert(r@ =~= first.drop_last() + seq![','] + json_quoted(k2@) + seq![':'] + json_quoted(v2@)
        + seq!['}']);
    r
}

} // verus!
