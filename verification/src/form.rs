//! The `application/x-www-form-urlencoded` format: how text is escaped, how
//! pairs are written out, and how a body is read back into pairs. And
//! percent-encoding, which leaves fewer bytes alone.

use vstd::prelude::*;
use vstd::utf8::encode_utf8;

verus! {

/// A parameter: its name and its value.
pub type Param = (Seq<char>, Seq<char>);

/// The parameters that a vector of string pairs stands for.
pub open spec fn params_view(pairs: Seq<(String, String)>) -> Seq<Param> {
    pairs.map_values(|p: (String, String)| (p.0@, p.1@))
}

/// A parameter from its name and value.
pub fn param(name: &str, value: &str) -> (res: (String, String))
    ensures
        res.0@ == name@,
        res.1@ == value@,
{
    (name.to_owned(), value.to_owned())
}

/// The bytes that form encoding writes as they are: ASCII letters and
/// digits, and `*`, `-`, `.`, `_`.
pub open spec fn is_unchanged(b: u8) -> bool {
    ||| 0x30 <= b <= 0x39
    ||| 0x41 <= b <= 0x5a
    ||| 0x61 <= b <= 0x7a
    ||| b == 0x2a
    ||| b == 0x2d
    ||| b == 0x2e
    ||| b == 0x5f
}

/// The upper-case hexadecimal digit of a value below sixteen.
pub open spec fn hex_digit(n: int) -> char {
    if n < 10 {
        (0x30 + n) as char
    } else {
        (0x41 + n - 10) as char
    }
}

/// One byte, escaped as in a form: itself if it is written unchanged, `+`
/// for a space, and otherwise a percent sign and its two upper-case
/// hexadecimal digits.
pub open spec fn escape_byte(b: u8) -> Seq<char> {
    if is_unchanged(b) {
        seq![b as char]
    } else if b == 0x20 {
        seq!['+']
    } else {
        seq!['%', hex_digit(b as int / 16), hex_digit(b as int % 16)]
    }
}

/// A byte string, escaped as in a form, byte by byte.
pub open spec fn escape_bytes(bytes: Seq<u8>) -> Seq<char>
    decreases bytes.len(),
{
    if bytes.len() == 0 {
        Seq::empty()
    } else {
        escape_bytes(bytes.drop_last()) + escape_byte(bytes.last())
    }
}

/// A text, escaped as in a form: the escaping of its UTF-8 bytes.
pub open spec fn escape(text: Seq<char>) -> Seq<char> {
    escape_bytes(encode_utf8(text))
}

/// The bytes that percent-encoding leaves as they are: ASCII letters and
/// digits, and `-`, `.`, `_`, `~`.
pub open spec fn is_unreserved(b: u8) -> bool {
    ||| 0x30 <= b <= 0x39
    ||| 0x41 <= b <= 0x5a
    ||| 0x61 <= b <= 0x7a
    ||| b == 0x2d
    ||| b == 0x2e
    ||| b == 0x5f
    ||| b == 0x7e
}

/// One byte, percent-encoded: itself if unreserved, and otherwise a percent
/// sign and its two upper-case hexadecimal digits. A space is `%20`.
pub open spec fn percent_byte(b: u8) -> Seq<char> {
    if is_unreserved(b) {
        seq![b as char]
    } else {
        seq!['%', hex_digit(b as int / 16), hex_digit(b as int % 16)]
    }
}

/// A byte string, percent-encoded byte by byte.
pub open spec fn percent_bytes(bytes: Seq<u8>) -> Seq<char>
    decreases bytes.len(),
{
    if bytes.len() == 0 {
        Seq::empty()
    } else {
        percent_bytes(bytes.drop_last()) + percent_byte(bytes.last())
    }
}

/// A text, percent-encoded: the encoding of its UTF-8 bytes.
pub open spec fn percent(text: Seq<char>) -> Seq<char> {
    percent_bytes(encode_utf8(text))
}

/// One parameter, written as `name=value` with both sides escaped.
pub open spec fn encode_param(p: Param) -> Seq<char> {
    escape(p.0) + seq!['='] + escape(p.1)
}

/// The parameters written one after the other, with `&` between them.
pub open spec fn encode_params(params: Seq<Param>) -> Seq<char>
    decreases params.len(),
{
    if params.len() == 0 {
        Seq::empty()
    } else if params.len() == 1 {
        encode_param(params[0])
    } else {
        encode_params(params.drop_last()) + seq!['&'] + encode_param(params.last())
    }
}

/// The pairs that `serde_urlencoded` reads out of a form-encoded body, or
/// `None` where it rejects the body.
pub uninterp spec fn decode_params(body: Seq<char>) -> Option<Seq<Param>>;

/// The parameters of a body, where a body that cannot be read has none.
pub open spec fn body_params(body: Seq<char>) -> Seq<Param> {
    match decode_params(body) {
        Some(params) => params,
        None => Seq::empty(),
    }
}

/// What an optional vector of string pairs stands for.
pub open spec fn read_view(pairs: Option<Vec<(String, String)>>) -> Option<Seq<Param>> {
    match pairs {
        Some(pairs) => Some(params_view(pairs@)),
        None => None,
    }
}

/// The upper-case hexadecimal digit of a value below sixteen, as a text.
fn hex_text(n: u8) -> (res: &'static str)
    requires
        n < 16,
    ensures
        res@ == seq![hex_digit(n as int)],
{
    proof {
        reveal_strlit("0");
        reveal_strlit("1");
        reveal_strlit("2");
        reveal_strlit("3");
        reveal_strlit("4");
        reveal_strlit("5");
        reveal_strlit("6");
        reveal_strlit("7");
        reveal_strlit("8");
        reveal_strlit("9");
        reveal_strlit("A");
        reveal_strlit("B");
        reveal_strlit("C");
        reveal_strlit("D");
        reveal_strlit("E");
        reveal_strlit("F");
    }
    let res = if n == 0 {
        "0"
    } else if n == 1 {
        "1"
    } else if n == 2 {
        "2"
    } else if n == 3 {
        "3"
    } else if n == 4 {
        "4"
    } else if n == 5 {
        "5"
    } else if n == 6 {
        "6"
    } else if n == 7 {
        "7"
    } else if n == 8 {
        "8"
    } else if n == 9 {
        "9"
    } else if n == 10 {
        "A"
    } else if n == 11 {
        "B"
    } else if n == 12 {
        "C"
    } else if n == 13 {
        "D"
    } else if n == 14 {
        "E"
    } else {
        "F"
    };
    assert(res@ =~= seq![hex_digit(n as int)]);
    res
}

/// The ASCII character that starts at a byte of a text, as a text of its
/// own.
fn ascii_at(text: &str, i: usize) -> (res: &str)
    requires
        i < encode_utf8(text@).len(),
        encode_utf8(text@)[i as int] < 0x80,
    ensures
        res@ == seq![encode_utf8(text@)[i as int] as char],
{
    broadcast use vstd::utf8::encode_utf8_valid_utf8;

    let ghost bytes = encode_utf8(text@);
    proof {
        vstd::utf8::is_char_boundary_iff_not_is_continuation_byte(bytes, i as int);
    }
    let (_, rest) = text.split_at(i);
    proof {
        assert(encode_utf8(rest@)[0] == bytes[i as int]);
        reveal_with_fuel(vstd::utf8::is_char_boundary, 2);
        reveal_with_fuel(vstd::utf8::valid_utf8, 2);
    }
    let (res, _) = rest.split_at(1);
    proof {
        let c = seq![bytes[i as int] as char];
        assert(vstd::utf8::is_ascii_chars(c));
        vstd::utf8::is_ascii_chars_encode_utf8(c);
        assert(encode_utf8(c) =~= encode_utf8(res@));
        vstd::utf8::encode_utf8_decode_utf8(c);
        vstd::utf8::encode_utf8_decode_utf8(res@);
    }
    res
}

/// Whether percent-encoding leaves a byte as it is.
fn unreserved(b: u8) -> (res: bool)
    ensures
        res == is_unreserved(b),
{
    (0x30 <= b && b <= 0x39) || (0x41 <= b && b <= 0x5a) || (0x61 <= b && b <= 0x7a) || b == 0x2d
        || b == 0x2e || b == 0x5f || b == 0x7e
}

/// Percent-encodes a text: every byte of its UTF-8 form but ASCII letters,
/// digits and `-._~` becomes a percent sign and two upper-case hexadecimal
/// digits.
pub fn percent_text(text: &str) -> (res: String)
    ensures
        res@ == percent(text@),
{
    let bytes = text.as_bytes();
    let mut res = String::new();
    let mut i: usize = 0;
    proof {
        reveal_strlit("%");
        assert(bytes@.take(0) =~= Seq::<u8>::empty());
    }
    while i < bytes.len()
        invariant
            i <= bytes.len(),
            bytes@ == encode_utf8(text@),
            "%"@ == seq!['%'],
            res@ == percent_bytes(bytes@.take(i as int)),
        decreases bytes.len() - i,
    {
        let b = bytes[i];
        let ghost next = bytes@.take(i + 1);
        assert(next.drop_last() =~= bytes@.take(i as int));
        assert(next.last() == b);
        if unreserved(b) {
            res.append(ascii_at(text, i));
        } else {
            res.append("%");
            res.append(hex_text(b / 16));
            res.append(hex_text(b % 16));
        }
        assert(res@ =~= percent_bytes(next));
        i += 1;
    }
    assert(bytes@.take(i as int) =~= bytes@);
    res
}

/// `serde_urlencoded::to_string` on a sequence of string pairs. Its source
/// hands each pair to `form_urlencoded`'s `append_pair`, which puts `&`
/// before every pair but the first and writes `name=value`, each side run
/// through the byte serializer: the same escaping as [`escape`]. No step of
/// it fails on strings.
#[verifier::external_body]
pub(crate) fn write_params(params: &Vec<(String, String)>) -> (res: Option<String>)
    ensures
        res is Some,
        res.unwrap()@ == encode_params(params_view(params@)),
{
    serde_urlencoded::to_string(params).ok()
}

/// `serde_urlencoded::from_str` into a vector of string pairs. What it
/// returns depends on the body alone.
#[verifier::external_body]
pub(crate) fn read_params(body: &str) -> (res: Option<Vec<(String, String)>>)
    ensures
        read_view(res) == decode_params(body@),
{
    serde_urlencoded::from_str::<Vec<(String, String)>>(body).ok()
}

/// Reads a form-encoded body into its parameters; a body that cannot be
/// read gives none.
pub fn parse_body(body: &str) -> (res: Vec<(String, String)>)
    ensures
        params_view(res@) == body_params(body@),
{
    match read_params(body) {
        Some(pairs) => pairs,
        None => {
            let empty: Vec<(String, String)> = Vec::new();
            assert(params_view(empty@) =~= Seq::<Param>::empty());
            empty
        },
    }
}

/// Writes parameters in form encoding.
pub fn serialize_params(params: &Vec<(String, String)>) -> (res: String)
    ensures
        res@ == encode_params(params_view(params@)),
{
    match write_params(params) {
        Some(text) => text,
        None => String::new(),
    }
}

} // verus!
