use vstd::prelude::*;

verus! {

/// A hexadecimal digit, in either case.
pub open spec fn is_hex_char(c: char) -> bool {
    ('0' <= c && c <= '9') || ('a' <= c && c <= 'f') || ('A' <= c && c <= 'F')
}

/// The value of a hexadecimal digit.
pub open spec fn hex_char_val(c: char) -> int {
    if '0' <= c && c <= '9' {
        c as int - '0' as int
    } else if 'a' <= c && c <= 'f' {
        c as int - 'a' as int + 10
    } else {
        c as int - 'A' as int + 10
    }
}

/// A hexadecimal digit given as an ASCII byte.
pub open spec fn is_hex_byte(b: u8) -> bool {
    is_hex_char(b as char)
}

/// The bytes that consecutive pairs of hex digits stand for, high digit first.
pub open spec fn hex_pairs(t: Seq<char>) -> Seq<u8> {
    Seq::new(
        t.len() / 2,
        |i: int| (16 * hex_char_val(t[2 * i]) + hex_char_val(t[2 * i + 1])) as u8,
    )
}

/// The text with one leading `0x` removed, if it has one.
pub open spec fn strip_0x(s: Seq<char>) -> Seq<char> {
    if s.len() >= 2 && s[0] == '0' && s[1] == 'x' {
        s.subrange(2, s.len() as int)
    } else {
        s
    }
}

/// Space, tab, carriage return and line feed.
pub open spec fn is_hex_space(c: char) -> bool {
    c == ' ' || c == '\t' || c == '\r' || c == '\n'
}

/// What a 256-bit hash written in hex decodes to: an optional `0x`, then
/// exactly 64 hex digits, among which whitespace is skipped.
pub open spec fn h256_from_hex(s: Seq<char>) -> Option<Seq<u8>> {
    let t = strip_0x(s).filter(|c: char| !is_hex_space(c));
    if t.len() == 64 && (forall|i: int| 0 <= i < t.len() ==> is_hex_char(#[trigger] t[i])) {
        Some(hex_pairs(t))
    } else {
        None
    }
}

/// What a 256-bit unsigned integer written in hex decodes to, as 32
/// big-endian bytes: an optional `0x`, then at most 64 hex digits.
pub open spec fn u256_from_hex(s: Seq<char>) -> Option<Seq<u8>> {
    let t = strip_0x(s);
    if t.len() <= 64 && (forall|i: int| 0 <= i < t.len() ==> is_hex_char(#[trigger] t[i])) {
        Some(hex_pairs(Seq::new((64 - t.len()) as nat, |i: int| '0') + t))
    } else {
        None
    }
}

/// Whether the bytes are an even number of hex digits.
pub open spec fn is_hex_text(b: Seq<u8>) -> bool {
    b.len() % 2 == 0 && forall|i: int| 0 <= i < b.len() ==> is_hex_byte(#[trigger] b[i])
}

/// The bytes that a text of hex digits, given as ASCII bytes, stands for.
pub open spec fn hex_bytes(b: Seq<u8>) -> Seq<u8> {
    hex_pairs(b.map_values(|x: u8| x as char))
}

/// The lower-case hex digit of a value below 16.
pub open spec fn lower_hex_digit(n: int) -> char {
    if n < 10 {
        (n + '0' as int) as char
    } else {
        (n - 10 + 'a' as int) as char
    }
}

/// Bytes written as lower-case hex, two digits each, high digit first.
pub open spec fn lower_hex(b: Seq<u8>) -> Seq<char> {
    Seq::new(
        2 * b.len(),
        |i: int|
            if i % 2 == 0 {
                lower_hex_digit(b[i / 2] as int / 16)
            } else {
                lower_hex_digit(b[i / 2] as int % 16)
            },
    )
}

/// Relies on hex::decode: even-length text of hex digits in either case,
/// each pair giving one byte; anything else is an error.
#[verifier::external_body]
pub(crate) fn decode_hex(b: &[u8]) -> (r: Option<Vec<u8>>)
    ensures
        r is Some <==> is_hex_text(b@),
        r matches Some(v) ==> v@ == hex_bytes(b@),
{
    hex::decode(b).ok()
}

/// Relies on hex::encode: two lower-case digits for each byte.
#[verifier::external_body]
pub(crate) fn encode_hex(b: &[u8]) -> (r: String)
    ensures
        r@ == lower_hex(b@),
{
    hex::encode(b)
}

/// Relies on primitive_types::H256's `FromStr` (fixed-hash's hex parser).
#[verifier::external_body]
pub(crate) fn parse_h256(s: &str) -> (r: Option<[u8; 32]>)
    ensures
        r is Some <==> h256_from_hex(s@) is Some,
        r matches Some(h) ==> h256_from_hex(s@) == Some(h@),
{
    match <primitive_types::H256 as std::str::FromStr>::from_str(s) {
        Ok(h) => Some(h.0),
        Err(_) => None,
    }
}

/// Relies on primitive_types::U256::from_str_radix with radix 16; the value
/// comes back as its 32 big-endian bytes.
#[verifier::external_body]
pub(crate) fn parse_u256_hex(s: &str) -> (r: Option<[u8; 32]>)
    ensures
        r is Some <==> u256_from_hex(s@) is Some,
        r matches Some(h) ==> u256_from_hex(s@) == Some(h@),
{
    match primitive_types::U256::from_str_radix(s, 16) {
        Ok(u) => {
            let mut b = [0u8; 32];
            u.to_big_endian(&mut b);
            Some(b)
        },
        Err(_) => None,
    }
}

} // verus!
