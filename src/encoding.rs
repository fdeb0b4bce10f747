//! Text encodings used when building request URLs: the
//! `application/x-www-form-urlencoded` byte encoding and decimal numerals.
use vstd::prelude::*;

verus! {

/// Bytes that form encoding leaves as they are: `*`, `-`, `.`, `_`, ASCII
/// digits and ASCII letters.
pub open spec fn kept_byte(b: u8) -> bool {
    b == 42 || b == 45 || b == 46 || b == 95 || (48 <= b && b <= 57) || (65 <= b && b <= 90) || (
    97 <= b && b <= 122)
}

/// Upper-case hexadecimal digit of a value below sixteen.
pub open spec fn upper_hex_digit(n: u8) -> char {
    seq!['0', '1', '2', '3', '4', '5', '6', '7', '8', '9', 'A', 'B', 'C', 'D', 'E', 'F'][n as int]
}

/// What one byte becomes under form encoding.
pub open spec fn form_encoded_byte(b: u8) -> Seq<char> {
    if kept_byte(b) {
        seq![b as char]
    } else if b == 32 {
        seq!['+']
    } else {
        seq!['%', upper_hex_digit(b / 16), upper_hex_digit(b % 16)]
    }
}

/// Form encoding of a byte string: each byte encoded in turn.
pub open spec fn form_urlencoded(bytes: Seq<u8>) -> Seq<char>
    decreases bytes.len(),
{
    if bytes.len() == 0 {
        Seq::empty()
    } else {
        form_urlencoded(bytes.drop_last()) + form_encoded_byte(bytes.last())
    }
}

/// Relies on url::form_urlencoded::byte_serialize, which maps each byte on its
/// own: `*-._`, ASCII digits and letters stay, a space becomes `+`, any other
/// byte becomes `%` followed by two upper-case hexadecimal digits.
#[verifier::external_body]
pub(crate) fn form_encode(bytes: &[u8]) -> (r: String)
    ensures
        r@ == form_urlencoded(bytes@),
{
    url::form_urlencoded::byte_serialize(bytes).collect()
}

/// ASCII decimal digits of a natural number, most significant first, with no
/// leading zero.
pub open spec fn decimal_digits(n: nat) -> Seq<u8>
    decreases n,
{
    if n < 10 {
        seq![(48 + n) as u8]
    } else {
        decimal_digits(n / 10).push((48 + n % 10) as u8)
    }
}

/// ASCII decimal numeral of an integer, with a leading `-` when negative.
pub open spec fn decimal_numeral(v: int) -> Seq<u8> {
    if v < 0 {
        seq![45u8] + decimal_digits((-v) as nat)
    } else {
        decimal_digits(v as nat)
    }
}

fn push_digits(n: u64, out: &mut Vec<u8>)
    ensures
        final(out)@ == old(out)@ + decimal_digits(n as nat),
    decreases n,
{
    if n >= 10 {
        push_digits(n / 10, out);
    }
    out.push((48 + n % 10) as u8);
}

/// The decimal numeral of `v` as ASCII bytes.
pub fn decimal_bytes(v: i64) -> (r: Vec<u8>)
    ensures
        r@ == decimal_numeral(v as int),
{
    let mut out: Vec<u8> = Vec::new();
    if v < 0 {
        out.push(45u8);
        let magnitude: u64 = if v == i64::MIN {
            9223372036854775808u64
        } else {
            (-v) as u64
        };
        push_digits(magnitude, &mut out);
    } else {
        push_digits(v as u64, &mut out);
    }
    out
}

} // verus!
