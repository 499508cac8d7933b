//! Text building blocks: appending characters, decimal and lowercase
//! hexadecimal renderings of integers, and byte-to-text decoding.

use vstd::prelude::*;

verus! {

/// The character for a decimal digit.
pub open spec fn digit_char(d: nat) -> char
    recommends
        d < 10,
{
    ((48 + d) as u8) as char
}

/// The character for a hexadecimal digit, lowercase.
pub open spec fn hex_char(d: nat) -> char
    recommends
        d < 16,
{
    if d < 10 {
        digit_char(d)
    } else {
        ((87 + d) as u8) as char
    }
}

/// The decimal digits of a natural number, most significant first.
pub open spec fn dec_digits(n: nat) -> Seq<char>
    decreases n,
{
    if n < 10 {
        seq![digit_char(n)]
    } else {
        dec_digits(n / 10).push(digit_char(n % 10))
    }
}

/// The decimal rendering of an integer: a minus sign for negative values,
/// then the digits of the magnitude.
pub open spec fn dec_int(i: int) -> Seq<char> {
    if i < 0 {
        seq!['-'] + dec_digits((-i) as nat)
    } else {
        dec_digits(i as nat)
    }
}

/// The eight lowercase hexadecimal digits of a 32-bit value, most
/// significant first.
pub open spec fn hex8(u: u32) -> Seq<char> {
    seq![
        hex_char(((u as nat) / 0x1000_0000) % 16),
        hex_char(((u as nat) / 0x100_0000) % 16),
        hex_char(((u as nat) / 0x10_0000) % 16),
        hex_char(((u as nat) / 0x1_0000) % 16),
        hex_char(((u as nat) / 0x1000) % 16),
        hex_char(((u as nat) / 0x100) % 16),
        hex_char(((u as nat) / 0x10) % 16),
        hex_char((u as nat) % 16),
    ]
}

/// Relies on `String::push`: appends exactly the one character.
#[verifier::external_body]
pub(crate) fn push_char(s: &mut String, c: char)
    ensures
        final(s)@ == old(s)@ + seq![c],
{
    s.push(c);
}

/// Appends one hexadecimal digit character.
fn push_hex_digit(s: &mut String, d: u8)
    requires
        d < 16,
    ensures
        final(s)@ == old(s)@ + seq![hex_char(d as nat)],
{
    let c: char = if d < 10 {
        (48 + d) as char
    } else {
        (87 + d) as char
    };
    push_char(s, c);
}

/// Appends the eight lowercase hex digits of a 32-bit value.
pub fn push_hex8(s: &mut String, u: u32)
    ensures
        final(s)@ == old(s)@ + hex8(u),
{
    let ghost s0 = s@;
    push_hex_digit(s, ((u / 0x1000_0000) % 16) as u8);
    push_hex_digit(s, ((u / 0x100_0000) % 16) as u8);
    push_hex_digit(s, ((u / 0x10_0000) % 16) as u8);
    push_hex_digit(s, ((u / 0x1_0000) % 16) as u8);
    push_hex_digit(s, ((u / 0x1000) % 16) as u8);
    push_hex_digit(s, ((u / 0x100) % 16) as u8);
    push_hex_digit(s, ((u / 0x10) % 16) as u8);
    push_hex_digit(s, (u % 16) as u8);
    assert(s@ =~= s0 + hex8(u));
}

/// Appends the decimal digits of a 64-bit natural.
pub fn push_dec_u64(s: &mut String, n: u64)
    ensures
        final(s)@ == old(s)@ + dec_digits(n as nat),
    decreases n,
{
    if n < 10 {
        push_char(s, (48 + n as u8) as char);
    } else {
        let ghost s0 = s@;
        push_dec_u64(s, n / 10);
        push_char(s, (48 + (n % 10) as u8) as char);
        assert(s@ =~= s0 + dec_digits(n as nat));
    }
}

/// Appends the decimal rendering of a signed 64-bit integer.
pub fn push_dec_i64(s: &mut String, i: i64)
    ensures
        final(s)@ == old(s)@ + dec_int(i as int),
{
    if i < 0 {
        let ghost s0 = s@;
        push_char(s, '-');
        let m: u64 = if i == i64::MIN {
            0x8000_0000_0000_0000u64
        } else {
            (-i) as u64
        };
        push_dec_u64(s, m);
        assert(s@ =~= s0 + dec_int(i as int));
    } else {
        push_dec_u64(s, i as u64);
    }
}

/// Relies on `core::str::from_utf8`: succeeds exactly on valid UTF-8 and
/// decodes the bytes.
#[verifier::external_body]
pub(crate) fn utf8_to_string(bytes: &Vec<u8>) -> (r: Option<String>)
    ensures
        r is Some <==> vstd::utf8::valid_utf8(bytes@),
        r is Some ==> r->Some_0@ == vstd::utf8::decode_utf8(bytes@),
{
    match core::str::from_utf8(bytes.as_slice()) {
        Ok(s) => Some(s.to_owned()),
        Err(_) => None,
    }
}

} // verus!
