//! Verified text formatting: zero-padded decimal and hexadecimal fields,
//! built character by character.

use vstd::prelude::*;

use vstd::string::StrSliceExecFns;

verus! {

/// The character for decimal digit `d`.
pub open spec fn spec_dec_digit(d: int) -> char {
    (('0' as int) + d) as char
}

/// The character for hexadecimal digit `d`: lower case letters.
pub open spec fn spec_hex_digit(d: int) -> char {
    if d < 10 {
        (('0' as int) + d) as char
    } else {
        (('a' as int) + d - 10) as char
    }
}

/// The character for hexadecimal digit `d`: upper case letters.
pub open spec fn spec_hex_digit_upper(d: int) -> char {
    if d < 10 {
        (('0' as int) + d) as char
    } else {
        (('A' as int) + d - 10) as char
    }
}

/// `n` as five zero-padded decimal digits (enough for any 16-bit value).
pub open spec fn spec_dec5(n: int) -> Seq<char> {
    seq![
        spec_dec_digit(n / 10000 % 10),
        spec_dec_digit(n / 1000 % 10),
        spec_dec_digit(n / 100 % 10),
        spec_dec_digit(n / 10 % 10),
        spec_dec_digit(n % 10),
    ]
}

/// `n` as four zero-padded lower-case hexadecimal digits.
pub open spec fn spec_hex4(n: int) -> Seq<char> {
    seq![
        spec_hex_digit(n / 4096 % 16),
        spec_hex_digit(n / 256 % 16),
        spec_hex_digit(n / 16 % 16),
        spec_hex_digit(n % 16),
    ]
}

/// `n` as four zero-padded upper-case hexadecimal digits.
pub open spec fn spec_hex4_upper(n: int) -> Seq<char> {
    seq![
        spec_hex_digit_upper(n / 4096 % 16),
        spec_hex_digit_upper(n / 256 % 16),
        spec_hex_digit_upper(n / 16 % 16),
        spec_hex_digit_upper(n % 16),
    ]
}

/// The character for decimal digit `d`.
pub fn dec_digit(d: u16) -> (c: char)
    requires
        d < 10,
    ensures
        c == spec_dec_digit(d as int),
{
    (48u8 + d as u8) as char
}

/// The character for hexadecimal digit `d`, lower or upper case.
pub fn hex_digit(d: u16, upper: bool) -> (c: char)
    requires
        d < 16,
    ensures
        upper ==> c == spec_hex_digit_upper(d as int),
        !upper ==> c == spec_hex_digit(d as int),
{
    if d < 10 {
        (48u8 + d as u8) as char
    } else if upper {
        (65u8 + (d - 10) as u8) as char
    } else {
        (97u8 + (d - 10) as u8) as char
    }
}

/// Append `n` as five zero-padded decimal digits.
pub fn push_dec5(out: &mut Vec<char>, n: u16)
    ensures
        final(out)@ == old(out)@ + spec_dec5(n as int),
{
    out.push(dec_digit(n / 10000 % 10));
    out.push(dec_digit(n / 1000 % 10));
    out.push(dec_digit(n / 100 % 10));
    out.push(dec_digit(n / 10 % 10));
    out.push(dec_digit(n % 10));
    proof {
        assert(out@ =~= old(out)@ + spec_dec5(n as int));
    }
}

/// Append `n` as four zero-padded hexadecimal digits.
pub fn push_hex4(out: &mut Vec<char>, n: u16, upper: bool)
    ensures
        upper ==> final(out)@ == old(out)@ + spec_hex4_upper(n as int),
        !upper ==> final(out)@ == old(out)@ + spec_hex4(n as int),
{
    out.push(hex_digit(n / 4096 % 16, upper));
    out.push(hex_digit(n / 256 % 16, upper));
    out.push(hex_digit(n / 16 % 16, upper));
    out.push(hex_digit(n % 16, upper));
    proof {
        if upper {
            assert(out@ =~= old(out)@ + spec_hex4_upper(n as int));
        } else {
            assert(out@ =~= old(out)@ + spec_hex4(n as int));
        }
    }
}

/// `n` as two zero-padded upper-case hexadecimal digits.
pub open spec fn spec_hex2_upper(n: int) -> Seq<char> {
    seq![spec_hex_digit_upper(n / 16 % 16), spec_hex_digit_upper(n % 16)]
}

/// Append `n` as two zero-padded upper-case hexadecimal digits.
pub fn push_hex2_upper(out: &mut Vec<char>, n: u16)
    ensures
        final(out)@ == old(out)@ + spec_hex2_upper(n as int),
{
    out.push(hex_digit(n / 16 % 16, true));
    out.push(hex_digit(n % 16, true));
    proof {
        assert(out@ =~= old(out)@ + spec_hex2_upper(n as int));
    }
}

/// Append every character of `s`.
pub fn push_str_chars(out: &mut Vec<char>, s: &str)
    ensures
        final(out)@ == old(out)@ + s@,
{
    let n = s.unicode_len();
    let mut i: usize = 0;
    while i < n
        invariant
            n == s@.len(),
            i <= n,
            out@ == old(out)@ + s@.subrange(0, i as int),
        decreases n - i,
    {
        let c = s.get_char(i);
        out.push(c);
        proof {
            assert(s@.subrange(0, i as int).push(s@[i as int]) =~= s@.subrange(
                0,
                i as int + 1,
            ));
        }
        i = i + 1;
    }
    proof {
        assert(s@.subrange(0, s@.len() as int) =~= s@);
    }
}

/// Relies on String's FromIterator over characters: collecting characters
/// yields a string of exactly those characters, in order.
#[verifier::external_body]
pub fn string_from_chars(cs: &Vec<char>) -> (r: String)
    ensures
        r@ == cs@,
{
    cs.iter().collect()
}

} // verus!
