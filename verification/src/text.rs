//! Numbers written out as text.

use vstd::prelude::*;
use vstd::string::StringExecFns;

verus! {

/// The character of a decimal or hexadecimal digit, lower case.
pub open spec fn digit_char(d: int) -> char {
    if d == 0 {
        '0'
    } else if d == 1 {
        '1'
    } else if d == 2 {
        '2'
    } else if d == 3 {
        '3'
    } else if d == 4 {
        '4'
    } else if d == 5 {
        '5'
    } else if d == 6 {
        '6'
    } else if d == 7 {
        '7'
    } else if d == 8 {
        '8'
    } else if d == 9 {
        '9'
    } else if d == 10 {
        'a'
    } else if d == 11 {
        'b'
    } else if d == 12 {
        'c'
    } else if d == 13 {
        'd'
    } else if d == 14 {
        'e'
    } else {
        'f'
    }
}

/// The decimal digits of a number, most significant first, without leading
/// zeros.
pub open spec fn decimal(n: nat) -> Seq<char>
    decreases n,
{
    if n < 10 {
        seq![digit_char(n as int)]
    } else {
        decimal(n / 10).push(digit_char((n % 10) as int))
    }
}

/// Sixteen to the power `e`.
pub open spec fn pow16(e: nat) -> nat
    decreases e,
{
    if e == 0 {
        1
    } else {
        16 * pow16((e - 1) as nat)
    }
}

/// The sixteen hexadecimal digits of a 64-bit number, most significant first,
/// lower case, with leading zeros.
pub open spec fn hex16(n: u64) -> Seq<char> {
    Seq::new(16, |i: int| digit_char((n as int / pow16((15 - i) as nat) as int) % 16))
}

proof fn lemma_pow16_positive(e: nat)
    ensures
        pow16(e) >= 1,
    decreases e,
{
    if e > 0 {
        lemma_pow16_positive((e - 1) as nat);
    }
}

/// Appends one character. Trusted: `String::push` of the standard library
/// appends the given character to the end of the string.
#[verifier::external_body]
pub(crate) fn push_char(text: &mut String, c: char)
    ensures
        final(text)@ == old(text)@.push(c),
{
    text.push(c)
}

/// The character of a digit below sixteen.
pub fn digit_to_char(d: u8) -> (c: char)
    requires
        d < 16,
    ensures
        c == digit_char(d as int),
{
    if d == 0 {
        '0'
    } else if d == 1 {
        '1'
    } else if d == 2 {
        '2'
    } else if d == 3 {
        '3'
    } else if d == 4 {
        '4'
    } else if d == 5 {
        '5'
    } else if d == 6 {
        '6'
    } else if d == 7 {
        '7'
    } else if d == 8 {
        '8'
    } else if d == 9 {
        '9'
    } else if d == 10 {
        'a'
    } else if d == 11 {
        'b'
    } else if d == 12 {
        'c'
    } else if d == 13 {
        'd'
    } else if d == 14 {
        'e'
    } else {
        'f'
    }
}

/// Appends the decimal digits of a number to a text.
pub fn append_decimal(text: &mut String, n: u64)
    ensures
        final(text)@ == old(text)@ + decimal(n as nat),
    decreases n,
{
    if n >= 10 {
        append_decimal(text, n / 10);
    }
    push_char(text, digit_to_char((n % 10) as u8));
}

/// Writes a number in decimal.
pub fn decimal_text(n: u64) -> (text: String)
    ensures
        text@ == decimal(n as nat),
{
    let mut text = String::new();
    append_decimal(&mut text, n);
    text
}

/// Appends the sixteen hexadecimal digits of a number to a text.
pub fn append_hex16(text: &mut String, n: u64)
    ensures
        final(text)@ == old(text)@ + hex16(n),
{
    let mut divisor: u64 = 0x1000_0000_0000_0000;
    let mut i: usize = 0;
    assert(pow16(15) == 0x1000_0000_0000_0000) by {
        reveal_with_fuel(pow16, 16);
    }
    while i < 16
        invariant
            i <= 16,
            i < 16 ==> divisor == pow16((15 - i) as nat),
            divisor >= 1,
            text@ == old(text)@ + hex16(n).subrange(0, i as int),
        decreases 16 - i,
    {
        let digit: u64 = (n / divisor) % 16;
        push_char(text, digit_to_char(digit as u8));
        proof {
            assert(hex16(n).subrange(0, i + 1) == hex16(n).subrange(0, i as int).push(
                hex16(n)[i as int],
            ));
            if i < 15 {
                assert(pow16((15 - i) as nat) == 16 * pow16((14 - i) as nat));
                lemma_pow16_positive((14 - i) as nat);
            }
        }
        if i < 15 {
            divisor = divisor / 16;
        }
        i = i + 1;
    }
    assert(hex16(n).subrange(0, 16) == hex16(n));
}

} // verus!
