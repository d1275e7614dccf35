//! Numbers as text: the digits of a number, as bytes.

use vstd::prelude::*;

verus! {

/// The digit for `value`, a number below 16: `0` to `9`, then `a` to `f`.
pub open spec fn digit(value: int) -> u8 {
    if value < 10 {
        (0x30 + value) as u8
    } else {
        (0x61 + value - 10) as u8
    }
}

/// The decimal digits of `number`, without leading zeros.
pub open spec fn decimal(number: nat) -> Seq<u8>
    decreases number,
{
    if number < 10 {
        seq![digit(number as int)]
    } else {
        decimal(number / 10).push(digit(number as int % 10))
    }
}

/// The hexadecimal digits of `number`, without leading zeros.
pub open spec fn hexadecimal(number: nat) -> Seq<u8>
    decreases number,
{
    if number < 16 {
        seq![digit(number as int)]
    } else {
        hexadecimal(number / 16).push(digit(number as int % 16))
    }
}

/// Puts `bytes` behind what `text` holds.
pub fn push_all(text: &mut Vec<u8>, bytes: &[u8])
    ensures
        final(text)@ == old(text)@ + bytes@,
{
    let mut i: usize = 0;
    while i < bytes.len()
        invariant
            i <= bytes.len(),
            text@ == old(text)@ + bytes@.take(i as int),
        decreases bytes.len() - i,
    {
        text.push(bytes[i]);
        i += 1;
        assert(text@ =~= old(text)@ + bytes@.take(i as int));
    }
    assert(bytes@.take(i as int) =~= bytes@);
}

/// The digit for `value`.
fn digit_of(value: u8) -> (byte: u8)
    requires
        value < 16,
    ensures
        byte == digit(value as int),
{
    if value < 10 {
        0x30 + value
    } else {
        0x61 + (value - 10)
    }
}

/// The decimal digits of `number`.
pub fn decimal_digits(number: u64) -> (digits: Vec<u8>)
    ensures
        digits@ == decimal(number as nat),
    decreases number,
{
    if number < 10 {
        let mut digits = Vec::new();
        digits.push(digit_of(number as u8));
        assert(digits@ =~= decimal(number as nat));
        digits
    } else {
        let mut digits = decimal_digits(number / 10);
        digits.push(digit_of((number % 10) as u8));
        digits
    }
}

/// The hexadecimal digits of `number`.
pub fn hexadecimal_digits(number: u64) -> (digits: Vec<u8>)
    ensures
        digits@ == hexadecimal(number as nat),
    decreases number,
{
    if number < 16 {
        let mut digits = Vec::new();
        digits.push(digit_of(number as u8));
        assert(digits@ =~= hexadecimal(number as nat));
        digits
    } else {
        let mut digits = hexadecimal_digits(number / 16);
        digits.push(digit_of((number % 16) as u8));
        digits
    }
}

} // verus!
