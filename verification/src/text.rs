//! ASCII text: comparing commands, and writing numbers.

use vstd::prelude::*;
use vstd::string::*;

verus! {

/// The bytes of an ASCII text.
pub open spec fn ascii(text: Seq<char>) -> Seq<u8> {
    text.map_values(|c: char| c as u8)
}

/// True when `bytes` begins with `text`.
pub open spec fn begins(bytes: Seq<u8>, text: Seq<char>) -> bool {
    bytes.len() >= text.len() && bytes.take(text.len() as int) == ascii(text)
}

/// What follows `text` in `bytes`.
pub open spec fn rest(bytes: Seq<u8>, text: Seq<char>) -> Seq<u8> {
    bytes.skip(text.len() as int)
}

/// Whether `bytes` spell `text`.
pub fn is_text(bytes: &[u8], text: &str) -> (same: bool)
    ensures
        same == (bytes@ == ascii(text@)),
{
    let len: usize = text.unicode_len();
    if bytes.len() != len {
        return false;
    }
    let same: bool = agrees(bytes, text, len);
    assert(bytes@.take(len as int) =~= bytes@);
    same
}

/// Whether the first `len` bytes spell `text`.
fn agrees(bytes: &[u8], text: &str, len: usize) -> (same: bool)
    requires
        len == text@.len(),
        len <= bytes@.len(),
    ensures
        same == (bytes@.take(len as int) == ascii(text@)),
{
    let mut index: usize = 0;
    while index < len
        invariant
            index <= len,
            len == text@.len(),
            len <= bytes@.len(),
            forall|i: int| 0 <= i < index ==> #[trigger] bytes@[i] == text@[i] as u8,
        decreases len - index,
    {
        if bytes[index] != text.get_char(index) as u8 {
            assert(bytes@.take(len as int)[index as int] != ascii(text@)[index as int]);
            return false;
        }
        index = index + 1;
    }
    assert(bytes@.take(len as int) =~= ascii(text@));
    true
}

/// What follows `text`, where `bytes` begins with it.
pub fn after_text<'a>(bytes: &'a [u8], text: &str) -> (following: Option<&'a [u8]>)
    ensures
        following is Some <==> begins(bytes@, text@),
        following matches Some(found) ==> found@ == rest(bytes@, text@),
{
    let len: usize = text.unicode_len();
    if bytes.len() < len || !agrees(bytes, text, len) {
        return None;
    }
    Some(vstd::slice::slice_subrange(bytes, len, bytes.len()))
}

/// The decimal digits of a number.
pub open spec fn decimal(value: nat) -> Seq<u8>
    decreases value,
{
    if value < 10 {
        seq![(48 + value) as u8]
    } else {
        decimal(value / 10).push((48 + value % 10) as u8)
    }
}

/// The last `width` decimal digits of a number, with leading zeros.
pub open spec fn padded(value: nat, width: nat) -> Seq<u8>
    decreases width,
{
    if width == 0 {
        Seq::empty()
    } else {
        padded(value / 10, (width - 1) as nat).push((48 + value % 10) as u8)
    }
}

/// Tenths as a decimal fraction.
pub open spec fn fixed1(tenths: nat) -> Seq<u8> {
    decimal(tenths / 10) + ascii("."@) + padded(tenths % 10, 1)
}

/// Hundredths as a decimal fraction.
pub open spec fn fixed2(hundredths: nat) -> Seq<u8> {
    decimal(hundredths / 100) + ascii("."@) + padded(hundredths % 100, 2)
}

/// Thousandths as a decimal fraction.
pub open spec fn fixed3(thousandths: nat) -> Seq<u8> {
    decimal(thousandths / 1_000) + ascii("."@) + padded(thousandths % 1_000, 3)
}

/// The upper-case hexadecimal digit of a nibble.
pub open spec fn hex_digit(nibble: int) -> u8 {
    if nibble < 10 {
        (48 + nibble) as u8
    } else {
        (55 + nibble) as u8
    }
}

/// Appends a text.
pub fn append(out: &mut Vec<u8>, text: &str)
    ensures
        final(out)@ == old(out)@ + ascii(text@),
{
    let len: usize = text.unicode_len();
    let ghost before = out@;
    let mut index: usize = 0;
    assert(before + ascii(text@).take(0) =~= before);
    while index < len
        invariant
            index <= len,
            len == text@.len(),
            out@ == before + ascii(text@).take(index as int),
        decreases len - index,
    {
        let character: char = text.get_char(index);
        out.push(character as u8);
        assert(out@ =~= before + ascii(text@).take(index + 1));
        index = index + 1;
    }
    assert(ascii(text@).take(len as int) =~= ascii(text@));
}

/// Appends the decimal digits of a number.
pub fn append_decimal(out: &mut Vec<u8>, value: u32)
    ensures
        final(out)@ == old(out)@ + decimal(value as nat),
    decreases value,
{
    if value >= 10 {
        append_decimal(out, value / 10);
    }
    out.push(48 + (value % 10) as u8);
    assert(out@ =~= old(out)@ + decimal(value as nat));
}

/// Appends a number as `width` digits.
pub fn append_padded(out: &mut Vec<u8>, value: u32, width: u32)
    ensures
        final(out)@ == old(out)@ + padded(value as nat, width as nat),
    decreases width,
{
    if width == 0 {
        assert(out@ =~= old(out)@ + padded(value as nat, 0));
        return;
    }
    append_padded(out, value / 10, width - 1);
    out.push(48 + (value % 10) as u8);
    assert(out@ =~= old(out)@ + padded(value as nat, width as nat));
}

/// Appends tenths as a decimal fraction.
pub fn append_fixed1(out: &mut Vec<u8>, tenths: u32)
    ensures
        final(out)@ == old(out)@ + fixed1(tenths as nat),
{
    append_decimal(out, tenths / 10);
    append(out, ".");
    append_padded(out, tenths % 10, 1);
    assert(out@ =~= old(out)@ + fixed1(tenths as nat));
}

/// Appends hundredths as a decimal fraction.
pub fn append_fixed2(out: &mut Vec<u8>, hundredths: u32)
    ensures
        final(out)@ == old(out)@ + fixed2(hundredths as nat),
{
    append_decimal(out, hundredths / 100);
    append(out, ".");
    append_padded(out, hundredths % 100, 2);
    assert(out@ =~= old(out)@ + fixed2(hundredths as nat));
}

/// Appends thousandths as a decimal fraction.
pub fn append_fixed3(out: &mut Vec<u8>, thousandths: u32)
    ensures
        final(out)@ == old(out)@ + fixed3(thousandths as nat),
{
    append_decimal(out, thousandths / 1_000);
    append(out, ".");
    append_padded(out, thousandths % 1_000, 3);
    assert(out@ =~= old(out)@ + fixed3(thousandths as nat));
}

/// Appends the two hexadecimal digits of a byte.
pub fn append_hex(out: &mut Vec<u8>, value: u8)
    ensures
        final(out)@ == old(out)@ + seq![
            hex_digit(value as int / 16),
            hex_digit(value as int % 16),
        ],
{
    let high: u8 = value / 16;
    let low: u8 = value % 16;
    out.push(
        if high < 10 {
            48 + high
        } else {
            55 + high
        },
    );
    out.push(
        if low < 10 {
            48 + low
        } else {
            55 + low
        },
    );
    assert(out@ =~= old(out)@ + seq![hex_digit(value as int / 16), hex_digit(value as int % 16)]);
}

/// True of a sequence of decimal digits.
pub open spec fn all_digits(text: Seq<u8>) -> bool {
    forall|i: int| 0 <= i < text.len() ==> 48 <= #[trigger] text[i] <= 57
}

/// The number that digits spell.
pub open spec fn number(digits: Seq<u8>) -> nat
    decreases digits.len(),
{
    if digits.len() == 0 {
        0
    } else {
        (number(digits.drop_last()) * 10 + (digits.last() - 48)) as nat
    }
}

/// Reading written digits gives the number back.
pub proof fn decimal_reads_back(value: nat)
    ensures
        all_digits(decimal(value)),
        number(decimal(value)) == value,
        decimal(value).len() > 0,
    decreases value,
{
    if value < 10 {
        assert(decimal(value).drop_last() =~= Seq::<u8>::empty());
        reveal_with_fuel(number, 2);
    } else {
        decimal_reads_back(value / 10);
        assert(decimal(value).drop_last() =~= decimal(value / 10));
        let all = decimal(value);
        assert forall|i: int| 0 <= i < all.len() implies 48 <= #[trigger] all[i] <= 57 by {
            if i < all.len() - 1 {
                assert(all[i] == decimal(value / 10)[i]);
            }
        }
    }
}

/// A number below a power of ten has no more digits than the power.
pub proof fn decimal_length(value: nat, digits: nat, limit: nat)
    requires
        digits >= 1,
        limit == vstd::arithmetic::power::pow(10, digits),
        value < limit,
    ensures
        decimal(value).len() <= digits,
    decreases digits,
{
    reveal(vstd::arithmetic::power::pow);
    if value >= 10 {
        if digits == 1 {
            assert(vstd::arithmetic::power::pow(10, 1) == 10) by {
                reveal_with_fuel(vstd::arithmetic::power::pow, 2);
            }
        } else {
            let smaller = vstd::arithmetic::power::pow(10, (digits - 1) as nat);
            assert(vstd::arithmetic::power::pow(10, digits) == 10 * smaller);
            decimal_length(value / 10, (digits - 1) as nat, smaller as nat);
        }
    }
}

/// Padded numbers have exactly their width.
pub proof fn padded_length(value: nat, width: nat)
    ensures
        padded(value, width).len() == width,
    decreases width,
{
    if width > 0 {
        padded_length(value / 10, (width - 1) as nat);
    }
}

} // verus!
