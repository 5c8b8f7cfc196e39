//! Number syntax of the USB commands.

use crate::text::{all_digits, number};
use vstd::prelude::*;

verus! {

/// Where the decimal point of `text` stands, or its end.
pub open spec fn point(text: Seq<u8>) -> int
    decreases text.len(),
{
    if text.len() == 0 {
        0
    } else if text[0] == 46 {
        0
    } else {
        1 + point(text.skip(1))
    }
}

/// Thousandths that a fraction of up to three digits stands for.
pub open spec fn thousandths(fraction: Seq<u8>) -> nat {
    if fraction.len() == 1 {
        number(fraction) * 100
    } else if fraction.len() == 2 {
        number(fraction) * 10
    } else {
        number(fraction)
    }
}

/// True of digits, optionally with a point and one to three more digits.
pub open spec fn milliunits_wf(text: Seq<u8>) -> bool {
    let at = point(text);
    &&& at > 0
    &&& all_digits(text.take(at))
    &&& at < text.len() ==> 1 <= text.skip(at + 1).len() <= 3 && all_digits(text.skip(at + 1))
}

/// The value of a decimal number in thousandths.
pub open spec fn milliunits_value(text: Seq<u8>) -> nat {
    let at = point(text);
    number(text.take(at)) * 1_000 + if at < text.len() {
        thousandths(text.skip(at + 1))
    } else {
        0
    }
}

/// The thousandths that `text` spells, if it spells any that fit.
pub open spec fn milliunits(text: Seq<u8>) -> Option<u16> {
    if milliunits_wf(text) && milliunits_value(text) <= 0xffff {
        Some(milliunits_value(text) as u16)
    } else {
        None
    }
}

/// Numbers too large to matter.
const OVERFLOW: u32 = 100_000;

/// The number that a run of digits spells, cut off where it is too large to
/// matter.
fn read_digits(text: &[u8], from: usize, to: usize) -> (value: Option<u32>)
    requires
        from <= to <= text@.len(),
    ensures
        value is Some <==> all_digits(text@.subrange(from as int, to as int)),
        value matches Some(found) ==> {
            &&& number(text@.subrange(from as int, to as int)) < OVERFLOW ==> found as nat
                == number(text@.subrange(from as int, to as int))
            &&& number(text@.subrange(from as int, to as int)) >= OVERFLOW ==> found == OVERFLOW
        },
{
    let ghost digits = text@.subrange(from as int, to as int);
    let mut value: u32 = 0;
    let mut index: usize = from;
    assert(text@.subrange(from as int, from as int) =~= Seq::<u8>::empty());
    while index < to
        invariant
            from <= index <= to <= text@.len(),
            digits == text@.subrange(from as int, to as int),
            value <= OVERFLOW,
            all_digits(text@.subrange(from as int, index as int)),
            number(text@.subrange(from as int, index as int)) < OVERFLOW ==> value as nat == number(
                text@.subrange(from as int, index as int),
            ),
            number(text@.subrange(from as int, index as int)) >= OVERFLOW ==> value == OVERFLOW,
        decreases to - index,
    {
        let byte: u8 = text[index];
        let ghost shorter = text@.subrange(from as int, index as int);
        let ghost longer = text@.subrange(from as int, index + 1);
        assert(longer.drop_last() =~= shorter);
        assert(longer.last() == byte);
        if byte < 48 || byte > 57 {
            assert(digits[index - from] == byte);
            return None;
        }
        assert forall|i: int| 0 <= i < longer.len() implies 48 <= #[trigger] longer[i] <= 57 by {
            if i < shorter.len() {
                assert(longer[i] == shorter[i]);
            }
        }
        value = value * 10 + (byte - 48) as u32;
        if value > OVERFLOW {
            value = OVERFLOW;
        }
        index = index + 1;
    }
    Some(value)
}

fn find_point(text: &[u8]) -> (at: usize)
    ensures
        at as int == point(text@),
        at <= text@.len(),
{
    let mut at: usize = 0;
    assert(text@.skip(0) =~= text@);
    while at < text.len()
        invariant
            at <= text@.len(),
            point(text@) == at + point(text@.skip(at as int)),
        decreases text@.len() - at,
    {
        assert(text@.skip(at as int)[0] == text@[at as int]);
        if text[at] == 46 {
            return at;
        }
        assert(text@.skip(at as int).skip(1) =~= text@.skip(at + 1));
        at = at + 1;
    }
    at
}

/// Reads a decimal number in thousandths: exact, with at most three digits
/// after the point.
pub fn parse_milliunits(text: &[u8]) -> (value: Option<u16>)
    ensures
        value == milliunits(text@),
{
    let at: usize = find_point(text);
    if at == 0 {
        return None;
    }
    assert(text@.subrange(0, at as int) =~= text@.take(at as int));
    let whole: u32 = match read_digits(text, 0, at) {
        Some(whole) => whole,
        None => {
            return None;
        },
    };
    let mut total: u32 = whole * 1_000;
    if at < text.len() {
        let digits: usize = text.len() - at - 1;
        if digits < 1 || digits > 3 {
            return None;
        }
        assert(text@.subrange(at + 1, text@.len() as int) =~= text@.skip(at + 1));
        let fraction: u32 = match read_digits(text, at + 1, text.len()) {
            Some(fraction) => fraction,
            None => {
                return None;
            },
        };
        proof {
            lemma_short_number(text@.skip(at + 1));
        }
        total = total + if digits == 1 {
            fraction * 100
        } else if digits == 2 {
            fraction * 10
        } else {
            fraction
        };
    }
    if total <= 0xffff {
        Some(total as u16)
    } else {
        None
    }
}

/// A number of at most three digits is below a thousand.
proof fn lemma_short_number(digits: Seq<u8>)
    requires
        digits.len() <= 3,
        all_digits(digits),
    ensures
        number(digits) < 1_000,
        digits.len() <= 2 ==> number(digits) < 100,
        digits.len() <= 1 ==> number(digits) < 10,
    decreases digits.len(),
{
    if digits.len() > 0 {
        let shorter = digits.drop_last();
        assert forall|i: int| 0 <= i < shorter.len() implies 48 <= #[trigger] shorter[i] <= 57 by {
            assert(shorter[i] == digits[i]);
        }
        assert(48 <= digits[digits.len() - 1] <= 57);
        lemma_short_number(shorter);
    }
}

} // verus!
