//! The backup schedule: how often a backup is taken.
//!
//! A schedule is written as a quantity and a unit with nothing between or
//! around them, as in `30min`, `12hr`, `1d` or `2wk`.

use crate::text::chars_of;
use vstd::prelude::*;

verus! {

/// The unit of a backup interval.
#[derive(Clone, Copy, Debug, PartialEq, Eq, Structural)]
pub enum TimeUnit {
    Minutes,
    Hours,
    Days,
    Weeks,
}

/// The time between two backups.
#[derive(Clone, Copy, Debug, PartialEq, Eq, Structural)]
pub struct BackupInterval {
    pub quantity: u32,
    pub unit: TimeUnit,
}

/// Why a schedule was refused.
#[derive(Clone, Copy, Debug, PartialEq, Eq, Structural)]
pub enum ScheduleError {
    /// The text is not a quantity followed by one of the units.
    Malformed,
    /// The quantity is larger than 4294967295.
    QuantityTooLarge,
}

/// Whether a character is one of `0` to `9`.
pub open spec fn is_digit(c: char) -> bool {
    '0' <= c && c <= '9'
}

/// The value of a decimal digit.
pub open spec fn digit_value(c: char) -> nat {
    (c as u32 - '0' as u32) as nat
}

/// The number that a string of decimal digits writes.
pub open spec fn decimal_value(digits: Seq<char>) -> nat
    decreases digits.len(),
{
    if digits.len() == 0 {
        0
    } else {
        10 * decimal_value(digits.drop_last()) + digit_value(digits.last())
    }
}

/// How many digits a text begins with.
pub open spec fn leading_digits(text: Seq<char>) -> nat
    decreases text.len(),
{
    if text.len() > 0 && is_digit(text[0]) {
        1 + leading_digits(text.skip(1))
    } else {
        0
    }
}

/// The unit that a text names, if it names one.
pub open spec fn unit_spec(text: Seq<char>) -> Option<TimeUnit> {
    if text == seq!['m', 'i', 'n'] {
        Some(TimeUnit::Minutes)
    } else if text == seq!['h', 'r'] {
        Some(TimeUnit::Hours)
    } else if text == seq!['d'] {
        Some(TimeUnit::Days)
    } else if text == seq!['w', 'k'] {
        Some(TimeUnit::Weeks)
    } else {
        None
    }
}

/// What a schedule text means: its leading digits are the quantity, and the
/// rest has to name the unit.
pub open spec fn parse_backup_schedule_spec(text: Seq<char>) -> Result<
    BackupInterval,
    ScheduleError,
> {
    let split = leading_digits(text) as int;
    match unit_spec(text.skip(split)) {
        Some(unit) => if split == 0 {
            Err(ScheduleError::Malformed)
        } else if decimal_value(text.take(split)) > u32::MAX {
            Err(ScheduleError::QuantityTooLarge)
        } else {
            Ok(BackupInterval { quantity: decimal_value(text.take(split)) as u32, unit })
        },
        None => Err(ScheduleError::Malformed),
    }
}

/// A text that opens with `count` digits and goes on with something else
/// has exactly `count` leading digits.
pub proof fn lemma_leading_digits(text: Seq<char>, count: int)
    requires
        0 <= count <= text.len(),
        forall|i: int| 0 <= i < count ==> is_digit(#[trigger] text[i]),
        count == text.len() || !is_digit(text[count]),
    ensures
        leading_digits(text) == count,
    decreases count,
{
    if count > 0 {
        let rest = text.skip(1);
        assert forall|i: int| 0 <= i < count - 1 implies is_digit(#[trigger] rest[i]) by {
            assert(rest[i] == text[i + 1]);
        }
        lemma_leading_digits(rest, count - 1);
    }
}

/// A longer string of digits never writes a smaller number than its
/// beginning.
pub proof fn lemma_decimal_value_grows(digits: Seq<char>, shorter: int)
    requires
        0 <= shorter <= digits.len(),
    ensures
        decimal_value(digits.take(shorter)) <= decimal_value(digits),
    decreases digits.len(),
{
    if shorter < digits.len() {
        let front = digits.drop_last();
        assert(front.take(shorter) == digits.take(shorter));
        lemma_decimal_value_grows(front, shorter);
    } else {
        assert(digits.take(shorter) == digits);
    }
}

/// A text is accepted exactly when it is one or more digits, whose number
/// fits 32 bits, followed by `min`, `hr`, `d` or `wk`.
pub proof fn lemma_schedule_grammar(text: Seq<char>)
    ensures
        parse_backup_schedule_spec(text) is Ok <==> (exists|split: int|
            0 < split <= text.len() && (forall|i: int|
                0 <= i < split ==> is_digit(#[trigger] text[i])) && decimal_value(
                text.take(split),
            ) <= u32::MAX && #[trigger] unit_spec(text.skip(split)) is Some),
{
    let count = leading_digits(text) as int;
    if parse_backup_schedule_spec(text) is Ok {
        lemma_leading_digits_shape(text);
        assert(unit_spec(text.skip(count)) is Some);
    }
    assert forall|split: int|
        0 < split <= text.len() && (forall|i: int|
            0 <= i < split ==> is_digit(#[trigger] text[i])) && decimal_value(text.take(split))
            <= u32::MAX && #[trigger] unit_spec(text.skip(split)) is Some implies split
        == count by {
        let rest = text.skip(split);
        if split < text.len() {
            assert(rest[0] == text[split]);
            assert(!is_digit(rest[0]));
        }
        lemma_leading_digits(text, split);
    }
}

/// The leading digits of a text are digits, and what follows them is not.
pub proof fn lemma_leading_digits_shape(text: Seq<char>)
    ensures
        leading_digits(text) <= text.len(),
        forall|i: int| 0 <= i < leading_digits(text) ==> is_digit(#[trigger] text[i]),
        leading_digits(text) == text.len() || !is_digit(text[leading_digits(text) as int]),
    decreases text.len(),
{
    if text.len() > 0 && is_digit(text[0]) {
        let rest = text.skip(1);
        lemma_leading_digits_shape(rest);
        assert forall|i: int| 0 <= i < leading_digits(text) implies is_digit(
            #[trigger] text[i],
        ) by {
            if i > 0 {
                assert(text[i] == rest[i - 1]);
            }
        }
        if leading_digits(text) < text.len() {
            assert(text[leading_digits(text) as int] == rest[leading_digits(rest) as int]);
        }
    }
}

/// Reads the unit that the characters from `start` on name.
fn parse_unit(chars: &Vec<char>, start: usize) -> (unit: Option<TimeUnit>)
    requires
        start <= chars@.len(),
    ensures
        unit == unit_spec(chars@.skip(start as int)),
{
    let rest = chars.len() - start;
    proof {
        let tail = chars@.skip(start as int);
        assert(tail.len() == rest);
        assert forall|i: int| 0 <= i < rest implies tail[i] == chars@[start + i] by {}
        if rest == 3 {
            assert(tail == seq!['m', 'i', 'n'] <==> (tail[0] == 'm' && tail[1] == 'i' && tail[2]
                == 'n')) by {
                if tail[0] == 'm' && tail[1] == 'i' && tail[2] == 'n' {
                    assert(tail =~= seq!['m', 'i', 'n']);
                }
            }
        }
        if rest == 2 {
            assert(tail == seq!['h', 'r'] <==> (tail[0] == 'h' && tail[1] == 'r')) by {
                if tail[0] == 'h' && tail[1] == 'r' {
                    assert(tail =~= seq!['h', 'r']);
                }
            }
            assert(tail == seq!['w', 'k'] <==> (tail[0] == 'w' && tail[1] == 'k')) by {
                if tail[0] == 'w' && tail[1] == 'k' {
                    assert(tail =~= seq!['w', 'k']);
                }
            }
        }
        if rest == 1 {
            assert(tail == seq!['d'] <==> tail[0] == 'd') by {
                if tail[0] == 'd' {
                    assert(tail =~= seq!['d']);
                }
            }
        }
        assert(seq!['m', 'i', 'n'].len() == 3);
        assert(seq!['h', 'r'].len() == 2);
        assert(seq!['w', 'k'].len() == 2);
        assert(seq!['d'].len() == 1);
    }
    if rest == 3 && chars[start] == 'm' && chars[start + 1] == 'i' && chars[start + 2] == 'n' {
        Some(TimeUnit::Minutes)
    } else if rest == 2 && chars[start] == 'h' && chars[start + 1] == 'r' {
        Some(TimeUnit::Hours)
    } else if rest == 1 && chars[start] == 'd' {
        Some(TimeUnit::Days)
    } else if rest == 2 && chars[start] == 'w' && chars[start + 1] == 'k' {
        Some(TimeUnit::Weeks)
    } else {
        None
    }
}

/// Reads a backup schedule.
///
/// The text has to be one or more of the digits `0` to `9` directly followed
/// by `min`, `hr`, `d` or `wk`, and nothing else; any other text is
/// `Malformed`. A well-formed text whose quantity does not fit 32 bits is
/// `QuantityTooLarge`. Leading zeros do not count.
pub fn parse_backup_schedule(text: &str) -> (r: Result<BackupInterval, ScheduleError>)
    ensures
        r == parse_backup_schedule_spec(text@),
{
    let chars = chars_of(text);
    let mut split: usize = 0;
    while split < chars.len() && chars[split] >= '0' && chars[split] <= '9'
        invariant
            split <= chars@.len(),
            forall|i: int| 0 <= i < split ==> is_digit(#[trigger] chars@[i]),
        decreases chars@.len() - split,
    {
        split = split + 1;
    }
    proof {
        lemma_leading_digits(chars@, split as int);
    }
    let unit = match parse_unit(&chars, split) {
        Some(unit) => unit,
        None => { return Err(ScheduleError::Malformed); },
    };
    if split == 0 {
        return Err(ScheduleError::Malformed);
    }
    let ghost digits = chars@.take(split as int);
    let mut quantity: u64 = 0;
    let mut i: usize = 0;
    while i < split
        invariant
            0 < split,
            i <= split <= chars@.len(),
            chars@ == text@,
            leading_digits(chars@) == split,
            unit_spec(chars@.skip(split as int)) == Some(unit),
            digits == chars@.take(split as int),
            forall|j: int| 0 <= j < split ==> is_digit(#[trigger] chars@[j]),
            quantity == decimal_value(digits.take(i as int)),
            quantity <= u32::MAX,
        decreases split - i,
    {
        let c: char = chars[i];
        let digit: u64 = (c as u32 - '0' as u32) as u64;
        proof {
            let next = digits.take(i as int + 1);
            assert(next.drop_last() == digits.take(i as int));
            assert(next.last() == c);
            assert(is_digit(chars@[i as int]));
        }
        quantity = quantity * 10 + digit;
        assert(quantity == decimal_value(digits.take(i as int + 1)));
        if quantity > 0xffff_ffff {
            proof {
                lemma_decimal_value_grows(digits, i as int + 1);
            }
            return Err(ScheduleError::QuantityTooLarge);
        }
        i = i + 1;
    }
    proof {
        assert(digits.take(split as int) == digits);
    }
    Ok(BackupInterval { quantity: quantity as u32, unit })
}

} // verus!
