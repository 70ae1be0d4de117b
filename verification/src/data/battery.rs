// SPDX-License-Identifier: AGPL-3.0-only

//! The charge of the battery.

use super::Describe;
use vstd::prelude::*;

verus! {

/// The charge of the battery in whole percent. A reading with a fraction is
/// rounded to the nearest whole percent before it gets here: the status line
/// shows no fraction.
#[derive(Copy, Clone, Debug, PartialEq, Eq, Structural)]
pub struct BatteryStatus {
    pub percentage: u8,
}

/// The character for a decimal digit.
pub open spec fn decimal_digit(value: int) -> char {
    ('0' as int + value) as char
}

/// How a percentage is shown: the number in decimal, set to the right in
/// three places, and a percent sign.
pub open spec fn percent_text(percentage: int) -> Seq<char> {
    seq![
        if percentage >= 100 {
            decimal_digit(percentage / 100)
        } else {
            ' '
        },
        if percentage >= 10 {
            decimal_digit(percentage / 10 % 10)
        } else {
            ' '
        },
        decimal_digit(percentage % 10),
        '%',
    ]
}

/// The character for the decimal digit `value`.
fn decimal_digit_char(value: u8) -> (digit: char)
    requires
        value < 10,
    ensures
        digit == decimal_digit(value as int),
{
    (0x30u8 + value) as char
}

impl Describe for BatteryStatus {
    open spec fn text(&self) -> Seq<char> {
        percent_text(self.percentage as int)
    }

    fn to_string(&self) -> (text: String) {
        let p = self.percentage;
        let mut text = String::new();
        text.push(
            if p >= 100 {
                decimal_digit_char(p / 100)
            } else {
                ' '
            },
        );
        text.push(
            if p >= 10 {
                decimal_digit_char(p / 10 % 10)
            } else {
                ' '
            },
        );
        text.push(decimal_digit_char(p % 10));
        text.push('%');
        assert(text@ =~= percent_text(p as int));
        text
    }
}

impl From<u8> for BatteryStatus {
    fn from(percentage: u8) -> (status: Self) {
        BatteryStatus { percentage }
    }
}

impl vstd::std_specs::convert::FromSpecImpl<u8> for BatteryStatus {
    open spec fn obeys_from_spec() -> bool {
        true
    }

    open spec fn from_spec(percentage: u8) -> Self {
        BatteryStatus { percentage }
    }
}

} // verus!
