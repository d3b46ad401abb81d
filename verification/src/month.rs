//! The `Month` enumeration and its numbering.

use vstd::prelude::*;
use vstd::string::StringExecFns;

verus! {

/// Month of the year, ordered January through December.
#[derive(Debug, PartialEq, Eq, Copy, Clone, Structural)]
pub enum Month {
    January,
    February,
    March,
    April,
    May,
    June,
    July,
    August,
    September,
    October,
    November,
    December,
}

/// The 1-based calendar position of a month: January is 1, December is 12.
pub open spec fn month_number(m: Month) -> int {
    match m {
        Month::January => 1,
        Month::February => 2,
        Month::March => 3,
        Month::April => 4,
        Month::May => 5,
        Month::June => 6,
        Month::July => 7,
        Month::August => 8,
        Month::September => 9,
        Month::October => 10,
        Month::November => 11,
        Month::December => 12,
    }
}

/// The month at a given 1-based calendar position.
pub open spec fn month_of_number(n: int) -> Month {
    if n == 1 {
        Month::January
    } else if n == 2 {
        Month::February
    } else if n == 3 {
        Month::March
    } else if n == 4 {
        Month::April
    } else if n == 5 {
        Month::May
    } else if n == 6 {
        Month::June
    } else if n == 7 {
        Month::July
    } else if n == 8 {
        Month::August
    } else if n == 9 {
        Month::September
    } else if n == 10 {
        Month::October
    } else if n == 11 {
        Month::November
    } else {
        Month::December
    }
}

impl Month {
    /// The 1-based numeric index of the month.
    pub fn number(&self) -> (n: u32)
        ensures
            n == month_number(*self),
    {
        match self {
            Month::January => 1,
            Month::February => 2,
            Month::March => 3,
            Month::April => 4,
            Month::May => 5,
            Month::June => 6,
            Month::July => 7,
            Month::August => 8,
            Month::September => 9,
            Month::October => 10,
            Month::November => 11,
            Month::December => 12,
        }
    }
}

/// Numbering round trip: the month at position `month_number(m)` is `m` itself.
pub proof fn lemma_month_number_round_trip(m: Month)
    ensures
        month_of_number(month_number(m)) == m,
        1 <= month_number(m) <= 12,
{
}

/// The display label for a month: its capitalized English name followed by
/// its numeric index in parentheses.
pub open spec fn format_month_spec(m: Month) -> Seq<char> {
    match m {
        Month::January => "January (1)"@,
        Month::February => "February (2)"@,
        Month::March => "March (3)"@,
        Month::April => "April (4)"@,
        Month::May => "May (5)"@,
        Month::June => "June (6)"@,
        Month::July => "July (7)"@,
        Month::August => "August (8)"@,
        Month::September => "September (9)"@,
        Month::October => "October (10)"@,
        Month::November => "November (11)"@,
        Month::December => "December (12)"@,
    }
}

/// Render a month as its capitalized English name with its 1-based index,
/// e.g. `"January (1)"`.
pub fn format_month(month: Month) -> (r: String)
    ensures
        r@ == format_month_spec(month),
{
    match month {
        Month::January => String::from_str("January (1)"),
        Month::February => String::from_str("February (2)"),
        Month::March => String::from_str("March (3)"),
        Month::April => String::from_str("April (4)"),
        Month::May => String::from_str("May (5)"),
        Month::June => String::from_str("June (6)"),
        Month::July => String::from_str("July (7)"),
        Month::August => String::from_str("August (8)"),
        Month::September => String::from_str("September (9)"),
        Month::October => String::from_str("October (10)"),
        Month::November => String::from_str("November (11)"),
        Month::December => String::from_str("December (12)"),
    }
}

} // verus!
