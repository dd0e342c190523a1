//! The date line of the dashboard's home page, such as "29 June 26".
use vstd::prelude::*;
use vstd::string::*;
use crate::text::{decimal, two_digits, push_decimal, push_two_digits};

verus! {

/// The English name of the month with the given zero-based index; an index
/// past December falls back to "January".
pub open spec fn month_name(index: int) -> Seq<char> {
    if index == 0 { "January"@ }
    else if index == 1 { "February"@ }
    else if index == 2 { "March"@ }
    else if index == 3 { "April"@ }
    else if index == 4 { "May"@ }
    else if index == 5 { "June"@ }
    else if index == 6 { "July"@ }
    else if index == 7 { "August"@ }
    else if index == 8 { "September"@ }
    else if index == 9 { "October"@ }
    else if index == 10 { "November"@ }
    else if index == 11 { "December"@ }
    else { "January"@ }
}

/// The date line: the day of the month, the month's name and the year
/// within its century with two digits, separated by single spaces.
pub open spec fn dashboard_date(day: nat, month_index: int, full_year: nat) -> Seq<char> {
    decimal(day) + " "@ + month_name(month_index) + " "@ + two_digits(full_year % 100)
}

/// The name of the month with the given zero-based index, "January" for an
/// index out of range.
pub fn month_name_of(index: u32) -> (name: &'static str)
    ensures
        name@ == month_name(index as int),
{
    if index == 0 { "January" }
    else if index == 1 { "February" }
    else if index == 2 { "March" }
    else if index == 3 { "April" }
    else if index == 4 { "May" }
    else if index == 5 { "June" }
    else if index == 6 { "July" }
    else if index == 7 { "August" }
    else if index == 8 { "September" }
    else if index == 9 { "October" }
    else if index == 10 { "November" }
    else if index == 11 { "December" }
    else { "January" }
}

/// Formats the date line from the day of the month (1 to 31), the
/// zero-based month index and the full year, as the calendar gives them.
pub fn format_dashboard_date(day: u32, month_index: u32, full_year: u32) -> (line: String)
    ensures
        line@ == dashboard_date(day as nat, month_index as int, full_year as nat),
{
    let mut line = String::new();
    push_decimal(&mut line, day as u64);
    line.append(" ");
    line.append(month_name_of(month_index));
    line.append(" ");
    push_two_digits(&mut line, (full_year % 100) as u64);
    assert(line@ =~= dashboard_date(day as nat, month_index as int, full_year as nat));
    line
}

/// The year always takes exactly two characters on the date line, so that
/// the line ends with the last two digits of the year.
pub proof fn lemma_year_has_two_digits(full_year: nat)
    ensures
        two_digits(full_year % 100).len() == 2,
{
    let y = full_year % 100;
    if y < 10 {
        assert(decimal(y).len() == 1);
    } else {
        assert(decimal(y / 10).len() == 1);
    }
}

} // verus!
