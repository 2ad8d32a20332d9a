//! Calendar dates: the day on which a document is received.

use vstd::prelude::*;
use crate::text::{padded_decimal, render_padded};

verus! {

/// A day of the proleptic Gregorian calendar.
#[derive(Clone, Copy, Debug, PartialEq, Eq, Structural)]
pub struct CalendarDate {
    pub year: i32,
    pub month: u32,
    pub day: u32,
}

/// The year of a date as it is written in a title: four digits for the years
/// 0 to 9999, a sign and at least four digits for every other year.
pub open spec fn year_text(year: int) -> Seq<char> {
    if 0 <= year <= 9999 {
        padded_decimal(year as nat, 4)
    } else if year < 0 {
        seq!['-'] + padded_decimal((-year) as nat, 4)
    } else {
        seq!['+'] + padded_decimal(year as nat, 4)
    }
}

impl CalendarDate {
    /// The month and the day lie in the ranges that a calendar has.
    pub open spec fn in_range(self) -> bool {
        &&& 1 <= self.month <= 12
        &&& 1 <= self.day <= 31
    }

    /// The date as year, month and day, joined by hyphens: `2024-03-09`.
    pub open spec fn iso_text_spec(self) -> Seq<char> {
        year_text(self.year as int) + seq!['-'] + padded_decimal(self.month as nat, 2) + seq!['-']
            + padded_decimal(self.day as nat, 2)
    }

    /// Renders the date as year, month and day, joined by hyphens.
    pub fn iso_text(&self) -> (s: String)
        ensures
            s@ == self.iso_text_spec(),
    {
        proof {
            reveal_strlit("-");
            reveal_strlit("+");
        }
        let year: String = if 0 <= self.year && self.year <= 9999 {
            render_padded(self.year as u64, 4)
        } else if self.year < 0 {
            String::from_str("-").concat(render_padded((-(self.year as i64)) as u64, 4).as_str())
        } else {
            String::from_str("+").concat(render_padded(self.year as u64, 4).as_str())
        };
        assert(year@ =~= year_text(self.year as int));
        let mut s = year;
        s.append("-");
        s.append(render_padded(self.month as u64, 2).as_str());
        s.append("-");
        s.append(render_padded(self.day as u64, 2).as_str());
        assert(s@ =~= self.iso_text_spec());
        s
    }
}

} // verus!
