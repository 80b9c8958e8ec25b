//! Lessons that repeat by the week.

use vstd::prelude::*;

verus! {

/// A day of the week. The store holds it as a number, Monday as 1 and
/// Sunday as 7.
#[derive(Debug, Clone, Copy, PartialEq, Eq, Structural)]
pub enum WeekDay {
    Monday,
    Tuesday,
    Wednesday,
    Thursday,
    Friday,
    Saturday,
    Sunday,
}

impl WeekDay {
    /// The number of the day.
    pub open spec fn ordinal(self) -> i16 {
        match self {
            WeekDay::Monday => 1,
            WeekDay::Tuesday => 2,
            WeekDay::Wednesday => 3,
            WeekDay::Thursday => 4,
            WeekDay::Friday => 5,
            WeekDay::Saturday => 6,
            WeekDay::Sunday => 7,
        }
    }

    /// The number of the day.
    pub fn number(self) -> (n: i16)
        ensures
            n == self.ordinal(),
            1 <= n <= 7,
    {
        match self {
            WeekDay::Monday => 1,
            WeekDay::Tuesday => 2,
            WeekDay::Wednesday => 3,
            WeekDay::Thursday => 4,
            WeekDay::Friday => 5,
            WeekDay::Saturday => 6,
            WeekDay::Sunday => 7,
        }
    }

    /// The day with the given number: one for each number from 1 to 7, and
    /// none for any other.
    pub fn from_number(n: i16) -> (day: Option<WeekDay>)
        ensures
            day is Some <==> 1 <= n <= 7,
            day matches Some(d) ==> d.ordinal() == n,
    {
        if n == 1 {
            Some(WeekDay::Monday)
        } else if n == 2 {
            Some(WeekDay::Tuesday)
        } else if n == 3 {
            Some(WeekDay::Wednesday)
        } else if n == 4 {
            Some(WeekDay::Thursday)
        } else if n == 5 {
            Some(WeekDay::Friday)
        } else if n == 6 {
            Some(WeekDay::Saturday)
        } else if n == 7 {
            Some(WeekDay::Sunday)
        } else {
            None
        }
    }
}

} // verus!
