//! A birthday and the age it implies at a given calendar date. The age rule
//! reads only the year, month and day of the two dates, so those are what a
//! date holds here; obtaining such a date from a wall clock or a parsed
//! timestamp is a caller's concern.

use vstd::prelude::*;

verus! {

/// A calendar date as plain year, month and day numbers.
#[derive(Debug, Clone, Copy, PartialEq, Eq, Structural)]
pub struct CalendarDate {
    pub year: i32,
    pub month: u8,
    pub day: u8,
}

impl CalendarDate {
    /// Well-formedness: month and day are in calendar range, and the year is
    /// within the span this library works with (generous around any date a
    /// wall clock or timestamp can produce), which keeps year arithmetic
    /// exact.
    pub open spec fn wf(self) -> bool {
        &&& 1 <= self.month <= 12
        &&& 1 <= self.day <= 31
        &&& -1000000 <= self.year <= 1000000
    }

    /// Build a date from its parts, rejecting out-of-range ones.
    pub fn new(year: i32, month: u8, day: u8) -> (r: Option<CalendarDate>)
        ensures
            r is Some <==> (CalendarDate { year, month, day }).wf(),
            r is Some ==> r->0 == (CalendarDate { year, month, day }),
    {
        if 1 <= month && month <= 12 && 1 <= day && day <= 31 && -1000000 <= year && year
            <= 1000000 {
            Some(CalendarDate { year, month, day })
        } else {
            None
        }
    }
}

/// The age on `now` of somebody born on `born`: the year difference, less
/// one when the birthday has not yet been reached in `now`'s year.
pub open spec fn spec_age(born: CalendarDate, now: CalendarDate) -> int {
    if now.month < born.month || (now.month == born.month && now.day < born.day) {
        now.year - born.year - 1
    } else {
        now.year - born.year
    }
}

/// A date of birth.
#[derive(Debug, Clone, Copy, PartialEq, Eq, Structural)]
pub struct Birthday {
    value: CalendarDate,
}

impl Birthday {
    pub closed spec fn spec_value(self) -> CalendarDate {
        self.value
    }

    pub fn new(value: CalendarDate) -> (r: Birthday)
        ensures
            r.spec_value() == value,
    {
        Birthday { value }
    }

    /// The age this birthday implies at the date `now`.
    pub fn get_age(&self, now: CalendarDate) -> (r: i32)
        requires
            self.spec_value().wf(),
            now.wf(),
        ensures
            r == spec_age(self.spec_value(), now),
    {
        let age: i32 = now.year - self.value.year;
        let birthday_not_reached = now.month < self.value.month || (now.month == self.value.month
            && now.day < self.value.day);
        if birthday_not_reached {
            age - 1
        } else {
            age
        }
    }

    /// The wrapped date of birth.
    pub fn get_value(&self) -> (r: CalendarDate)
        ensures
            r == self.spec_value(),
    {
        self.value
    }
}

} // verus!
