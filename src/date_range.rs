use vstd::prelude::*;

verus! {

/// A span of time between two timestamps; an end of zero leaves it open.
#[derive(Debug, Clone, Copy, Default, PartialEq, Eq, Structural)]
pub struct DateRange {
    pub start_date: u64,
    pub end_date: u64,
}

impl DateRange {
    pub fn new(start_date: u64, end_date: u64) -> (r: Self)
        ensures
            r.start_date == start_date,
            r.end_date == end_date,
    {
        DateRange { start_date, end_date }
    }

    pub fn start_date(&self) -> (r: u64)
        ensures
            r == self.start_date,
    {
        self.start_date
    }

    pub fn end_date(&self) -> (r: u64)
        ensures
            r == self.end_date,
    {
        self.end_date
    }

    /// `date` lies in the range; with an end of zero, anything from the start on.
    pub fn is_within(&self, date: u64) -> (r: bool)
        ensures
            self.end_date == 0 ==> r == (date >= self.start_date),
            self.end_date != 0 ==> r == (self.start_date <= date <= self.end_date),
    {
        if self.end_date == 0 {
            return date >= self.start_date;
        }
        date >= self.start_date && date <= self.end_date
    }

    pub fn is_outside(&self, date: u64) -> (r: bool)
        ensures
            r == (date < self.start_date || date > self.end_date),
    {
        date < self.start_date || date > self.end_date
    }

    pub fn is_before_start_date(&self, date: u64) -> (r: bool)
        ensures
            r == (date < self.start_date),
    {
        date < self.start_date
    }

    pub fn is_after_start_date(&self, date: u64) -> (r: bool)
        ensures
            r == (date > self.start_date),
    {
        date > self.start_date
    }

    pub fn is_before_end_date(&self, date: u64) -> (r: bool)
        ensures
            r == (date < self.end_date),
    {
        date < self.end_date
    }

    pub fn is_after_end_date(&self, date: u64) -> (r: bool)
        ensures
            r == (date > self.end_date),
    {
        date > self.end_date
    }
}

} // verus!
