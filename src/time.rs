use vstd::prelude::*;

verus! {

/// A count of 100-nanosecond intervals, split in two 32-bit halves.
#[derive(Clone, Copy, Debug, PartialEq, Eq, Structural)]
pub struct FileTime {
    pub low_date_time: u32,
    pub high_date_time: u32,
}

/// A calendar date and time, each part a 16-bit field.
#[derive(Clone, Copy, Debug, PartialEq, Eq, Structural)]
pub struct SystemTime {
    pub year: u16,
    pub month: u16,
    pub day_of_week: u16,
    pub day: u16,
    pub hour: u16,
    pub minute: u16,
    pub second: u16,
    pub milliseconds: u16,
}

impl FileTime {
    /// The whole interval count.
    pub fn ticks(&self) -> (r: u64)
        ensures
            r == self.low_date_time + 4294967296 * self.high_date_time,
    {
        self.low_date_time as u64 + 4294967296 * (self.high_date_time as u64)
    }
}

} // verus!
