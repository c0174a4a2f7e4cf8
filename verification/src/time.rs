use vstd::prelude::*;

verus! {

/// A moment as seconds since the Unix epoch (UTC) and the nanoseconds within that second.
pub type Moment = (i64, u32);

/// A time of day as seconds since midnight and the nanoseconds within that second.
pub type TimeOfDay = (u32, u32);

/// A calendar day as the number of days since 0001-01-01, that day counting as 1.
pub type Day = i32;

} // verus!
