//! Points in time.

use vstd::prelude::*;

verus! {

/// A point in time with the offset of the clock that it was read from.
#[derive(Clone, Copy, Debug, PartialEq, Eq, Hash, Structural)]
pub struct Timestamp {
    /// The seconds since the first of January 1970, 00:00 UTC.
    pub seconds: i64,
    /// The nanoseconds after that second.
    pub nanoseconds: u32,
    /// The seconds by which the local clock is ahead of UTC.
    pub offset: i32,
}

impl Timestamp {
    /// The seconds since the first of January 1970, 00:00 UTC.
    pub fn timestamp(&self) -> (r: i64)
        ensures
            r == self.seconds,
    {
        self.seconds
    }
}

} // verus!
