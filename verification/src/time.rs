//! Instants in UTC, as the library stores them.
use vstd::prelude::*;

verus! {

/// An instant: seconds since the Unix epoch and the nanoseconds within that
/// second.
#[derive(Debug, Clone, Copy, PartialEq, Eq, Structural)]
pub struct UtcTime {
    pub secs: i64,
    pub nanos: u32,
}

} // verus!
