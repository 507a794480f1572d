use vstd::prelude::*;

verus! {

/// The unit in which the timestamps of written points are given.
#[derive(Clone, Copy, Debug, PartialEq, Eq, Structural, Hash)]
pub enum WritePrecision {
    /// Milliseconds.
    Ms,
    /// Seconds.
    S,
    /// Microseconds.
    Us,
    /// Nanoseconds.
    Ns,
}

} // verus!
