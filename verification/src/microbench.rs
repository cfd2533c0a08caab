use vstd::prelude::*;

verus! {

/// A stopwatch that counts processor cycles from a reading of the time-stamp
/// counter.
#[derive(Clone, Copy, Debug, PartialEq, Eq, Structural)]
pub struct MicroBench {
    pub start: u64,
}

impl MicroBench {
    /// Starts counting at the counter reading `stamp`.
    pub fn now(stamp: u64) -> (b: MicroBench)
        ensures
            b.start == stamp,
    {
        MicroBench { start: stamp }
    }

    /// Cycles between the start and the counter reading `stamp`.
    pub fn elapsed(&self, stamp: u64) -> (cycles: u64)
        requires
            self.start <= stamp,
        ensures
            cycles == stamp - self.start,
    {
        stamp - self.start
    }
}

} // verus!
