//! The metadata that the layer keeps between builds.

use vstd::prelude::*;

verus! {

/// The two counters of the layer, as they stand after a build.
#[derive(Clone, Copy, Debug, PartialEq, Eq, Structural)]
pub struct CountingMetadata {
    pub counter_u64: u64,
    pub counter_i32: i32,
}

impl CountingMetadata {
    /// The metadata of a layer that has just been created: both counters at one.
    pub open spec fn fresh() -> CountingMetadata {
        CountingMetadata { counter_u64: 1, counter_i32: 1 }
    }

    /// Both counters stand at `n`.
    pub open spec fn counts(self, n: int) -> bool {
        self.counter_u64 == n && self.counter_i32 == n
    }

    /// Each counter can take one more build without leaving its type.
    pub open spec fn can_advance(self) -> bool {
        self.counter_u64 < u64::MAX && self.counter_i32 < i32::MAX
    }

    /// The metadata after one more build: each counter one higher.
    pub open spec fn advanced(self) -> CountingMetadata
        recommends
            self.can_advance(),
    {
        CountingMetadata {
            counter_u64: (self.counter_u64 + 1) as u64,
            counter_i32: (self.counter_i32 + 1) as i32,
        }
    }
}

} // verus!
