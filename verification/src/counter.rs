use vstd::prelude::*;

verus! {

/// A monotonic event counter.
///
/// Mutation goes through `increment`, which demands `&mut` access: Rust's
/// borrow rules therefore give every caller exclusive access for the whole
/// update, so no increment can be lost to an interleaved writer.
pub struct Counter {
    count: u64,
}

impl Counter {
    /// The current count, for use in contracts.
    pub closed spec fn spec_value(&self) -> u64 {
        self.count
    }

    /// A fresh counter starting at zero.
    pub fn new() -> (r: Self)
        ensures
            r.spec_value() == 0,
    {
        Counter { count: 0 }
    }

    /// Advance the count by one.
    pub fn increment(&mut self)
        requires
            old(self).spec_value() < u64::MAX,
        ensures
            final(self).spec_value() == old(self).spec_value() + 1,
    {
        self.count = self.count + 1;
    }

    /// Read the current count.
    pub fn value(&self) -> (r: u64)
        ensures
            r == self.spec_value(),
    {
        self.count
    }
}

} // verus!
