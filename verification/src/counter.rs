//! Tutorial counter module: a stand-alone account holding one integer.
//!
//! The counter is unrelated to the issuance pipeline; it models the
//! simplest possible ledger account, created at zero and incremented by
//! one per instruction.

use vstd::prelude::*;

verus! {

/// On-ledger record for the counter module: a single unsigned count.
pub struct Counter {
    pub count: u64,
}

/// Create a fresh counter account. Newly allocated ledger storage is
/// zeroed, so the count starts at zero.
pub fn initialize() -> (c: Counter)
    ensures
        c.count == 0,
{
    Counter { count: 0 }
}

/// Add one to the counter. The instruction aborts on a full counter
/// rather than wrapping, so a caller must not pass a saturated one.
pub fn increment(counter: &mut Counter)
    requires
        old(counter).count < u64::MAX,
    ensures
        final(counter).count == old(counter).count + 1,
{
    counter.count = counter.count + 1;
}

} // verus!
