//! How compactions are counted towards a configured threshold.

use vstd::prelude::*;

verus! {

/// Whether a configured threshold asks for hand-offs at all.
pub open spec fn is_enabled(threshold: Option<u32>) -> bool {
    threshold is Some && threshold->0 > 0
}

/// The count after one more compaction; it stops at the largest number.
pub open spec fn counted(count: u32) -> u32 {
    if count < u32::MAX {
        (count + 1) as u32
    } else {
        u32::MAX
    }
}

/// A threshold asks for hand-offs exactly when it is set to a number other than zero.
pub proof fn law_enabled(threshold: u32)
    ensures
        is_enabled(Some(threshold)) <==> threshold != 0,
        !is_enabled(None),
{
}

/// Every compaction raises the count by one, until the largest number is reached.
pub proof fn law_counted(count: u32)
    ensures
        count < u32::MAX ==> counted(count) - count == 1,
        count == u32::MAX ==> counted(count) == count,
{
}

} // verus!
