//! How far the consumer has got.

use crate::lsn::Lsn;
use vstd::prelude::*;

verus! {

/// The later of two positions.
pub open spec fn later(a: Lsn, b: Lsn) -> Lsn {
    if a.0 < b.0 {
        b
    } else {
        a
    }
}

/// The position to report to the server once the consumer has applied everything
/// up to `lsn`, where `applied` was reported before: the position never goes back.
pub fn update_applied(applied: Lsn, lsn: Lsn) -> (now: Lsn)
    ensures
        now == later(applied, lsn),
{
    if applied.0 < lsn.0 {
        lsn
    } else {
        applied
    }
}

/// The position after all of `updates`.
pub open spec fn applied_after(start: Lsn, updates: Seq<Lsn>) -> Lsn
    decreases updates.len(),
{
    if updates.len() == 0 {
        start
    } else {
        later(applied_after(start, updates.drop_last()), updates.last())
    }
}

/// The reported position is monotonic: whatever the updates and their order, it is
/// the furthest of the start and the updates, so that no update takes it back.
pub proof fn law_applied_is_furthest(start: Lsn, updates: Seq<Lsn>)
    ensures
        start.0 <= applied_after(start, updates).0,
        forall|i: int|
            0 <= i < updates.len() ==> (#[trigger] updates[i]).0 <= applied_after(start, updates).0,
        applied_after(start, updates) == start || exists|i: int|
            0 <= i < updates.len() && #[trigger] updates[i] == applied_after(start, updates),
    decreases updates.len(),
{
    if updates.len() > 0 {
        let earlier = updates.drop_last();
        let last = updates.len() - 1;
        law_applied_is_furthest(start, earlier);
        assert(updates[last] == updates.last());
        assert forall|i: int| 0 <= i < updates.len() implies (#[trigger] updates[i]).0
            <= applied_after(start, updates).0 by {
            if i < last {
                assert(updates[i] == earlier[i]);
            }
        }
        if applied_after(start, updates) != start && applied_after(start, updates)
            != updates.last() {
            let i = choose|i: int|
                0 <= i < earlier.len() && #[trigger] earlier[i] == applied_after(start, earlier);
            assert(updates[i] == earlier[i]);
        }
    }
}

} // verus!
