//! Half-open UTC intervals and the overlap test between them.
use vstd::prelude::*;

verus! {

/// A UTC range `[start, end)` during which a business is already committed.
#[derive(Clone, Copy, Debug, PartialEq, Eq, Structural)]
pub struct BusyInterval {
    pub start: i64,
    pub end: i64,
}

/// A tentative bookable interval: its wall-clock bounds in the zone of the
/// rule it came from, and the UTC instants they stand for.
#[derive(Clone, Copy, Debug, PartialEq, Eq, Structural)]
pub struct CandidateSlot {
    pub local_start: i64,
    pub local_end: i64,
    pub start: i64,
    pub end: i64,
}

/// Two half-open intervals intersect when each starts before the other ends.
pub open spec fn overlaps(busy: BusyInterval, start: int, end: int) -> bool {
    busy.start < end && busy.end > start
}

/// Whether `[start, end)` meets any interval of `busy`.
pub open spec fn clashes(busy: Seq<BusyInterval>, start: int, end: int) -> bool {
    exists|k: int| 0 <= k < busy.len() && #[trigger] overlaps(busy[k], start, end)
}

/// Whether the busy interval `busy` intersects the half-open `[start, end)`.
pub fn intervals_overlap(busy: &BusyInterval, start: i64, end: i64) -> (r: bool)
    ensures
        r == overlaps(*busy, start as int, end as int),
{
    busy.start < end && busy.end > start
}

/// Whether `[start, end)` intersects any interval of `busy`.
pub fn clashes_with_any(busy: &Vec<BusyInterval>, start: i64, end: i64) -> (r: bool)
    ensures
        r == clashes(busy@, start as int, end as int),
{
    let mut k: usize = 0;
    while k < busy.len()
        invariant
            k <= busy@.len(),
            forall|j: int| 0 <= j < k ==> !#[trigger] overlaps(busy@[j], start as int, end as int),
        decreases busy@.len() - k,
    {
        if intervals_overlap(&busy[k], start, end) {
            return true;
        }
        k = k + 1;
    }
    false
}

} // verus!
