//! What the page shows of a result slot.

use crate::loader::{FetchResult, FetchState};
use crate::record::Record;
use vstd::prelude::*;

verus! {

/// The texts of the lines for a list of records: the game series of each,
/// in the order of the list.
pub open spec fn line_texts(records: Seq<Record>) -> Seq<Seq<char>> {
    Seq::new(records.len(), |i: int| records[i].game_series)
}

/// The texts of the lines that a slot is shown as: one per record once the
/// slot is ready, none while it is pending and none after a failure.
pub open spec fn shown(state: FetchState) -> Seq<Seq<char>> {
    match state {
        FetchState::Ready(records) => line_texts(records),
        _ => Seq::empty(),
    }
}

/// The lines to show for `slot`.
pub fn list_items(slot: &FetchResult) -> (r: Vec<String>)
    ensures
        r.deep_view() == shown(slot@),
        r@.len() == shown(slot@).len(),
{
    let mut lines: Vec<String> = Vec::new();
    match slot {
        FetchResult::Ready(records) => {
            let mut i: usize = 0;
            while i < records.len()
                invariant
                    i <= records.len(),
                    lines@.len() == i,
                    forall|k: int| 0 <= k < i ==> (#[trigger] lines@[k])@ == records@[k].game_series@,
                decreases records.len() - i,
            {
                lines.push(records[i].game_series.clone());
                i += 1;
            }
            assert(lines.deep_view() =~= line_texts(records.deep_view()));
        },
        _ => {
            assert(lines.deep_view() =~= Seq::<Seq<char>>::empty());
        },
    }
    lines
}

} // verus!
