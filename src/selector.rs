//! Locating records by role.
//!
//! A record's role is not tagged: it is found by trying the layouts in a
//! fixed order, control, then snapshot, then committee. Within one set,
//! records are visited in their positional order, and each takes the first
//! role in that order that is still wanted, not yet taken, and whose layout
//! accepts its payload. A role that no record takes makes the enclosing
//! check fail.

use crate::records::{is_committee, is_control, is_snapshot};
use vstd::prelude::*;

verus! {

/// One record of a group as it stands in a transition: its position in the
/// set it belongs to, its payload, and the proof attached to it, if any.
#[derive(Clone, Debug)]
pub struct GroupRecord {
    pub index: usize,
    pub data: Vec<u8>,
    pub proof: Option<Vec<u8>>,
}

/// The roles that a selection looks for.
#[derive(Clone, Copy, Debug)]
pub struct Wanted {
    pub control: bool,
    pub snapshot: bool,
    pub committee: bool,
}

/// The position, within the searched set, of the record that took each role.
#[derive(Clone, Copy, Debug)]
pub struct Selection {
    pub control_at: Option<usize>,
    pub snapshot_at: Option<usize>,
    pub committee_at: Option<usize>,
}

pub open spec fn payloads(recs: Seq<GroupRecord>) -> Seq<Seq<u8>> {
    Seq::new(recs.len(), |i: int| recs[i].data@)
}

pub open spec fn no_selection() -> Selection {
    Selection { control_at: None, snapshot_at: None, committee_at: None }
}

/// The selection after the record `b`, at position `at`, has been visited.
pub open spec fn assign(prev: Selection, b: Seq<u8>, at: usize, want: Wanted) -> Selection {
    if want.control && prev.control_at is None && is_control(b) {
        Selection { control_at: Some(at), ..prev }
    } else if want.snapshot && prev.snapshot_at is None && is_snapshot(b) {
        Selection { snapshot_at: Some(at), ..prev }
    } else if want.committee && prev.committee_at is None && is_committee(b) {
        Selection { committee_at: Some(at), ..prev }
    } else {
        prev
    }
}

/// The selection made over the payloads `recs`, in order.
pub open spec fn select(recs: Seq<Seq<u8>>, want: Wanted) -> Selection
    decreases recs.len(),
{
    if recs.len() == 0 {
        no_selection()
    } else {
        assign(select(recs.drop_last(), want), recs.last(), (recs.len() - 1) as usize, want)
    }
}

/// Every role that a selection fills is wanted and filled by a record whose
/// layout accepts it.
pub open spec fn selection_sound(recs: Seq<Seq<u8>>, want: Wanted, s: Selection) -> bool {
    &&& (s.control_at matches Some(i) ==> want.control && i < recs.len() && is_control(recs[i as int]))
    &&& (s.snapshot_at matches Some(i) ==> want.snapshot && i < recs.len() && is_snapshot(recs[i as int]))
    &&& (s.committee_at matches Some(i) ==> want.committee && i < recs.len() && is_committee(recs[i as int]))
}

pub proof fn lemma_select_sound(recs: Seq<Seq<u8>>, want: Wanted)
    requires
        recs.len() <= usize::MAX,
    ensures
        selection_sound(recs, want, select(recs, want)),
    decreases recs.len(),
{
    if recs.len() > 0 {
        let prefix = recs.drop_last();
        lemma_select_sound(prefix, want);
        assert forall|i: int| 0 <= i < prefix.len() implies prefix[i] == recs[i] by {}
    }
}

/// Assigns roles to the records of `recs`, as `select` describes.
pub fn select_roles(recs: &Vec<GroupRecord>, want: Wanted) -> (r: Selection)
    ensures
        r == select(payloads(recs@), want),
        selection_sound(payloads(recs@), want, r),
{
    let ghost all = payloads(recs@);
    let mut s = Selection { control_at: None, snapshot_at: None, committee_at: None };
    let mut i: usize = 0;
    while i < recs.len()
        invariant
            i <= recs@.len(),
            all == payloads(recs@),
            s == select(all.take(i as int), want),
        decreases recs@.len() - i,
    {
        let b = &recs[i].data;
        assert(all.take(i + 1).drop_last() =~= all.take(i as int));
        if want.control && s.control_at.is_none() && b.len() == crate::records::CONTROL_LEN {
            s = Selection { control_at: Some(i), ..s };
        } else if want.snapshot && s.snapshot_at.is_none() && b.len()
            >= crate::records::SNAPSHOT_HEADER_LEN {
            s = Selection { snapshot_at: Some(i), ..s };
        } else if want.committee && s.committee_at.is_none() && b.len()
            >= crate::records::COMMITTEE_HEADER_LEN {
            s = Selection { committee_at: Some(i), ..s };
        }
        i = i + 1;
    }
    assert(all.take(i as int) =~= all);
    proof {
        lemma_select_sound(all, want);
    }
    s
}

} // verus!
