//! Binary layouts of the three kinds of group records and of the group
//! configuration, with their parsers and encoders.

use vstd::bytes::{
    lemma_auto_spec_u64_to_from_le_bytes, spec_u64_from_le_bytes, spec_u64_to_le_bytes,
    u64_from_le_bytes, u64_to_le_bytes,
};
use vstd::prelude::*;
use vstd::slice::slice_subrange;

verus! {

/// Size of a control record: slot id, header floor, 32-byte root.
pub const CONTROL_LEN: usize = 34;

/// Size of the fixed part of a snapshot slot: slot id and two slot numbers.
pub const SNAPSHOT_HEADER_LEN: usize = 17;

/// Size of the fixed part of a committee slot: the period.
pub const COMMITTEE_HEADER_LEN: usize = 8;

/// Size of the group configuration: 32-byte instance id and the ring capacity.
pub const CONFIG_LEN: usize = 33;

/// Bookkeeping record of a group: which ring slot is the latest, and the
/// update policy.
#[derive(Clone, Copy, Debug)]
pub struct ControlRecord {
    pub last_slot_id: u8,
    pub minimal_headers_per_update: u8,
    pub genesis_validators_root: [u8; 32],
}

pub ghost struct ControlView {
    pub last_slot_id: u8,
    pub minimal_headers_per_update: u8,
    pub genesis_validators_root: Seq<u8>,
}

impl View for ControlRecord {
    type V = ControlView;

    open spec fn view(&self) -> ControlView {
        ControlView {
            last_slot_id: self.last_slot_id,
            minimal_headers_per_update: self.minimal_headers_per_update,
            genesis_validators_root: self.genesis_validators_root@,
        }
    }
}

/// One ring position: a remote-chain consensus state with its slot range.
#[derive(Clone, Debug)]
pub struct SnapshotSlot {
    pub slot_id: u8,
    pub minimal_remote_slot: u64,
    pub maximal_remote_slot: u64,
    pub consensus_state: Vec<u8>,
}

pub ghost struct SnapshotView {
    pub slot_id: u8,
    pub minimal_remote_slot: u64,
    pub maximal_remote_slot: u64,
    pub consensus_state: Seq<u8>,
}

impl View for SnapshotSlot {
    type V = SnapshotView;

    open spec fn view(&self) -> SnapshotView {
        SnapshotView {
            slot_id: self.slot_id,
            minimal_remote_slot: self.minimal_remote_slot,
            maximal_remote_slot: self.maximal_remote_slot,
            consensus_state: self.consensus_state@,
        }
    }
}

/// One half of the committee double buffer.
#[derive(Clone, Debug)]
pub struct CommitteeSlot {
    pub period: u64,
    pub committee_commitment: Vec<u8>,
}

pub ghost struct CommitteeView {
    pub period: u64,
    pub committee_commitment: Seq<u8>,
}

impl View for CommitteeSlot {
    type V = CommitteeView;

    open spec fn view(&self) -> CommitteeView {
        CommitteeView { period: self.period, committee_commitment: self.committee_commitment@ }
    }
}

/// Immutable configuration of a group instance, carried by its identifier.
#[derive(Clone, Copy, Debug)]
pub struct GroupConfig {
    pub group_instance_id: [u8; 32],
    pub ring_capacity: u8,
}

pub open spec fn is_control(b: Seq<u8>) -> bool {
    b.len() == CONTROL_LEN
}

pub open spec fn is_snapshot(b: Seq<u8>) -> bool {
    b.len() >= SNAPSHOT_HEADER_LEN
}

pub open spec fn is_committee(b: Seq<u8>) -> bool {
    b.len() >= COMMITTEE_HEADER_LEN
}

pub open spec fn is_config(b: Seq<u8>) -> bool {
    b.len() == CONFIG_LEN
}

pub open spec fn control_of(b: Seq<u8>) -> ControlView {
    ControlView {
        last_slot_id: b[0],
        minimal_headers_per_update: b[1],
        genesis_validators_root: b.subrange(2, 34),
    }
}

pub open spec fn snapshot_of(b: Seq<u8>) -> SnapshotView {
    SnapshotView {
        slot_id: b[0],
        minimal_remote_slot: spec_u64_from_le_bytes(b.subrange(1, 9)),
        maximal_remote_slot: spec_u64_from_le_bytes(b.subrange(9, 17)),
        consensus_state: b.subrange(17, b.len() as int),
    }
}

pub open spec fn committee_of(b: Seq<u8>) -> CommitteeView {
    CommitteeView {
        period: spec_u64_from_le_bytes(b.subrange(0, 8)),
        committee_commitment: b.subrange(8, b.len() as int),
    }
}

/// Ring capacity stated by a group configuration.
pub open spec fn capacity_of(b: Seq<u8>) -> u8 {
    b[32]
}

/// Instance id stated by a group configuration.
pub open spec fn instance_id_of(b: Seq<u8>) -> Seq<u8> {
    b.subrange(0, 32)
}

pub open spec fn control_bytes(c: ControlView) -> Seq<u8> {
    seq![c.last_slot_id, c.minimal_headers_per_update] + c.genesis_validators_root
}

pub open spec fn snapshot_bytes(s: SnapshotView) -> Seq<u8> {
    seq![s.slot_id] + spec_u64_to_le_bytes(s.minimal_remote_slot) + spec_u64_to_le_bytes(
        s.maximal_remote_slot,
    ) + s.consensus_state
}

pub open spec fn committee_bytes(k: CommitteeView) -> Seq<u8> {
    spec_u64_to_le_bytes(k.period) + k.committee_commitment
}

/// A snapshot body placed at another ring position.
pub open spec fn at_slot(s: SnapshotView, id: u8) -> SnapshotView {
    SnapshotView { slot_id: id, ..s }
}

/// Reads eight little-endian bytes starting at `at`.
fn read_u64_le(b: &[u8], at: usize) -> (r: u64)
    requires
        at + 8 <= b@.len(),
    ensures
        r == spec_u64_from_le_bytes(b@.subrange(at as int, at + 8)),
{
    let n = b.len();
    assert(at + 8 <= n);
    let part = slice_subrange(b, at, at + 8);
    u64_from_le_bytes(part)
}

/// Copies `b[from..]` into a new vector.
fn copy_tail(b: &[u8], from: usize) -> (r: Vec<u8>)
    requires
        from <= b@.len(),
    ensures
        r@ == b@.subrange(from as int, b@.len() as int),
{
    let mut r: Vec<u8> = Vec::new();
    let mut i: usize = from;
    while i < b.len()
        invariant
            from <= i <= b@.len(),
            r@ == b@.subrange(from as int, i as int),
        decreases b@.len() - i,
    {
        r.push(b[i]);
        i = i + 1;
    }
    r
}

/// Copies `b[from..from + 32]` into an array.
fn read_hash(b: &[u8], from: usize) -> (r: [u8; 32])
    requires
        from + 32 <= b@.len(),
    ensures
        r@ == b@.subrange(from as int, from + 32),
{
    let n = b.len();
    let mut r: [u8; 32] = [0u8; 32];
    let mut i: usize = 0;
    while i < 32
        invariant
            n == b@.len(),
            from + 32 <= b@.len(),
            i <= 32,
            r@.len() == 32,
            forall|j: int| 0 <= j < i ==> r@[j] == b@[from + j],
        decreases 32 - i,
    {
        r[i] = b[from + i];
        i = i + 1;
    }
    assert(r@ =~= b@.subrange(from as int, from + 32));
    r
}

/// Byte-wise equality of two buffers.
pub fn bytes_equal(a: &[u8], b: &[u8]) -> (r: bool)
    ensures
        r == (a@ == b@),
{
    if a.len() != b.len() {
        return false;
    }
    let mut i: usize = 0;
    while i < a.len()
        invariant
            a@.len() == b@.len(),
            i <= a@.len(),
            forall|j: int| 0 <= j < i ==> a@[j] == b@[j],
        decreases a@.len() - i,
    {
        if a[i] != b[i] {
            return false;
        }
        i = i + 1;
    }
    assert(a@ =~= b@);
    true
}

/// Parses a control record; `None` unless the payload has exactly its size.
pub fn parse_control(b: &[u8]) -> (r: Option<ControlRecord>)
    ensures
        r.is_some() == is_control(b@),
        r matches Some(c) ==> c@ == control_of(b@),
{
    if b.len() != CONTROL_LEN {
        return None;
    }
    Some(
        ControlRecord {
            last_slot_id: b[0],
            minimal_headers_per_update: b[1],
            genesis_validators_root: read_hash(b, 2),
        },
    )
}

/// Parses a snapshot slot; `None` when the payload is shorter than its fixed part.
pub fn parse_snapshot(b: &[u8]) -> (r: Option<SnapshotSlot>)
    ensures
        r.is_some() == is_snapshot(b@),
        r matches Some(s) ==> s@ == snapshot_of(b@),
{
    if b.len() < SNAPSHOT_HEADER_LEN {
        return None;
    }
    Some(
        SnapshotSlot {
            slot_id: b[0],
            minimal_remote_slot: read_u64_le(b, 1),
            maximal_remote_slot: read_u64_le(b, 9),
            consensus_state: copy_tail(b, 17),
        },
    )
}

/// Parses a committee slot; `None` when the payload is shorter than its fixed part.
pub fn parse_committee(b: &[u8]) -> (r: Option<CommitteeSlot>)
    ensures
        r.is_some() == is_committee(b@),
        r matches Some(k) ==> k@ == committee_of(b@),
{
    if b.len() < COMMITTEE_HEADER_LEN {
        return None;
    }
    Some(CommitteeSlot { period: read_u64_le(b, 0), committee_commitment: copy_tail(b, 8) })
}

/// Parses a group configuration; `None` unless the payload has exactly its size.
pub fn parse_config(b: &[u8]) -> (r: Option<GroupConfig>)
    ensures
        r.is_some() == is_config(b@),
        r matches Some(g) ==> g.group_instance_id@ == instance_id_of(b@) && g.ring_capacity
            == capacity_of(b@),
{
    if b.len() != CONFIG_LEN {
        return None;
    }
    Some(GroupConfig { group_instance_id: read_hash(b, 0), ring_capacity: b[32] })
}

/// Appends the bytes of `tail` to `out`.
fn append(out: &mut Vec<u8>, tail: &[u8])
    ensures
        final(out)@ == old(out)@ + tail@,
{
    let mut i: usize = 0;
    while i < tail.len()
        invariant
            i <= tail@.len(),
            out@ == old(out)@ + tail@.subrange(0, i as int),
        decreases tail@.len() - i,
    {
        out.push(tail[i]);
        i = i + 1;
    }
    assert(tail@.subrange(0, tail@.len() as int) =~= tail@);
}

impl ControlRecord {
    pub fn encode(&self) -> (r: Vec<u8>)
        ensures
            r@ == control_bytes(self@),
    {
        let mut r: Vec<u8> = Vec::new();
        r.push(self.last_slot_id);
        r.push(self.minimal_headers_per_update);
        append(&mut r, &self.genesis_validators_root);
        assert(r@ =~= control_bytes(self@));
        r
    }
}

impl SnapshotSlot {
    pub fn encode(&self) -> (r: Vec<u8>)
        ensures
            r@ == snapshot_bytes(self@),
    {
        let mut r: Vec<u8> = Vec::new();
        r.push(self.slot_id);
        let min = u64_to_le_bytes(self.minimal_remote_slot);
        append(&mut r, min.as_slice());
        let max = u64_to_le_bytes(self.maximal_remote_slot);
        append(&mut r, max.as_slice());
        append(&mut r, self.consensus_state.as_slice());
        assert(r@ =~= snapshot_bytes(self@));
        r
    }

    /// The same body placed at ring position `id`.
    pub fn with_slot_id(&self, id: u8) -> (r: SnapshotSlot)
        ensures
            r@ == at_slot(self@, id),
    {
        SnapshotSlot {
            slot_id: id,
            minimal_remote_slot: self.minimal_remote_slot,
            maximal_remote_slot: self.maximal_remote_slot,
            consensus_state: self.consensus_state.clone(),
        }
    }
}

impl CommitteeSlot {
    pub fn encode(&self) -> (r: Vec<u8>)
        ensures
            r@ == committee_bytes(self@),
    {
        let mut r = u64_to_le_bytes(self.period);
        append(&mut r, self.committee_commitment.as_slice());
        r
    }
}

/// Decoding an encoded committee slot gives it back.
pub proof fn lemma_committee_round_trip(k: CommitteeView)
    ensures
        is_committee(committee_bytes(k)),
        committee_of(committee_bytes(k)) == k,
{
    lemma_auto_spec_u64_to_from_le_bytes();
    let b = committee_bytes(k);
    assert(b.subrange(0, 8) =~= spec_u64_to_le_bytes(k.period));
    assert(b.subrange(8, b.len() as int) =~= k.committee_commitment);
}

/// Decoding an encoded snapshot slot gives it back.
pub proof fn lemma_snapshot_round_trip(s: SnapshotView)
    ensures
        is_snapshot(snapshot_bytes(s)),
        snapshot_of(snapshot_bytes(s)) == s,
{
    lemma_auto_spec_u64_to_from_le_bytes();
    let b = snapshot_bytes(s);
    assert(b.subrange(1, 9) =~= spec_u64_to_le_bytes(s.minimal_remote_slot));
    assert(b.subrange(9, 17) =~= spec_u64_to_le_bytes(s.maximal_remote_slot));
    assert(b.subrange(17, b.len() as int) =~= s.consensus_state);
}

} // verus!
