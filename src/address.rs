use vstd::prelude::*;
use vstd::bytes::{spec_u64_to_le_bytes, u64_to_le_bytes};
use crate::identity::Identity;

verus! {

/// Which record an address is for.
#[derive(Clone, Copy, Debug)]
pub enum RecordKey {
    /// The organization record, of which there is one.
    DaoState,
    /// The proposal with this id.
    Proposal { id: u64 },
    /// The ballot of `voter` on the proposal stored at `proposal_address`.
    Vote { proposal_address: Identity, voter: Identity },
}

/// Namespace tag of the organization record: the ASCII text `dao-state`.
pub open spec fn dao_state_tag() -> Seq<u8> {
    seq![100u8, 97u8, 111u8, 45u8, 115u8, 116u8, 97u8, 116u8, 101u8]
}

/// Namespace tag of proposal records: the ASCII text `proposal`.
pub open spec fn proposal_tag() -> Seq<u8> {
    seq![112u8, 114u8, 111u8, 112u8, 111u8, 115u8, 97u8, 108u8]
}

/// Namespace tag of ballots: the ASCII text `vote`.
pub open spec fn vote_tag() -> Seq<u8> {
    seq![118u8, 111u8, 116u8, 101u8]
}

/// The seeds from which a record's address is derived: its namespace tag,
/// then the fields that identify it.
pub open spec fn record_seeds(key: RecordKey) -> Seq<Seq<u8>> {
    match key {
        RecordKey::DaoState => seq![dao_state_tag()],
        RecordKey::Proposal { id } => seq![proposal_tag(), spec_u64_to_le_bytes(id)],
        RecordKey::Vote { proposal_address, voter } => seq![
            vote_tag(),
            proposal_address.bytes@,
            voter.bytes@,
        ],
    }
}

/// Whether two keys name the same record.
pub open spec fn same_record(a: RecordKey, b: RecordKey) -> bool {
    match (a, b) {
        (RecordKey::DaoState, RecordKey::DaoState) => true,
        (RecordKey::Proposal { id: x }, RecordKey::Proposal { id: y }) => x == y,
        (
            RecordKey::Vote { proposal_address: p, voter: v },
            RecordKey::Vote { proposal_address: q, voter: w },
        ) => p.same(q) && v.same(w),
        _ => false,
    }
}

/// Builds the seeds of a record's address.
pub fn seeds(key: &RecordKey) -> (r: Vec<Vec<u8>>)
    ensures
        r.deep_view() == record_seeds(*key),
{
    let mut r: Vec<Vec<u8>> = Vec::new();
    match key {
        RecordKey::DaoState => {
            let tag = vec![100u8, 97u8, 111u8, 45u8, 115u8, 116u8, 97u8, 116u8, 101u8];
            assert(tag@ =~= dao_state_tag());
            r.push(tag);
            assert(r.deep_view()[0] =~= dao_state_tag());
        },
        RecordKey::Proposal { id } => {
            let tag = vec![112u8, 114u8, 111u8, 112u8, 111u8, 115u8, 97u8, 108u8];
            assert(tag@ =~= proposal_tag());
            r.push(tag);
            r.push(u64_to_le_bytes(*id));
            assert(r.deep_view()[0] =~= proposal_tag());
            assert(r.deep_view()[1] =~= spec_u64_to_le_bytes(*id));
        },
        RecordKey::Vote { proposal_address, voter } => {
            let tag = vec![118u8, 111u8, 116u8, 101u8];
            assert(tag@ =~= vote_tag());
            r.push(tag);
            r.push(vstd::slice::slice_to_vec(proposal_address.bytes.as_slice()));
            r.push(vstd::slice::slice_to_vec(voter.bytes.as_slice()));
            assert(r.deep_view()[0] =~= vote_tag());
            assert(r.deep_view()[1] =~= proposal_address.bytes@);
            assert(r.deep_view()[2] =~= voter.bytes@);
        },
    }
    assert(r.deep_view() =~= record_seeds(*key));
    r
}

/// Addresses do not collide: two keys with the same seeds name the same
/// record.
pub proof fn lemma_seeds_identify_record(a: RecordKey, b: RecordKey)
    requires
        record_seeds(a) == record_seeds(b),
    ensures
        same_record(a, b),
{
    vstd::bytes::lemma_auto_spec_u64_to_from_le_bytes();
    let sa = record_seeds(a);
    let sb = record_seeds(b);
    assert(sa.len() == sb.len());
    assert(sa[0] == sb[0]);
    match (a, b) {
        (RecordKey::Proposal { id: x }, RecordKey::Proposal { id: y }) => {
            assert(sa[1] == sb[1]);
        },
        (
            RecordKey::Vote { proposal_address: p, voter: v },
            RecordKey::Vote { proposal_address: q, voter: w },
        ) => {
            assert(sa[1] == sb[1]);
            assert(sa[2] == sb[2]);
        },
        _ => {},
    }
}

} // verus!
