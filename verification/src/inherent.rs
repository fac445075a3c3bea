//! The inherent-data assembler.
//!
//! An [`InherentBundle`] is the ordered set of facts a block author embeds
//! before proposing a block: wall-clock time first, then the relay-backed or
//! mocked relay entry when one applies, then any authorship-specific entry.
//! A bundle is constructed fresh per authoring attempt and consumed exactly
//! once by the authoring pipeline.

use vstd::prelude::*;
use crate::errors::RoundError;
use crate::mock_relay::MockRelayChannel;

verus! {

/// A proof-backed validation-data record obtained from the relay layer for
/// a given parent block.
#[derive(Clone, Debug, PartialEq, Eq)]
pub struct ValidationProof {
    /// The relay block the proof anchors against.
    pub relay_parent_number: u32,
    /// The relay storage root the proof is taken under.
    pub relay_state_root: Vec<u8>,
    /// The head data of the parent the proof validates on top of.
    pub parent_head: Vec<u8>,
}

/// A synthetic validation-data record used when no relay chain exists to
/// anchor against: every offset and ordinal field is zeroed, and the two
/// message lists carry whatever the mock relay channel held at drain time.
#[derive(Clone, Debug, PartialEq, Eq)]
pub struct MockValidationData {
    pub current_para_block: u32,
    pub relay_offset: u32,
    pub relay_blocks_per_para_block: u32,
    pub raw_downward_messages: Vec<Vec<u8>>,
    pub raw_horizontal_messages: Vec<(u32, Vec<u8>)>,
}

impl MockValidationData {
    /// A synthetic record anchors against nothing: its offset and ordinal
    /// fields are all zero.
    pub open spec fn zero_anchored(self) -> bool {
        &&& self.current_para_block == 0
        &&& self.relay_offset == 0
        &&& self.relay_blocks_per_para_block == 0
    }
}

/// One inherent entry; the kind identifier is determined by the payload.
#[derive(Clone, Debug, PartialEq, Eq)]
pub enum InherentEntry {
    /// Current wall-clock time, in milliseconds.
    Time(u64),
    /// The proof-backed relay entry of the relay-backed modes.
    RelayProof(ValidationProof),
    /// The synthetic relay entry of the standalone development mode.
    MockRelay(MockValidationData),
    /// The authorship entry consumed by the authoring pipeline's signer.
    Authorship,
}

impl InherentEntry {
    /// Whether this entry carries relay-originated data, real or mocked.
    pub open spec fn is_relay_entry(self) -> bool {
        self is RelayProof || self is MockRelay
    }
}

/// The ordered inherent facts for one authoring attempt.
#[derive(Clone, Debug, PartialEq, Eq)]
pub struct InherentBundle {
    pub entries: Vec<InherentEntry>,
}

impl InherentBundle {
    /// The ordering every successfully produced bundle obeys: the time entry
    /// is present and first, and the relay or mock entry, when present, is
    /// unique and stands immediately after it.
    pub open spec fn well_ordered(self) -> bool {
        &&& self.entries@.len() >= 1
        &&& self.entries@[0] is Time
        &&& forall|i: int| 1 <= i < self.entries@.len() ==> !(#[trigger] self.entries@[i] is Time)
        &&& forall|i: int|
            0 <= i < self.entries@.len() && (#[trigger] self.entries@[i]).is_relay_entry() ==> i == 1
    }

    /// The wall-clock entry of a well-ordered bundle.
    pub open spec fn time_of(self) -> u64
        recommends
            self.well_ordered(),
    {
        self.entries@[0]->Time_0
    }
}

/// Assembles the inherent bundle of a relay-backed authoring attempt:
/// time, then the proof-backed relay entry, then the authorship entry.
/// When the relay proof could not be produced for the parent, the attempt
/// fails recoverably and no bundle is made.
pub fn assemble_relay_bundle(now: u64, relay_proof: Option<ValidationProof>) -> (r: Result<
    InherentBundle,
    RoundError,
>)
    ensures
        r is Ok <==> relay_proof is Some,
        relay_proof is None ==> r == Result::<InherentBundle, RoundError>::Err(
            RoundError::InherentUnavailable,
        ),
        r matches Ok(b) ==> {
            &&& b.entries@ =~= seq![
                InherentEntry::Time(now),
                InherentEntry::RelayProof(relay_proof->0),
                InherentEntry::Authorship,
            ]
            &&& b.well_ordered()
            &&& b.time_of() == now
        },
{
    match relay_proof {
        None => Err(RoundError::InherentUnavailable),
        Some(p) => {
            let mut entries: Vec<InherentEntry> = Vec::new();
            entries.push(InherentEntry::Time(now));
            entries.push(InherentEntry::RelayProof(p));
            entries.push(InherentEntry::Authorship);
            let b = InherentBundle { entries };
            proof {
                assert(b.well_ordered());
            }
            Ok(b)
        },
    }
}

/// Assembles the inherent bundle of a standalone-development authoring
/// attempt: time, then a synthetic validation-data record with all offset
/// and ordinal fields zeroed, carrying everything the mock relay channel
/// held. Both mock queues are drained atomically and left empty. This path
/// cannot fail: there is no relay layer to be unavailable.
pub fn assemble_mock_bundle(now: u64, channel: &mut MockRelayChannel) -> (r: InherentBundle)
    requires
        old(channel).wf(),
    ensures
        final(channel).wf(),
        final(channel).bound() == old(channel).bound(),
        final(channel).pending_downward() == Seq::<Seq<u8>>::empty(),
        final(channel).pending_horizontal() == Seq::<(u32, Seq<u8>)>::empty(),
        r.well_ordered(),
        r.time_of() == now,
        r.entries@.len() == 2,
        r.entries@[0] == InherentEntry::Time(now),
        r.entries@[1] matches InherentEntry::MockRelay(m) && {
            &&& m.zero_anchored()
            &&& m.raw_downward_messages@.map_values(|v: Vec<u8>| v@) == old(
                channel,
            ).pending_downward()
            &&& m.raw_horizontal_messages@.map_values(|v: (u32, Vec<u8>)| (v.0, v.1@)) == old(
                channel,
            ).pending_horizontal()
        },
{
    let raw_downward_messages = channel.drain_downward();
    let raw_horizontal_messages = channel.drain_horizontal();
    let mocked = MockValidationData {
        current_para_block: 0,
        relay_offset: 0,
        relay_blocks_per_para_block: 0,
        raw_downward_messages,
        raw_horizontal_messages,
    };
    let mut entries: Vec<InherentEntry> = Vec::new();
    entries.push(InherentEntry::Time(now));
    entries.push(InherentEntry::MockRelay(mocked));
    let b = InherentBundle { entries };
    proof {
        assert(b.well_ordered());
    }
    b
}

/// In every successfully produced bundle the time entry is present, stands
/// first, and precedes the relay or mock entry whenever one is present.
pub proof fn lemma_time_precedes_relay_entry(b: InherentBundle)
    requires
        b.well_ordered(),
    ensures
        b.entries@.len() >= 1,
        b.entries@[0] is Time,
        forall|i: int|
            0 <= i < b.entries@.len() && (#[trigger] b.entries@[i]).is_relay_entry() ==> 0 < i,
{
}

} // verus!
