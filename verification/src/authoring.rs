//! The authoring loops of the two authoring strategies.
//!
//! Within one authoring attempt, inherent-data assembly strictly precedes
//! proposal, proposal precedes import, and import precedes announcement.
//! Every per-round failure is recoverable: the round is skipped, the loop
//! stays running, and the next trigger attempts the next round on a strictly
//! later parent reference. The outside work of a round (relay round-trips,
//! proposing over the transaction pool, importing) suspends on I/O; its
//! outcomes arrive here as one plain event per round, and these functions
//! are the verified decision layer that turns an event into the round's
//! result and the loop's next state.

use vstd::prelude::*;
use crate::errors::RoundError;
use crate::inherent::{
    assemble_mock_bundle, assemble_relay_bundle, InherentBundle, ValidationProof,
};
use crate::mock_relay::MockRelayChannel;
use crate::relay::RelayFetch;

verus! {

/// What the outside collaborators reported for one collator round, in the
/// order the phases run.
#[derive(Clone, Debug, PartialEq, Eq)]
pub struct CollatorRoundEvent {
    /// Wall-clock time at the start of the attempt, in milliseconds.
    pub now: u64,
    /// What the relay round-trip for the parent's validation data returned.
    pub relay_fetch: RelayFetch<ValidationProof>,
    /// The proposer produced a block within its allotted time.
    pub proposal_completed: bool,
    /// The locally produced block passed validation on import.
    pub import_accepted: bool,
}

/// How one round ended: a block was authored, imported and handed out for
/// announcement, or the round was skipped for a recoverable reason.
#[derive(Clone, Debug, PartialEq, Eq)]
pub enum RoundResult {
    /// The block authored in this round, with the inherent bundle it
    /// embedded; the caller announces it through the relay adapter.
    Authored { round: u64, bundle: InherentBundle },
    /// The round produced no block and the loop goes on.
    Skipped(RoundError),
}

/// The collator authoring loop: slot-gated authoring on strictly
/// increasing parent references.
#[derive(Clone, Copy, Debug, PartialEq, Eq, Structural)]
pub struct CollatorLoop {
    /// The round the next trigger will attempt; rounds strictly increase,
    /// so the loop never re-authors on an already-superseded parent.
    pub next_round: u64,
    /// How many blocks this loop has authored.
    pub blocks_authored: u64,
}

/// The recoverable error a collator round is skipped with, or nothing when
/// every phase succeeded: an unreachable relay layer is a relay fault, a
/// reachable one with no validation data for the parent leaves the inherent
/// bundle unassembled, and after assembly the proposal and the import can
/// each still fail.
pub open spec fn collator_round_error(event: CollatorRoundEvent) -> Option<RoundError> {
    match event.relay_fetch {
        RelayFetch::Unreachable => Some(RoundError::RelayUnavailable),
        RelayFetch::Missing => Some(RoundError::InherentUnavailable),
        RelayFetch::Data(_) => if !event.proposal_completed {
            Some(RoundError::ProposalTimeout)
        } else if !event.import_accepted {
            Some(RoundError::ImportRejected)
        } else {
            None
        },
    }
}

impl CollatorLoop {
    /// A fresh loop that will attempt its first round next.
    pub fn new() -> (r: CollatorLoop)
        ensures
            r.next_round == 0,
            r.blocks_authored == 0,
    {
        CollatorLoop { next_round: 0, blocks_authored: 0 }
    }

    /// Runs one slot-triggered authoring round. The round authors a block
    /// exactly when every phase of the event succeeded, and the bundle the
    /// block embeds is the relay-backed bundle for this event's time and
    /// proof. Whatever happened, the loop moves on to the next round: a
    /// skipped round is never re-attempted.
    pub fn round(&mut self, event: CollatorRoundEvent) -> (r: RoundResult)
        requires
            old(self).next_round < u64::MAX,
            old(self).blocks_authored < u64::MAX,
        ensures
            final(self).next_round == old(self).next_round + 1,
            collator_round_error(event) matches Some(err) ==> {
                &&& r == RoundResult::Skipped(err)
                &&& final(self).blocks_authored == old(self).blocks_authored
            },
            collator_round_error(event) is None ==> {
                &&& r matches RoundResult::Authored { round, bundle } && {
                    &&& round == old(self).next_round
                    &&& bundle.well_ordered()
                    &&& bundle.time_of() == event.now
                    &&& bundle.entries@[1] matches crate::inherent::InherentEntry::RelayProof(p)
                        && event.relay_fetch == RelayFetch::Data(p)
                }
                &&& final(self).blocks_authored == old(self).blocks_authored + 1
            },
    {
        let round = self.next_round;
        self.next_round = self.next_round + 1;
        let relay_proof = match event.relay_fetch {
            RelayFetch::Unreachable => {
                return RoundResult::Skipped(RoundError::RelayUnavailable);
            },
            RelayFetch::Missing => {
                return RoundResult::Skipped(RoundError::InherentUnavailable);
            },
            RelayFetch::Data(p) => p,
        };
        let bundle = match assemble_relay_bundle(event.now, Some(relay_proof)) {
            Ok(b) => b,
            Err(e) => {
                return RoundResult::Skipped(e);
            },
        };
        if !event.proposal_completed {
            return RoundResult::Skipped(RoundError::ProposalTimeout);
        }
        if !event.import_accepted {
            return RoundResult::Skipped(RoundError::ImportRejected);
        }
        self.blocks_authored = self.blocks_authored + 1;
        RoundResult::Authored { round, bundle }
    }
}

/// When relay-proof retrieval fails for a round, that round is skipped:
/// together with the contract of [`CollatorLoop::round`] — a round whose
/// event carries an error authors no block, leaves the authored count
/// unchanged, and advances the loop to the immediately following round —
/// this says the loop never retries a failed round and attempts the next
/// one on the next trigger.
pub proof fn lemma_round_skipping(event: CollatorRoundEvent)
    requires
        event.relay_fetch is Unreachable || event.relay_fetch is Missing,
    ensures
        collator_round_error(event) is Some,
        event.relay_fetch is Unreachable ==> collator_round_error(event) == Some(
            RoundError::RelayUnavailable,
        ),
        event.relay_fetch is Missing ==> collator_round_error(event) == Some(
            RoundError::InherentUnavailable,
        ),
{
}

/// What woke the instant-seal loop.
#[derive(Clone, Copy, Debug, PartialEq, Eq, Structural)]
pub enum SealTrigger {
    /// The transaction pool changed.
    PoolChange,
    /// The fallback timer fired.
    TimerTick,
}

/// One instant-seal authoring attempt: the block that was authored and
/// immediately finalized, with the mocked bundle it embedded.
#[derive(Clone, Debug, PartialEq, Eq)]
pub struct SealedBlock {
    /// The ordinal of the sealed block in this loop.
    pub round: u64,
    /// How many pool transactions the block carries.
    pub extrinsics: usize,
    /// Instant seal finalizes every block it authors at once.
    pub finalized: bool,
    /// The mocked inherent bundle embedded in the block.
    pub bundle: InherentBundle,
}

/// The instant-seal authoring loop of the standalone development mode:
/// free-running, not slot-gated, authoring on every pool change or fallback
/// timer tick.
#[derive(Clone, Copy, Debug, PartialEq, Eq, Structural)]
pub struct InstantSealLoop {
    /// How many blocks this loop has sealed.
    pub blocks_sealed: u64,
}

impl InstantSealLoop {
    /// A fresh loop with nothing sealed yet.
    pub fn new() -> (r: InstantSealLoop)
        ensures
            r.blocks_sealed == 0,
    {
        InstantSealLoop { blocks_sealed: 0 }
    }

    /// Authors and immediately finalizes one block. Every trigger seals
    /// exactly one block, whether or not the pool holds anything: a timer
    /// tick over an empty pool seals an empty block. The block embeds the
    /// mocked bundle assembled for this attempt, with both mock queues
    /// drained into it and a synthetic validation-data record whose offset
    /// and ordinal fields are all zero.
    pub fn seal(
        &mut self,
        trigger: SealTrigger,
        now: u64,
        pool_len: usize,
        channel: &mut MockRelayChannel,
    ) -> (r: SealedBlock)
        requires
            old(self).blocks_sealed < u64::MAX,
            old(channel).wf(),
        ensures
            final(self).blocks_sealed == old(self).blocks_sealed + 1,
            final(channel).wf(),
            final(channel).bound() == old(channel).bound(),
            final(channel).pending_downward() == Seq::<Seq<u8>>::empty(),
            final(channel).pending_horizontal() == Seq::<(u32, Seq<u8>)>::empty(),
            r.round == old(self).blocks_sealed,
            r.extrinsics == pool_len,
            r.finalized,
            r.bundle.well_ordered(),
            r.bundle.time_of() == now,
            r.bundle.entries@[1] matches crate::inherent::InherentEntry::MockRelay(m) && {
                &&& m.zero_anchored()
                &&& m.raw_downward_messages@.map_values(|v: Vec<u8>| v@) == old(
                    channel,
                ).pending_downward()
                &&& m.raw_horizontal_messages@.map_values(|v: (u32, Vec<u8>)| (v.0, v.1@)) == old(
                    channel,
                ).pending_horizontal()
            },
    {
        let bundle = assemble_mock_bundle(now, channel);
        let round = self.blocks_sealed;
        self.blocks_sealed = self.blocks_sealed + 1;
        let _ = trigger;
        SealedBlock { round, extrinsics: pool_len, finalized: true, bundle }
    }
}

} // verus!
