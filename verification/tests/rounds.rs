use diora_node::authoring::{
    CollatorLoop, CollatorRoundEvent, InstantSealLoop, RoundResult, SealTrigger,
};
use diora_node::errors::RoundError;
use diora_node::inherent::{assemble_relay_bundle, InherentEntry, ValidationProof};
use diora_node::mock_relay::MockRelayChannel;
use diora_node::modes::{DeploymentMode, NodeRole};
use diora_node::orchestrator::{start, StartConfig, StartOutcomes};
use diora_node::relay::{Collation, RelayAdapter, RelayFetch, RelayStateRecord, RelayTransport};
use diora_node::service::{AssemblyOutcomes, DatabaseVariant, ServiceConfig};

fn sample_proof() -> ValidationProof {
    ValidationProof {
        relay_parent_number: 41,
        relay_state_root: vec![0xaa, 0xbb],
        parent_head: vec![0x01],
    }
}

fn event(fetch: RelayFetch<ValidationProof>) -> CollatorRoundEvent {
    CollatorRoundEvent { now: 1_700_000_000_000, relay_fetch: fetch, proposal_completed: true, import_accepted: true }
}

#[test]
fn relay_bundle_orders_time_before_relay_entry() {
    let b = assemble_relay_bundle(55, Some(sample_proof())).unwrap();
    assert_eq!(b.entries.len(), 3);
    assert_eq!(b.entries[0], InherentEntry::Time(55));
    assert_eq!(b.entries[1], InherentEntry::RelayProof(sample_proof()));
    assert_eq!(b.entries[2], InherentEntry::Authorship);
}

#[test]
fn relay_bundle_fails_recoverably_without_a_proof() {
    assert_eq!(assemble_relay_bundle(55, None), Err(RoundError::InherentUnavailable));
}

#[test]
fn mock_bundle_orders_time_before_mock_entry_and_zeroes_offsets() {
    let mut channel = MockRelayChannel::new(16);
    channel.inject_downward(vec![1, 2, 3]).unwrap();
    channel.inject_horizontal((2001, vec![9])).unwrap();
    let mut sealer = InstantSealLoop::new();
    let block = sealer.seal(SealTrigger::TimerTick, 77, 0, &mut channel);
    assert!(block.finalized);
    assert_eq!(block.extrinsics, 0);
    assert_eq!(block.round, 0);
    assert_eq!(block.bundle.entries.len(), 2);
    assert_eq!(block.bundle.entries[0], InherentEntry::Time(77));
    match &block.bundle.entries[1] {
        InherentEntry::MockRelay(m) => {
            assert_eq!(m.current_para_block, 0);
            assert_eq!(m.relay_offset, 0);
            assert_eq!(m.relay_blocks_per_para_block, 0);
            assert_eq!(m.raw_downward_messages, vec![vec![1, 2, 3]]);
            assert_eq!(m.raw_horizontal_messages, vec![(2001, vec![9])]);
        },
        other => panic!("expected a mocked relay entry, got {:?}", other),
    }
}

#[test]
fn timer_ticks_over_an_empty_pool_seal_one_empty_block_each() {
    // a standalone development authority with nothing queued and an empty pool
    let config = StartConfig {
        mode: DeploymentMode::StandaloneDev,
        role: NodeRole::Authority,
        relay_endpoint: None,
        signing_key_available: true,
        service: ServiceConfig {
            role: NodeRole::Authority,
            telemetry_endpoints: false,
            database: DatabaseVariant::Auto,
        },
    };
    let outcomes = StartOutcomes {
        assembly: AssemblyOutcomes {
            telemetry_built: false,
            store_opened: true,
            store_format_compatible: true,
            import_pipeline_built: true,
        },
        inprocess_relay_built: false,
        network_built: true,
        consensus_built: true,
    };
    let handle = start(config, &outcomes).unwrap();
    assert!(handle.running());

    let mut channel = MockRelayChannel::new(100);
    let mut sealer = InstantSealLoop::new();
    for tick in 0..3u64 {
        let block = sealer.seal(SealTrigger::TimerTick, 1000 + tick, 0, &mut channel);
        assert_eq!(block.round, tick);
        assert_eq!(block.extrinsics, 0);
        assert!(block.finalized);
        match &block.bundle.entries[1] {
            InherentEntry::MockRelay(m) => {
                assert_eq!(m.current_para_block, 0);
                assert_eq!(m.relay_offset, 0);
                assert_eq!(m.relay_blocks_per_para_block, 0);
                assert!(m.raw_downward_messages.is_empty());
                assert!(m.raw_horizontal_messages.is_empty());
            },
            other => panic!("expected a mocked relay entry, got {:?}", other),
        }
    }
    assert_eq!(sealer.blocks_sealed, 3);
}

#[test]
fn pool_changes_and_timer_ticks_both_seal() {
    let mut channel = MockRelayChannel::new(4);
    let mut sealer = InstantSealLoop::new();
    let by_pool = sealer.seal(SealTrigger::PoolChange, 10, 2, &mut channel);
    assert_eq!(by_pool.extrinsics, 2);
    assert!(by_pool.finalized);
    let by_timer = sealer.seal(SealTrigger::TimerTick, 11, 0, &mut channel);
    assert_eq!(by_timer.round, 1);
    assert_eq!(sealer.blocks_sealed, 2);
}

#[test]
fn failed_relay_round_is_skipped_and_next_round_attempted() {
    let mut l = CollatorLoop::new();
    let r = l.round(event(RelayFetch::Unreachable));
    assert_eq!(r, RoundResult::Skipped(RoundError::RelayUnavailable));
    assert_eq!(l.next_round, 1);
    assert_eq!(l.blocks_authored, 0);

    let r = l.round(event(RelayFetch::Missing));
    assert_eq!(r, RoundResult::Skipped(RoundError::InherentUnavailable));
    assert_eq!(l.next_round, 2);
    assert_eq!(l.blocks_authored, 0);

    // the next trigger attempts the following round, and it can succeed
    match l.round(event(RelayFetch::Data(sample_proof()))) {
        RoundResult::Authored { round, bundle } => {
            assert_eq!(round, 2);
            assert_eq!(bundle.entries[1], InherentEntry::RelayProof(sample_proof()));
        },
        other => panic!("expected an authored round, got {:?}", other),
    }
    assert_eq!(l.blocks_authored, 1);
}

#[test]
fn proposal_and_import_failures_skip_the_round() {
    let mut l = CollatorLoop::new();
    let mut e = event(RelayFetch::Data(sample_proof()));
    e.proposal_completed = false;
    assert_eq!(l.round(e), RoundResult::Skipped(RoundError::ProposalTimeout));

    let mut e = event(RelayFetch::Data(sample_proof()));
    e.import_accepted = false;
    assert_eq!(l.round(e), RoundResult::Skipped(RoundError::ImportRejected));
    assert_eq!(l.blocks_authored, 0);
    assert_eq!(l.next_round, 2);
}

#[test]
fn remote_adapter_with_connection_failure_authors_nothing_and_node_keeps_running() {
    // a collator-mode authority whose relay adapter speaks to a remote
    // endpoint that refuses every connection
    let config = StartConfig {
        mode: DeploymentMode::Collator(2000),
        role: NodeRole::Authority,
        relay_endpoint: Some(String::from("ws://relay.invalid:9944")),
        signing_key_available: true,
        service: ServiceConfig {
            role: NodeRole::Authority,
            telemetry_endpoints: false,
            database: DatabaseVariant::RocksDb,
        },
    };
    let outcomes = StartOutcomes {
        assembly: AssemblyOutcomes {
            telemetry_built: false,
            store_opened: true,
            store_format_compatible: true,
            import_pipeline_built: true,
        },
        inprocess_relay_built: false,
        network_built: true,
        consensus_built: true,
    };
    let handle = start(config, &outcomes).unwrap();
    assert_eq!(handle.relay_transport(), Some(RelayTransport::RemoteRpc));

    let adapter =
        RelayAdapter::build(&DeploymentMode::Collator(2000), Some(String::from("ws://relay.invalid:9944")), false)
            .unwrap();
    let state: Result<RelayStateRecord, RoundError> =
        adapter.latest_relay_state(RelayFetch::Unreachable);
    assert_eq!(state, Err(RoundError::RelayUnavailable));

    let mut l = CollatorLoop::new();
    for _ in 0..4 {
        let r = l.round(event(RelayFetch::Unreachable));
        assert_eq!(r, RoundResult::Skipped(RoundError::RelayUnavailable));
    }
    assert_eq!(l.blocks_authored, 0);
    assert_eq!(l.next_round, 4);
    assert!(handle.running());
}

#[test]
fn in_process_and_remote_adapters_report_identical_relay_state() {
    let inprocess =
        RelayAdapter::build(&DeploymentMode::FullNode, None, true).unwrap();
    let remote = RelayAdapter::build(
        &DeploymentMode::FullNode,
        Some(String::from("ws://relay.example:9944")),
        false,
    )
    .unwrap();
    assert_eq!(inprocess.transport(), RelayTransport::InProcess);
    assert_eq!(remote.transport(), RelayTransport::RemoteRpc);

    let fixtures = vec![
        RelayFetch::Unreachable,
        RelayFetch::Missing,
        RelayFetch::Data(RelayStateRecord { finalized_number: 900, head_digest: 0xfeed }),
    ];
    for fixture in fixtures {
        assert_eq!(
            inprocess.latest_relay_state(fixture.clone()),
            remote.latest_relay_state(fixture)
        );
    }

    let collation = Collation { round: 0, candidate: vec![0xc0] };
    assert_eq!(inprocess.announce(&collation, true), remote.announce(&collation, true));
    assert_eq!(inprocess.announce(&collation, false), remote.announce(&collation, false));
    assert_eq!(
        remote.announce(&collation, false),
        Err(diora_node::errors::RoundError::RelayUnavailable)
    );

    let proof_fixtures = vec![
        RelayFetch::Unreachable,
        RelayFetch::Missing,
        RelayFetch::Data(sample_proof()),
    ];
    for fixture in proof_fixtures {
        assert_eq!(
            inprocess.validation_data_for(fixture.clone()),
            remote.validation_data_for(fixture)
        );
    }
}
