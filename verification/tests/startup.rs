use diora_node::errors::{InitError, InitPhase};
use diora_node::modes::{DeploymentMode, NodeRole, StrategyKind};
use diora_node::orchestrator::{
    start, start_instant_seal_node, start_parachain_node, StartConfig, StartOutcomes,
};
use diora_node::service::{
    auxiliary_store_settings, frontier_database_dir, new_partial, select_auxiliary_source,
    AssemblyOutcomes, AuxiliarySource, DatabaseVariant, ServiceConfig,
};

fn good_assembly() -> AssemblyOutcomes {
    AssemblyOutcomes {
        telemetry_built: true,
        store_opened: true,
        store_format_compatible: true,
        import_pipeline_built: true,
    }
}

fn good_outcomes() -> StartOutcomes {
    StartOutcomes {
        assembly: good_assembly(),
        inprocess_relay_built: true,
        network_built: true,
        consensus_built: true,
    }
}

fn config(mode: DeploymentMode, role: NodeRole) -> StartConfig {
    StartConfig {
        mode,
        role,
        relay_endpoint: None,
        signing_key_available: true,
        service: ServiceConfig {
            role,
            telemetry_endpoints: true,
            database: DatabaseVariant::RocksDb,
        },
    }
}

#[test]
fn start_returns_handle_for_every_mode() {
    let modes = vec![
        DeploymentMode::Collator(2000),
        DeploymentMode::FullNode,
        DeploymentMode::StandaloneDev,
    ];
    for mode in modes {
        let h = start(config(mode, NodeRole::Authority), &good_outcomes()).unwrap();
        assert!(h.running());
    }
}

#[test]
fn start_returns_typed_error_for_each_failed_phase() {
    let base = config(DeploymentMode::Collator(2000), NodeRole::Authority);

    let mut o = good_outcomes();
    o.assembly.telemetry_built = false;
    assert_eq!(start(base.clone(), &o).unwrap_err(), InitError::TelemetryFailed);

    let mut o = good_outcomes();
    o.assembly.store_opened = false;
    assert_eq!(start(base.clone(), &o).unwrap_err(), InitError::StoreOpenFailed);

    let mut o = good_outcomes();
    o.assembly.store_format_compatible = false;
    assert_eq!(start(base.clone(), &o).unwrap_err(), InitError::StoreFormatIncompatible);

    let mut o = good_outcomes();
    o.assembly.import_pipeline_built = false;
    assert_eq!(start(base.clone(), &o).unwrap_err(), InitError::ImportPipelineFailed);

    let mut c = base.clone();
    c.service.database = DatabaseVariant::Other;
    assert_eq!(start(c, &good_outcomes()).unwrap_err(), InitError::UnsupportedDatabase);

    let mut o = good_outcomes();
    o.inprocess_relay_built = false;
    assert_eq!(start(base.clone(), &o).unwrap_err(), InitError::RelayAdapterFailed);

    let mut o = good_outcomes();
    o.network_built = false;
    assert_eq!(start(base.clone(), &o).unwrap_err(), InitError::NetworkBuildFailed);

    let mut c = base.clone();
    c.signing_key_available = false;
    assert_eq!(start(c, &good_outcomes()).unwrap_err(), InitError::SigningUnavailable);

    let mut o = good_outcomes();
    o.consensus_built = false;
    assert_eq!(start(base.clone(), &o).unwrap_err(), InitError::ConsensusBuildFailed);
}

#[test]
fn error_phases_identify_failed_phase() {
    assert_eq!(InitError::StoreOpenFailed.phase(), InitPhase::Store);
    assert_eq!(InitError::StoreFormatIncompatible.phase(), InitPhase::Store);
    assert_eq!(InitError::TelemetryFailed.phase(), InitPhase::Store);
    assert_eq!(InitError::UnsupportedDatabase.phase(), InitPhase::Store);
    assert_eq!(InitError::ImportPipelineFailed.phase(), InitPhase::Store);
    assert_eq!(InitError::RelayAdapterFailed.phase(), InitPhase::RelayAdapter);
    assert_eq!(InitError::NetworkBuildFailed.phase(), InitPhase::Network);
    assert_eq!(InitError::ConsensusBuildFailed.phase(), InitPhase::ConsensusBuild);
    assert_eq!(InitError::SigningUnavailable.phase(), InitPhase::ConsensusBuild);
    assert_eq!(
        InitError::StoreOpenFailed.describe(),
        "store: could not open the backing store"
    );
    assert_eq!(
        InitError::SigningUnavailable.describe(),
        "consensus: authority configured without a usable signing key"
    );
}

#[test]
fn exactly_one_strategy_is_active() {
    let cases = vec![
        (DeploymentMode::Collator(2000), NodeRole::Authority, StrategyKind::CollatorAuthoring),
        (DeploymentMode::Collator(2000), NodeRole::Participant, StrategyKind::FullNodeValidation),
        (DeploymentMode::FullNode, NodeRole::Participant, StrategyKind::FullNodeValidation),
        (DeploymentMode::FullNode, NodeRole::Authority, StrategyKind::FullNodeValidation),
        (DeploymentMode::StandaloneDev, NodeRole::Authority, StrategyKind::InstantSealAuthoring),
    ];
    for (mode, role, expected) in cases {
        let h = start(config(mode, role), &good_outcomes()).unwrap();
        assert_eq!(h.active_strategies(), 1);
        assert_eq!(h.strategy(), Some(expected));
    }
}

#[test]
fn idle_standalone_participant_selects_no_strategy() {
    let h = start(config(DeploymentMode::StandaloneDev, NodeRole::Participant), &good_outcomes())
        .unwrap();
    assert_eq!(h.active_strategies(), 0);
    assert_eq!(h.strategy(), None);
}

#[test]
fn standalone_never_builds_a_relay_adapter() {
    let h = start(config(DeploymentMode::StandaloneDev, NodeRole::Authority), &good_outcomes())
        .unwrap();
    assert_eq!(h.relay_transport(), None);
    let h = start(config(DeploymentMode::Collator(2000), NodeRole::Authority), &good_outcomes())
        .unwrap();
    assert!(h.relay_transport().is_some());
}

#[test]
fn client_handle_reflects_the_assembled_services() {
    let h = start(config(DeploymentMode::Collator(2000), NodeRole::Authority), &good_outcomes())
        .unwrap();
    let bundle = h.client_handle();
    assert!(bundle.parachain);
    assert!(bundle.pool_is_authoring);
    assert!(bundle.telemetry_active);
    assert_eq!(bundle.auxiliary, AuxiliarySource::RocksDb);
}

#[test]
fn shutdown_tears_the_node_down() {
    let mut h = start(config(DeploymentMode::FullNode, NodeRole::Participant), &good_outcomes())
        .unwrap();
    assert!(h.running());
    h.shutdown();
    assert!(!h.running());
}

#[test]
fn parachain_entry_point_builds_a_relay_backed_node() {
    let h = start_parachain_node(
        config(DeploymentMode::Collator(2000), NodeRole::Participant),
        &good_outcomes(),
    )
    .unwrap();
    assert!(h.relay_transport().is_some());
    assert_eq!(h.strategy(), Some(StrategyKind::FullNodeValidation));

    let mut o = good_outcomes();
    o.inprocess_relay_built = false;
    assert_eq!(
        start_parachain_node(config(DeploymentMode::FullNode, NodeRole::Participant), &o)
            .unwrap_err(),
        InitError::RelayAdapterFailed
    );
}

#[test]
fn instant_seal_entry_point_builds_a_relayless_node() {
    let h = start_instant_seal_node(
        config(DeploymentMode::StandaloneDev, NodeRole::Authority),
        &good_outcomes(),
    )
    .unwrap();
    assert_eq!(h.relay_transport(), None);
    assert_eq!(h.strategy(), Some(StrategyKind::InstantSealAuthoring));
}

#[test]
fn frontier_database_dir_joins_the_store_layout() {
    assert_eq!(frontier_database_dir("/data/chains/dev", "db"), "/data/chains/dev/frontier/db");
    assert_eq!(
        frontier_database_dir("/data/chains/dev", "paritydb"),
        "/data/chains/dev/frontier/paritydb"
    );
}

#[test]
fn auxiliary_store_mirrors_the_primary_source() {
    assert_eq!(select_auxiliary_source(&DatabaseVariant::RocksDb), Ok(AuxiliarySource::RocksDb));
    assert_eq!(select_auxiliary_source(&DatabaseVariant::ParityDb), Ok(AuxiliarySource::ParityDb));
    assert_eq!(select_auxiliary_source(&DatabaseVariant::Auto), Ok(AuxiliarySource::Auto));
    assert_eq!(
        select_auxiliary_source(&DatabaseVariant::Other),
        Err(InitError::UnsupportedDatabase)
    );
}

#[test]
fn auxiliary_store_settings_lay_out_each_variant() {
    let s = auxiliary_store_settings("/data/dev", &DatabaseVariant::RocksDb).unwrap();
    assert_eq!(s.source, AuxiliarySource::RocksDb);
    assert_eq!(s.rocksdb_path.as_deref(), Some("/data/dev/frontier/db"));
    assert_eq!(s.paritydb_path, None);
    assert_eq!(s.cache_size, 0);

    let s = auxiliary_store_settings("/data/dev", &DatabaseVariant::ParityDb).unwrap();
    assert_eq!(s.source, AuxiliarySource::ParityDb);
    assert_eq!(s.rocksdb_path, None);
    assert_eq!(s.paritydb_path.as_deref(), Some("/data/dev/frontier/paritydb"));

    let s = auxiliary_store_settings("/data/dev", &DatabaseVariant::Auto).unwrap();
    assert_eq!(s.source, AuxiliarySource::Auto);
    assert_eq!(s.rocksdb_path.as_deref(), Some("/data/dev/frontier/db"));
    assert_eq!(s.paritydb_path.as_deref(), Some("/data/dev/frontier/paritydb"));

    assert_eq!(
        auxiliary_store_settings("/data/dev", &DatabaseVariant::Other),
        Err(InitError::UnsupportedDatabase)
    );
}

#[test]
fn assembler_reports_first_failing_step() {
    let cfg = ServiceConfig {
        role: NodeRole::Participant,
        telemetry_endpoints: false,
        database: DatabaseVariant::ParityDb,
    };
    let bundle = new_partial(&cfg, false, &good_assembly()).unwrap();
    assert!(!bundle.parachain);
    assert!(!bundle.pool_is_authoring);
    assert_eq!(bundle.auxiliary, AuxiliarySource::ParityDb);
    assert!(!bundle.telemetry_active);

    let failed = AssemblyOutcomes {
        telemetry_built: false,
        store_opened: false,
        store_format_compatible: false,
        import_pipeline_built: false,
    };
    // no telemetry endpoint is configured, so the store is the first failure
    assert_eq!(new_partial(&cfg, false, &failed), Err(InitError::StoreOpenFailed));
}
