//! The node service assembler.
//!
//! Builds the shared substrate of services once, independent of mode: the
//! storage client, the auxiliary indexing store, the transaction pool, the
//! import pipeline and the telemetry worker. The collaborators that open
//! stores and spawn workers live outside this core; their outcomes arrive
//! here as plain events, and this module is the verified decision layer:
//! which auxiliary store variant to request, in which order the fallible
//! steps run, which failure aborts startup with which error, and what the
//! assembled bundle holds on success. Construction failure is fatal: there
//! is no retry.

use vstd::prelude::*;
use crate::errors::InitError;
use crate::modes::NodeRole;

verus! {

/// Dispatches runtime calls to the native runtime when the on-chain and
/// native versions agree, and to the compiled-in runtime blob otherwise.
/// The dispatch itself is performed by the execution collaborator; this
/// marker selects it.
#[derive(Clone, Copy, Debug, PartialEq, Eq, Structural)]
pub struct TemplateRuntimeExecutor;

/// The source the primary chain store was configured with.
#[derive(Clone, Copy, Debug, PartialEq, Eq, Structural)]
pub enum DatabaseVariant {
    RocksDb,
    ParityDb,
    /// Let the storage collaborator pick whichever store already exists.
    Auto,
    /// Anything else the storage collaborator may offer.
    Other,
}

/// The auxiliary indexing store requested beside the primary store. It
/// always mirrors the primary source, with no read cache of its own.
#[derive(Clone, Copy, Debug, PartialEq, Eq, Structural)]
pub enum AuxiliarySource {
    /// A rocks-db store with a zero cache size.
    RocksDb,
    /// A parity-db store.
    ParityDb,
    /// Either of the two, resolved by what is on disk, with a zero cache
    /// size for the rocks-db resolution.
    Auto,
}

/// Chooses the auxiliary indexing store variant from the primary database
/// source: the auxiliary store mirrors the primary one, and any other
/// source is rejected at startup.
pub fn select_auxiliary_source(primary: &DatabaseVariant) -> (r: Result<AuxiliarySource, InitError>)
    ensures
        r == select_auxiliary_source_spec(*primary),
{
    match primary {
        DatabaseVariant::RocksDb => Ok(AuxiliarySource::RocksDb),
        DatabaseVariant::ParityDb => Ok(AuxiliarySource::ParityDb),
        DatabaseVariant::Auto => Ok(AuxiliarySource::Auto),
        DatabaseVariant::Other => Err(InitError::UnsupportedDatabase),
    }
}

/// The validated configuration the assembler works from.
#[derive(Clone, Debug, PartialEq, Eq)]
pub struct ServiceConfig {
    /// Whether the local node attempts block production.
    pub role: NodeRole,
    /// Whether any telemetry endpoint is configured; only then is a
    /// telemetry worker built.
    pub telemetry_endpoints: bool,
    /// The configured primary database source.
    pub database: DatabaseVariant,
}

/// What the outside collaborators reported while the services were built,
/// in the order the steps run.
#[derive(Clone, Copy, Debug, PartialEq, Eq, Structural)]
pub struct AssemblyOutcomes {
    /// The telemetry worker was constructed (consulted only when an
    /// endpoint is configured).
    pub telemetry_built: bool,
    /// The backing store was opened.
    pub store_opened: bool,
    /// The opened store's on-disk format is the expected one.
    pub store_format_compatible: bool,
    /// The block import pipeline was constructed.
    pub import_pipeline_built: bool,
}

impl AssemblyOutcomes {
    /// Every step a given configuration runs succeeded.
    pub open spec fn all_succeeded(self, config: ServiceConfig) -> bool {
        &&& config.telemetry_endpoints ==> self.telemetry_built
        &&& self.store_opened
        &&& self.store_format_compatible
        &&& self.import_pipeline_built
        &&& !(config.database is Other)
    }
}

/// The shared service bundle, produced exactly once at startup and owned by
/// the returned node handle; the storage handles it stands for are released
/// only on process teardown.
#[derive(Clone, Copy, Debug, PartialEq, Eq, Structural)]
pub struct ServiceBundle {
    /// The executor the storage client dispatches runtime calls through.
    pub executor: TemplateRuntimeExecutor,
    /// Whether the import pipeline was wired for a parachain.
    pub parachain: bool,
    /// Whether the transaction pool validates as an authoring pool.
    pub pool_is_authoring: bool,
    /// The auxiliary indexing store variant that was requested.
    pub auxiliary: AuxiliarySource,
    /// Whether a telemetry worker runs beside the services.
    pub telemetry_active: bool,
}

/// The error the assembler reports for a configuration and a set of
/// outcomes: the first failing step, in the order the steps run
/// (telemetry worker, store open, store format, auxiliary store selection,
/// import pipeline), or no error when every step succeeded.
pub open spec fn assembly_error(config: ServiceConfig, outcomes: AssemblyOutcomes) -> Option<
    InitError,
> {
    if config.telemetry_endpoints && !outcomes.telemetry_built {
        Some(InitError::TelemetryFailed)
    } else if !outcomes.store_opened {
        Some(InitError::StoreOpenFailed)
    } else if !outcomes.store_format_compatible {
        Some(InitError::StoreFormatIncompatible)
    } else if config.database is Other {
        Some(InitError::UnsupportedDatabase)
    } else if !outcomes.import_pipeline_built {
        Some(InitError::ImportPipelineFailed)
    } else {
        None
    }
}

/// Assembles the shared service bundle from a validated configuration and
/// the collaborators' outcomes. Fails fatally with the error of the first
/// step that went wrong; succeeds if and only if every step succeeded, and
/// then pins down every field of the bundle.
pub fn new_partial(config: &ServiceConfig, parachain: bool, outcomes: &AssemblyOutcomes) -> (r:
    Result<ServiceBundle, InitError>)
    ensures
        r is Ok <==> outcomes.all_succeeded(*config),
        r matches Err(e) ==> assembly_error(*config, *outcomes) == Some(e),
        r matches Ok(b) ==> {
            &&& b.parachain == parachain
            &&& b.pool_is_authoring == (config.role is Authority)
            &&& Ok::<AuxiliarySource, InitError>(b.auxiliary) == select_auxiliary_source_spec(
                config.database,
            )
            &&& b.telemetry_active == config.telemetry_endpoints
        },
{
    if config.telemetry_endpoints && !outcomes.telemetry_built {
        return Err(InitError::TelemetryFailed);
    }
    if !outcomes.store_opened {
        return Err(InitError::StoreOpenFailed);
    }
    if !outcomes.store_format_compatible {
        return Err(InitError::StoreFormatIncompatible);
    }
    let auxiliary = match select_auxiliary_source(&config.database) {
        Ok(a) => a,
        Err(e) => { return Err(e) },
    };
    if !outcomes.import_pipeline_built {
        return Err(InitError::ImportPipelineFailed);
    }
    Ok(
        ServiceBundle {
            executor: TemplateRuntimeExecutor,
            parachain,
            pool_is_authoring: matches!(config.role, NodeRole::Authority),
            auxiliary,
            telemetry_active: config.telemetry_endpoints,
        },
    )
}

/// The directory the auxiliary indexing store lives in: the store keeps its
/// data under a `frontier` directory beside the primary chain data, in a
/// subdirectory named for the store variant. Resolving the configuration
/// directory itself is the storage collaborator's affair; this joins the
/// pieces.
pub fn frontier_database_dir(config_dir: &str, path: &str) -> (r: String)
    ensures
        r@ == config_dir@ + "/frontier/"@ + path@,
{
    let mut dir = String::from_str(config_dir);
    dir.append("/frontier/");
    dir.append(path);
    dir
}

/// Everything the storage collaborator needs to open the auxiliary indexing
/// store: the variant, the directory of each store it may resolve to, and a
/// zero read-cache size. Opening the store is the collaborator's affair;
/// these settings are decided here.
#[derive(Clone, Debug, PartialEq, Eq)]
pub struct AuxiliaryStoreSettings {
    /// The store variant requested.
    pub source: AuxiliarySource,
    /// The rocks-db directory, for the variants that may resolve to one.
    pub rocksdb_path: Option<String>,
    /// The parity-db directory, for the variants that may resolve to one.
    pub paritydb_path: Option<String>,
    /// The auxiliary store reads through the primary one: no cache.
    pub cache_size: u32,
}

/// Decides the settings the auxiliary indexing store is opened with: the
/// variant mirrors the primary database source, each resolvable store lives
/// in its own directory under `frontier` beside the chain data, and the
/// cache size is zero. Any other primary source is rejected at startup.
pub fn auxiliary_store_settings(config_dir: &str, primary: &DatabaseVariant) -> (r: Result<
    AuxiliaryStoreSettings,
    InitError,
>)
    ensures
        r is Ok <==> !(*primary is Other),
        *primary is Other ==> r == Result::<AuxiliaryStoreSettings, InitError>::Err(
            InitError::UnsupportedDatabase,
        ),
        r matches Ok(s) ==> {
            &&& Ok::<AuxiliarySource, InitError>(s.source) == select_auxiliary_source_spec(
                *primary,
            )
            &&& s.cache_size == 0
            &&& (s.rocksdb_path is Some <==> (*primary is RocksDb || *primary is Auto))
            &&& (s.paritydb_path is Some <==> (*primary is ParityDb || *primary is Auto))
            &&& (s.rocksdb_path matches Some(p) ==> p@ == config_dir@ + "/frontier/"@ + "db"@)
            &&& (s.paritydb_path matches Some(p) ==> p@ == config_dir@ + "/frontier/"@
                + "paritydb"@)
        },
{
    let source = match select_auxiliary_source(primary) {
        Ok(s) => s,
        Err(e) => {
            return Err(e);
        },
    };
    let rocksdb_path: Option<String> = match source {
        AuxiliarySource::RocksDb | AuxiliarySource::Auto => Some(
            frontier_database_dir(config_dir, "db"),
        ),
        AuxiliarySource::ParityDb => None,
    };
    let paritydb_path: Option<String> = match source {
        AuxiliarySource::ParityDb | AuxiliarySource::Auto => Some(
            frontier_database_dir(config_dir, "paritydb"),
        ),
        AuxiliarySource::RocksDb => None,
    };
    Ok(AuxiliaryStoreSettings { source, rocksdb_path, paritydb_path, cache_size: 0 })
}

/// The auxiliary store variant [`select_auxiliary_source`] chooses for each
/// primary source.
pub open spec fn select_auxiliary_source_spec(primary: DatabaseVariant) -> Result<
    AuxiliarySource,
    InitError,
> {
    match primary {
        DatabaseVariant::RocksDb => Ok(AuxiliarySource::RocksDb),
        DatabaseVariant::ParityDb => Ok(AuxiliarySource::ParityDb),
        DatabaseVariant::Auto => Ok(AuxiliarySource::Auto),
        DatabaseVariant::Other => Err(InitError::UnsupportedDatabase),
    }
}

} // verus!
