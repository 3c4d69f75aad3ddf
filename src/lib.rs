//! Reconciliation of server-monitoring snapshots into per-entity state.
//!
//! Each incoming record is matched against the stored entities by its
//! natural key and either creates one or updates it (`reconcile`); batches
//! run record by record under a continue-on-error policy (`services`); two
//! detectors synthesize crash logs from raw telemetry (`anomaly`). The store
//! (`store`) is a model of the durable tables that keeps every natural key
//! unique; `laws` states what holds of reconciliation for every store.

pub mod anomaly;
pub mod batch;
pub mod database;
pub mod laws;
mod clock;
pub mod model;
pub mod query;
pub mod reconcile;
pub mod seqs;
pub mod services;
pub mod store;
pub mod text;

pub use database::DatabaseManager;
pub use reconcile::IngestError;
pub use services::{BatchError, InsertResult, SmartInsertService};
pub use store::Store;

use vstd::prelude::*;

verus! {

/// The kind of payload that a batch carries.
#[derive(Debug, Clone, Copy, PartialEq, Eq, Structural)]
pub enum SmartDataType {
    Servers,
    SystemMetrics,
    Processes,
    CrashLogs,
    Combined,
}

} // verus!
