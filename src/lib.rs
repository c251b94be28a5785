//! The core of a partial node: the decisions of its tasks, the checkpoint of
//! its synced DA height, the join over its concurrent units, and the plan by
//! which it is built.
use vstd::prelude::*;

mod execute_settle;
mod ingress;
mod join;
mod load_shedding;
mod node;
mod sync_store;

pub use execute_settle::{
    batch_events, lemma_batches_advance_to_last, lemma_checkpoint_advances,
    lemma_no_settlement_no_submission, lemma_synced_never_decreases, next, pending_above,
    rising_above, run, stop, ExecuteSettle, TaskAction,
    TaskError, TaskEvent, TaskModel,
};
pub use ingress::{
    conserves, deliveries, forwards, ingress_next, ingress_run, lemma_backpressure,
    lemma_order_preserved, stop_ingress, Ingress, IngressAction, IngressError, IngressEvent,
    IngressModel,
};
pub use join::{
    all_finished, failure_of, first_failure, join_result, lemma_first_failure_append,
    lemma_ingress_failure_fails_together, units_of, JoinFailure, Supervisor, Unit, UnitOutcome,
};
pub use load_shedding::{Config, DEFAULT_BATCH_PRODUCTION_TIME, DEFAULT_MAX_TRANSACTIONS_IN_FLIGHT};
pub use node::{
    construction_order, construction_steps, decimal, digit_char, endpoint_of,
    lemma_no_settlement_client, light_node_connection, prepare_store, LightNodeConnection,
    LightNodeSettings, Subsystem, WireVariant, TRANSACTION_CHANNEL_CAPACITY,
};
pub use sync_store::{initialized, lemma_initialize_twice_keeps_first, DaDB, SyncStoreError};

verus! {

} // verus!
