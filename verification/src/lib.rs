//! Core logic of a DNS zonefile operator: rendering zonefile text from zone
//! records, deciding back-reference label writes, and driving a reconciliation
//! pass over a set of referenced zones as a step machine whose API calls are
//! performed by the surrounding runtime.

use vstd::prelude::*;

pub mod domain;
pub mod render;
pub mod linker;
pub mod engine;

verus! {

/// Field manager name used for all server-side patches issued by the operator.
pub const CONTROLLER_NAME: &'static str = "kubi.zone/zonefile";

/// Delay before the next periodic reconciliation of a zonefile that was
/// reconciled successfully.
pub const RECONCILE_REQUEUE_SECONDS: u64 = 300;

/// Delay before retrying a reconciliation pass that failed with an API error.
pub const ERROR_REQUEUE_SECONDS: u64 = 60;

} // verus!
