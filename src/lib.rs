//! A bounded pool of reusable connections with lifecycle hooks and
//! redirect-aware connection establishment.
//!
//! The library holds the decisions of the pool: which slot an acquire takes,
//! when a connection is created, recycled or discarded, how a redirect is
//! followed, and in which order hooks run. The caller performs the I/O and
//! reports each outcome back.
//!
//! - [`pool`]: the slot table, its transitions and its counters.
//! - [`connector`]: establishing one connection, following at most one redirect.
//! - [`hooks`]: hook registration and the in-order, short-circuiting run of a phase.
//! - [`lifecycle`]: how connection attempts, hooks and health checks combine.
//! - [`settings`]: capacity and deadlines.

pub mod connector;
pub mod error;
pub mod hooks;
pub mod lifecycle;
pub mod pool;
pub mod settings;

pub use crate::connector::{AttemptOutcome, ConnectStep, Connector, Endpoint};
pub use crate::error::PoolError;
pub use crate::hooks::{HookKind, HookPhase, HookRecord, HookVerdict, Hooks, PhaseRun, PhaseStep};
pub use crate::lifecycle::{create_outcome, recycle_next, RecycleStage};
pub use crate::pool::{
    AcquireStep, CreateOutcome, Lease, Metrics, PoolState, RecycleCheck, SlotState,
};
pub use crate::settings::{wait_budget, PoolSettings, WaitBudget, DEFAULT_MAX_SIZE};
