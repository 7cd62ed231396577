//! A work-stealing thread pool: the lifecycle of a task, the registry of
//! workers, and the decisions that schedule tasks onto them, each with its
//! contract. Threads, locks and the execution of user code are left to the
//! caller, who hands the outcomes back.

pub mod builder;
pub mod hooks;
pub mod pool;
pub mod queue;
pub mod task;
pub mod worker;

pub use builder::PlanetaryBuilder;
pub use hooks::{HookFn, Hooks};
pub use pool::{Placement, PoolState, Routed, WorkerStatus};
pub use task::{JoinPoll, Parker, Start, State, Task};
pub use worker::{find_task, WorkerAction, WorkerEvent, WorkerPhase};
