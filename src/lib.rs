//! A worker-thread pool library: pool configuration and thread-count
//! resolution, the errors a pool reports, the pending-task count that keeps a
//! scope open, and handles that hand back the value of a finished job.

mod config;
mod error;
mod handle;
mod pending;

pub use config::{
    available_concurrency, resolve_thread_count, resolved_count, PoolConfig, ThreadPoolBuilder,
    DEFAULT_THREAD_COUNT,
};
pub use error::Error;
pub use handle::JobHandle;
pub use pending::PendingCount;


