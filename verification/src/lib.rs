//! Optional acceleration facade for Pasta-curve MSM-heavy workloads.
//!
//! The default implementation is deliberately conservative: it exposes the
//! backend-selection API that downstream crates can integrate against, but only
//! the pure Rust CPU path is available.
//!
//! State that a thread keeps between calls, the scoped dispatch override and
//! the dispatch counters, is handed to the functions here explicitly, as are
//! the values of the `ZCASH_ACCEL` and `ZCASH_ACCEL_MIN_MSM` variables.
//!
//! - [`backend`]: backends, dispatch settings, errors, availability.
//! - [`config`]: parsing the environment values and scoped overrides.
//! - [`schedule`]: planning which MSM requests stay on the CPU, are batched,
//!   or go out immediately.
//! - [`stats`]: dispatch counters.
//! - [`msm`]: Pallas and Vesta MSMs and backend self-tests.
//! - [`ffi`]: the checked field and point layouts for foreign adapters.
//! - [`curves`]: the Pasta types and the `pasta_curves` calls.
//! - [`fuzz`]: the decisions of the MSM fuzz harness.

pub mod backend;
pub mod config;
pub mod curves;
pub mod ffi;
pub mod fuzz;
pub mod msm;
pub mod schedule;
pub mod stats;

pub use backend::{backend_available, AccelError, Backend, DispatchConfig, DEFAULT_MIN_MSM};
pub use config::{dispatch_config, min_msm_size, selected_backend, with_dispatch_config};
pub use msm::{accelerated_backend_self_test, backend_self_test, msm_pallas, msm_vesta};
pub use schedule::{
    plan_msm_schedule, MsmBatchConfig, MsmBatchPlan, MsmScheduleDecision, MsmScheduleSummary,
    DEFAULT_MIN_BATCH_ITEMS, DEFAULT_MIN_BATCH_MSM, DEFAULT_MIN_BATCH_POINTS,
};
pub use stats::{
    record_msm_candidate, record_msm_fallback, record_msm_success, reset_dispatch_stats,
    take_dispatch_stats, DispatchStats,
};
