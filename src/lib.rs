//! A single-slot cache for the latest network measurement report, with the
//! decisions of the loop that refreshes it and the read that serves it.

pub mod config;
pub mod models;
pub mod query;
pub mod refresher;
pub mod shared;
pub mod store;

pub use config::{interval_seconds, parse_minutes, DEFAULT_INTERVAL_MINUTES};
pub use models::{ConnectingTo, Connected, Start, TestStart, Timestamp};
pub use query::{
    clear_last_result_for_test, current_result, get_cached_iperf3_result, get_last_result,
    set_last_result_for_test,
};
pub use refresher::{Action, CycleFailure, Phase, Refresher};
pub use shared::SharedStore;
pub use store::{CachedResult, ResultStore};
