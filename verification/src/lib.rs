//! Verified configuration logic for the Agent Data Plane.
//!
//! The crate holds the decisions the data plane makes about its configuration: which pipelines
//! run, how DogStatsD metric names are prefixed and filtered, how remote-configuration payloads are
//! decoded into snapshots, and how source settings are translated into native values.

pub mod cli;
pub mod config;
pub mod config_system;
pub mod config_watcher;
pub mod data_plane;
pub mod filterlist;
pub mod json;
pub mod post_aggregate_filter;
pub mod prefix_filter;
pub mod remote_config;
pub mod runtime;
pub mod schema;
pub mod text;
pub mod time;
pub mod total_config;
