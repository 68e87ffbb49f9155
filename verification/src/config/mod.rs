//! The ADP-native configuration model: the typed target of configuration translation.
//!
//! The model is source-agnostic: it holds no source key names, and nothing in it reads a raw
//! configuration map.

pub mod authority;
pub mod bootstrap;
pub mod cli;
pub mod domains;
pub mod logging;
pub mod native;
pub mod private;
