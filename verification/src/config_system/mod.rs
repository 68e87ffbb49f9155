//! The configuration system: loading bootstrap inputs, choosing the runtime configuration
//! authority, translating the source language into native settings, and routing updates.

pub mod bootstrap;
pub mod dynamic;
pub mod logging;
pub mod registration;
pub mod system;
pub mod translate;
pub mod validate;
