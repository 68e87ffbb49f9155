//! Generation of the configuration schema's supporting sources: the schema entries read from the
//! Datadog Agent's schema, the registry of annotations, the classifier data, and the
//! documentation of supported keys.

pub mod classifier;
pub mod docs;
pub mod fields;
pub mod overlay;
pub mod prelude;
pub mod registry;
