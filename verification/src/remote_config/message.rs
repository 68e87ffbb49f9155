//! Messages delivered to a product's consumer, and the wrapper by which a configuration's
//! payload is read as JSON.

use std::collections::HashMap;

use vstd::prelude::*;

use crate::remote_config::error::Error;
use crate::remote_config::product::ProductId;

verus! {

/// What happened to a product's configuration.
pub enum Operation<T> {
    /// The configuration was updated to this value.
    Update(T),
    /// The configuration was removed.
    Remove,
    /// The client failed.
    Error(Error),
}

/// A message delivered to a product's consumer.
pub struct Message<T> {
    /// The product the message concerns.
    pub product_id: ProductId,
    /// What happened.
    pub operation: Operation<T>,
}

/// The assigned configurations of a product, by configuration ID, as raw contents.
pub struct Payloads<'a> {
    /// Configuration ID to raw contents.
    pub contents: &'a HashMap<String, Vec<u8>>,
}

/// A configuration whose raw contents are JSON, read into `T`.
pub struct Json<T>(pub T);

/// A handle for subscribing to remote configuration products.
pub struct RemoteConfigurationClient {}

/// The worker that polls the Agent and publishes each product's snapshots.
pub struct RemoteConfigurationWorker {}

} // verus!
