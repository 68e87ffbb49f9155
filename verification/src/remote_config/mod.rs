//! Remote configuration: product and configuration identities, the rules by which a product's
//! decoder turns an assignment of configurations into a snapshot, and the state a subscription
//! observes as snapshots are published.

pub mod client;
pub mod decoder;
pub mod error;
pub mod message;
pub mod product;
pub mod subscription;
pub mod testing;
