//! What the service reads from each chain's indexer.
pub mod algorand;
pub mod stellar;
