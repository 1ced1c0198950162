//! Verified core of a lightweight RPC bridge that notifies clients about the
//! confirmation status of submitted transactions: a subscription registry, an
//! event dispatcher that builds protocol notification envelopes, a
//! block-information cache and a signature-status table.

pub mod commitment;
pub mod context;
pub mod dispatch;
pub mod ext;
pub mod json;
pub mod numfmt;
pub mod registry;
pub mod status;
