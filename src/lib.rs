//! Request dispatch and versioned view assembly for a ledger node's JSON-RPC layer.
//!
//! Every handler is split into the parts that only compute: turning the untyped
//! parameters of a request into a typed query for the ledger reader, and turning
//! what the ledger reader (or the admission pipeline) answered into a view.
//! The calls into those collaborators are made by the caller in between.
pub mod account;
pub mod codec;
pub mod handlers;
pub mod ledger;
pub mod laws;
pub mod registry;
pub mod request;
pub mod submit;
pub mod types;
