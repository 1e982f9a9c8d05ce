//! A namespaced key-value store contract, a consistency oracle that holds
//! several backends to one another, and the conformance checks that any single
//! backend has to pass.

pub mod error;
pub mod identifier;
pub mod store;
pub mod reference;
pub mod listing;
pub mod reconcile;
pub mod oracle;
pub mod conformance;
pub mod scenario;
