//! AgriTrust: an invoice-financing protocol for farmers, modelled as a
//! verified state machine. Each entry point takes the caller and the block
//! time as plain values and returns the event it emits, or the error that
//! reverts the call with the state left unchanged.

pub mod motes;
pub mod address;
pub mod types;
pub mod ledger;
pub mod protocol;
pub mod demo;
pub mod laws;
pub mod session;
pub mod inputs;
