//! A transfer dispatch-and-confirmation pipeline for a remote ledger.
//!
//! The library signs and submits batches of fund transfers and later
//! re-queries the ledger for the confirmation state of previously submitted
//! transfers.  Both stages operate over a shared result envelope: the
//! dispatcher produces one outcome per transfer, and the confirmer replaces
//! outcomes that are still worth polling.  All network traffic is performed
//! by the caller, which feeds the gateway's answers back into the verified
//! state machine.

pub mod batch;
pub mod check;
pub mod ledger;
pub mod send;
pub mod types;
