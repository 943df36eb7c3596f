//! The data model of the pipeline: transfer requests, per-transfer outcomes,
//! and the result envelope shared by the dispatcher and the confirmer.

use vstd::prelude::*;

verus! {

/// An immutable transfer request: a source signing credential (base58 of the
/// raw keypair bytes), a destination address (base58), and an amount in the
/// smallest ledger unit.
#[derive(Clone, Debug, PartialEq, Eq)]
pub struct Transfer {
    pub source_base58_private_key: String,
    pub destination_pubkey: String,
    pub lamports: u64,
}

/// A submission accepted by the gateway: the signature that identifies the
/// transaction on the ledger, and the submission latency in milliseconds.
#[derive(Clone, Debug, PartialEq, Eq)]
pub struct SentTransaction {
    pub duration_millis: u64,
    pub signature: String,
}

/// The outcome recorded for one transfer, replaced (never mutated) by later
/// confirmation passes.
///
/// `FailedToSend` and `Failed` are absorbing: a confirmation pass returns
/// them unchanged.  Every other variant carries the signature produced by a
/// successful submission, so an envelope is self-describing and can be polled
/// without the original transfer request.
#[derive(Clone, Debug, PartialEq, Eq)]
pub enum TransactionResult {
    /// The submission was rejected locally or by the gateway before a
    /// signature was assigned.
    FailedToSend { reason: String },
    /// The recorded signature is unusable for a status query; terminal.
    Failed { signature: String, reason: String },
    /// A poll could not establish a status; eligible for re-polling.
    Unknown { signature: String, details: String },
    /// A poll found a confirmation status; the status may still advance, so
    /// the entry remains eligible for re-polling.
    WithStatus { signature: String, status: String },
    /// The submission was accepted by the gateway.
    Sent(SentTransaction),
}

/// A dispatch request: the gateway endpoint, the bound on in-flight
/// submissions, and the transfers to sign and submit.
#[derive(Clone, Debug, PartialEq, Eq)]
pub struct SendTransactions {
    pub rpc_url: String,
    pub batch_size: usize,
    pub transfers: Vec<Transfer>,
}

/// The result envelope: one outcome per input transfer, in input order, plus
/// the endpoint and batch size used to produce it.
#[derive(Clone, Debug, PartialEq, Eq)]
pub struct TransactionResults {
    pub rpc_url: String,
    pub batch_size: usize,
    pub results: Vec<TransactionResult>,
}

/// The unit of work persisted between invocations: either transfers to
/// dispatch or an envelope to (re)confirm.
#[derive(Clone, Debug, PartialEq, Eq)]
pub enum Task {
    SendTransactions(SendTransactions),
    TransactionResults(TransactionResults),
}

/// An outcome that every later confirmation pass returns unchanged.
pub open spec fn is_absorbing(r: TransactionResult) -> bool {
    r is FailedToSend || r is Failed
}

/// The signature that a non-absorbing outcome exposes for polling.
pub open spec fn poll_signature(r: TransactionResult) -> Seq<char>
    recommends
        !is_absorbing(r),
{
    match r {
        TransactionResult::Unknown { signature, details } => signature@,
        TransactionResult::WithStatus { signature, status } => signature@,
        TransactionResult::Sent(tx) => tx.signature@,
        _ => Seq::empty(),
    }
}

} // verus!
