//! The dispatcher: sign and submit transfers, one batch at a time.  Each
//! batch is given one freshness token fetched by the caller just before the
//! batch fans out; a failed fetch fails that batch alone.  Within a batch
//! every transfer is either rejected locally (bad credential or address) or
//! turned into a signed transaction for the caller to submit; the caller
//! then feeds each submission's outcome back to be recorded.

use crate::ledger;
use crate::ledger::{valid_credential, valid_pubkey};
use crate::types::{SentTransaction, TransactionResult, Transfer};
use vstd::prelude::*;

verus! {

/// The caller's attempt to fetch a batch's freshness token from the
/// gateway.
pub enum TokenFetch {
    /// The short-lived anti-replay value that every submission of the batch
    /// must carry.
    Token { token: solana_hash::Hash },
    /// The fetch failed; the whole batch is mapped to a local failure.
    Failed { error: String },
}

/// What the dispatcher decides for one transfer of a batch.
pub enum DispatchAction {
    /// Already settled locally; no submission may be attempted.
    Done { result: TransactionResult },
    /// A signed transaction, ready for the caller to submit.
    Submit { transaction: solana_transaction::Transaction },
}

/// What the caller observed for one submitted transaction: the gateway's
/// accepted signature or its rejection text, and the wall-clock submission
/// latency.
pub struct Submission {
    pub outcome: Result<String, String>,
    pub duration_millis: u64,
}

/// A transfer whose credential and destination both decode.
pub open spec fn valid_transfer(t: Transfer) -> bool {
    valid_credential(t.source_base58_private_key@) && valid_pubkey(t.destination_pubkey@)
}

/// How the dispatcher treats one transfer, given the batch's token fetch:
/// a failed fetch fails the transfer with the fetch's own error, an invalid
/// transfer fails locally, and a valid transfer is signed for submission.
pub open spec fn dispatch_rel(t: Transfer, token: TokenFetch, action: DispatchAction) -> bool {
    match token {
        TokenFetch::Failed { error } => {
            &&& action matches DispatchAction::Done { result }
            &&& result matches TransactionResult::FailedToSend { reason }
            &&& reason == error
        },
        TokenFetch::Token { token } => {
            if valid_transfer(t) {
                action is Submit
            } else {
                &&& action matches DispatchAction::Done { result }
                &&& result is FailedToSend
            }
        },
    }
}

/// How a recorded outcome relates to the caller's submission attempt: an
/// accepted submission is recorded with its signature and latency, a
/// rejected one with the gateway's reason.
pub open spec fn submission_rel(s: Submission, post: TransactionResult) -> bool {
    match s.outcome {
        Ok(signature) => post == TransactionResult::Sent(
            SentTransaction { duration_millis: s.duration_millis, signature },
        ),
        Err(error) => post == (TransactionResult::FailedToSend { reason: error }),
    }
}

/// Construct and sign the single-instruction transfer authorizing movement
/// of the given amount from the credential's address to the destination,
/// against the batch's freshness token.  Fails exactly on a malformed
/// credential or destination, without any gateway involvement.
pub fn signed_transaction(token: &solana_hash::Hash, transfer: &Transfer) -> (r: Result<
    solana_transaction::Transaction,
    String,
>)
    ensures
        r is Ok <==> valid_transfer(*transfer),
{
    let sender = match ledger::keypair_from_base58(&transfer.source_base58_private_key) {
        Ok(keypair) => keypair,
        Err(e) => { return Err(e) },
    };
    let destination = match ledger::pubkey_from_str(&transfer.destination_pubkey) {
        Ok(pubkey) => pubkey,
        Err(e) => { return Err(e) },
    };
    Ok(ledger::build_signed_transfer(&sender, &destination, transfer.lamports, token))
}

/// Decide one batch: if the batch's token fetch failed, every member —
/// and only this batch — becomes `FailedToSend` with the fetch error and
/// nothing is signed; otherwise each transfer is signed, or rejected
/// locally on a malformed credential or address.  One action per transfer,
/// in order.
pub fn dispatch_batch(batch: Vec<Transfer>, token: &TokenFetch) -> (r: Vec<DispatchAction>)
    ensures
        r@.len() == batch@.len(),
        forall|i: int|
            0 <= i < batch@.len() ==> dispatch_rel(batch@[i], *token, #[trigger] r@[i]),
{
    let ghost all = batch@;
    let mut rest = batch;
    let mut out: Vec<DispatchAction> = Vec::new();
    proof {
        assert(all.skip(0) =~= all);
    }
    while rest.len() > 0
        invariant
            out@.len() + rest@.len() == all.len(),
            rest@ == all.skip(out@.len() as int),
            forall|i: int|
                0 <= i < out@.len() ==> dispatch_rel(all[i], *token, #[trigger] out@[i]),
        decreases rest.len(),
    {
        let ghost n = out@.len() as int;
        let transfer = rest.remove(0);
        let ghost transfer_g = transfer;
        proof {
            assert(transfer_g == all.skip(n)[0]);
            assert(all.skip(n)[0] == all[n]);
            assert(rest@ =~= all.skip(n + 1));
        }
        let action = match token {
            TokenFetch::Failed { error } => DispatchAction::Done {
                result: TransactionResult::FailedToSend { reason: error.clone() },
            },
            TokenFetch::Token { token: fresh } => {
                match signed_transaction(fresh, &transfer) {
                    Ok(transaction) => DispatchAction::Submit { transaction },
                    Err(reason) => DispatchAction::Done {
                        result: TransactionResult::FailedToSend { reason },
                    },
                }
            },
        };
        proof {
            assert(dispatch_rel(transfer_g, *token, action));
        }
        out.push(action);
    }
    out
}

/// Record the caller's observation for one submitted transaction.
pub fn submission_outcome(submission: Submission) -> (r: TransactionResult)
    ensures
        submission_rel(submission, r),
{
    let Submission { outcome, duration_millis } = submission;
    match outcome {
        Ok(signature) => TransactionResult::Sent(SentTransaction { duration_millis, signature }),
        Err(reason) => TransactionResult::FailedToSend { reason },
    }
}

/// Collect one batch's outcomes in order: a locally settled action keeps
/// its recorded result, and each submitted transaction is recorded from
/// the caller's observation at the same position.
pub fn batch_results(actions: Vec<DispatchAction>, submissions: Vec<Option<Submission>>) -> (r:
    Vec<TransactionResult>)
    requires
        actions@.len() == submissions@.len(),
        forall|i: int|
            0 <= i < actions@.len() ==> ((#[trigger] actions@[i]) is Submit <==> submissions@[i]
                is Some),
    ensures
        r@.len() == actions@.len(),
        forall|i: int|
            0 <= i < actions@.len() ==> match actions@[i] {
                DispatchAction::Done { result } => #[trigger] r@[i] == result,
                DispatchAction::Submit { transaction } => submission_rel(
                    submissions@[i]->0,
                    r@[i],
                ),
            },
{
    let ghost act_all = actions@;
    let ghost sub_all = submissions@;
    let mut acts = actions;
    let mut subs = submissions;
    let mut out: Vec<TransactionResult> = Vec::new();
    proof {
        assert(act_all.skip(0) =~= act_all);
        assert(sub_all.skip(0) =~= sub_all);
    }
    while acts.len() > 0
        invariant
            act_all.len() == sub_all.len(),
            out@.len() + acts@.len() == act_all.len(),
            acts@ == act_all.skip(out@.len() as int),
            subs@ == sub_all.skip(out@.len() as int),
            forall|i: int|
                0 <= i < act_all.len() ==> ((#[trigger] act_all[i]) is Submit <==> sub_all[i]
                    is Some),
            forall|i: int|
                0 <= i < out@.len() ==> match act_all[i] {
                    DispatchAction::Done { result } => #[trigger] out@[i] == result,
                    DispatchAction::Submit { transaction } => submission_rel(
                        sub_all[i]->0,
                        out@[i],
                    ),
                },
        decreases acts.len(),
    {
        let ghost n = out@.len() as int;
        proof {
            assert(subs@.len() == sub_all.len() - n);
        }
        let action = acts.remove(0);
        let submission = subs.remove(0);
        let ghost action_g = action;
        let ghost submission_g = submission;
        proof {
            assert(action_g == act_all.skip(n)[0]);
            assert(act_all.skip(n)[0] == act_all[n]);
            assert(submission_g == sub_all.skip(n)[0]);
            assert(sub_all.skip(n)[0] == sub_all[n]);
            assert(acts@ =~= act_all.skip(n + 1));
            assert(subs@ =~= sub_all.skip(n + 1));
        }
        let next = match (action, submission) {
            (DispatchAction::Done { result }, _) => result,
            (DispatchAction::Submit { transaction }, Some(s)) => submission_outcome(s),
            (DispatchAction::Submit { transaction }, None) => {
                proof {
                    assert(false);
                }
                TransactionResult::FailedToSend { reason: String::new() }
            },
        };
        out.push(next);
    }
    out
}

} // verus!
