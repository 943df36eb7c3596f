//! The confirmer: a state machine over recorded outcomes.  Absorbing
//! outcomes pass through unchanged; every other outcome exposes a signature,
//! which is either unusable (terminal failure) or polled against the
//! gateway.  The caller performs the status queries and feeds the answers
//! back; the transition itself is verified for every possible answer.

use crate::ledger::valid_signature;
use crate::types::{is_absorbing, poll_signature, TransactionResult, TransactionResults};
use vstd::prelude::*;

verus! {

/// The gateway's answer to one status query.
#[derive(Clone, Debug, PartialEq, Eq)]
pub enum StatusFetch {
    /// The query itself failed (network or RPC error).
    Failed { error: String },
    /// The query succeeded but the ledger knows no status yet.
    NoStatus,
    /// The query succeeded with a confirmation level, an opaque string that
    /// this component does not interpret.
    Status { level: String },
}

/// What to do with one recorded outcome: keep a replacement that is already
/// final for this pass, or query the gateway for a signature's status.
#[derive(Clone, Debug, PartialEq, Eq)]
pub enum CheckAction {
    Keep { result: TransactionResult },
    Query { signature: String },
}

/// The confirmation level carried by a successful status fetch.
pub open spec fn fetched_level(fetch: StatusFetch) -> Seq<char> {
    match fetch {
        StatusFetch::Status { level } => level@,
        _ => Seq::empty(),
    }
}

/// The status string of a confirmed outcome.
pub open spec fn status_of(r: TransactionResult) -> Seq<char> {
    match r {
        TransactionResult::WithStatus { signature, status } => status@,
        _ => Seq::empty(),
    }
}

/// How one confirmation pass replaces a recorded outcome, given the
/// gateway's answer to its status query (ignored where no query is owed).
pub open spec fn check_rel(
    pre: TransactionResult,
    fetch: StatusFetch,
    post: TransactionResult,
) -> bool {
    if is_absorbing(pre) {
        post == pre
    } else if !valid_signature(poll_signature(pre)) {
        &&& post matches TransactionResult::Failed { signature, reason }
        &&& signature@ == poll_signature(pre)
        &&& reason@ == "invalid signature"@
    } else {
        match fetch {
            StatusFetch::Failed { error } => {
                &&& post matches TransactionResult::Unknown { signature, details }
                &&& signature@ == poll_signature(pre)
                &&& details == error
            },
            StatusFetch::NoStatus => {
                &&& post matches TransactionResult::Unknown { signature, details }
                &&& signature@ == poll_signature(pre)
                &&& details@ == "no status"@
            },
            StatusFetch::Status { level } => {
                &&& post matches TransactionResult::WithStatus { signature, status }
                &&& signature@ == poll_signature(pre)
                &&& status == level
            },
        }
    }
}

/// Decide whether a signature can be polled: a parseable signature is
/// queried, an unusable one is a terminal failure that no later pass will
/// touch again.
fn plan_poll(signature: String) -> (r: CheckAction)
    ensures
        valid_signature(signature@) ==> r == (CheckAction::Query { signature }),
        !valid_signature(signature@) ==> (r matches CheckAction::Keep { result } && (
        result matches TransactionResult::Failed { signature: s, reason } && s == signature
            && reason@ == "invalid signature"@)),
{
    if crate::ledger::signature_is_valid(&signature) {
        CheckAction::Query { signature }
    } else {
        let reason = "invalid signature".to_owned();
        CheckAction::Keep { result: TransactionResult::Failed { signature, reason } }
    }
}

/// Decide the confirmation step for one recorded outcome: absorbing
/// outcomes are kept as they are, all others expose their signature to
/// `plan_poll`.  No status query is owed for an outcome that is kept.
pub fn plan_check(result: TransactionResult) -> (r: CheckAction)
    ensures
        is_absorbing(result) ==> r == (CheckAction::Keep { result }),
        !is_absorbing(result) && valid_signature(poll_signature(result)) ==> (
        r matches CheckAction::Query { signature } && signature@ == poll_signature(result)),
        !is_absorbing(result) && !valid_signature(poll_signature(result)) ==> (
        r matches CheckAction::Keep { result: kept } && (
        kept matches TransactionResult::Failed { signature, reason } && signature@
            == poll_signature(result) && reason@ == "invalid signature"@)),
{
    match result {
        TransactionResult::FailedToSend { reason } => CheckAction::Keep {
            result: TransactionResult::FailedToSend { reason },
        },
        TransactionResult::Failed { signature, reason } => CheckAction::Keep {
            result: TransactionResult::Failed { signature, reason },
        },
        TransactionResult::Unknown { signature, details } => plan_poll(signature),
        TransactionResult::WithStatus { signature, status } => plan_poll(signature),
        TransactionResult::Sent(tx) => plan_poll(tx.signature),
    }
}

/// Turn the gateway's answer for one queried signature into the replacement
/// outcome: a failed query or a missing status is indeterminate (worth
/// re-polling), a fetched level is recorded as the new confirmation status.
pub fn check_outcome(signature: String, fetch: StatusFetch) -> (r: TransactionResult)
    ensures
        fetch matches StatusFetch::Failed { error } ==> r == (TransactionResult::Unknown {
            signature,
            details: error,
        }),
        fetch is NoStatus ==> (r matches TransactionResult::Unknown { signature: s, details } && s
            == signature && details@ == "no status"@),
        fetch matches StatusFetch::Status { level } ==> r == (TransactionResult::WithStatus {
            signature,
            status: level,
        }),
{
    match fetch {
        StatusFetch::Failed { error } => TransactionResult::Unknown { signature, details: error },
        StatusFetch::NoStatus => TransactionResult::Unknown {
            signature,
            details: "no status".to_owned(),
        },
        StatusFetch::Status { level } => TransactionResult::WithStatus {
            signature,
            status: level,
        },
    }
}

/// One whole confirmation pass over an envelope, given the gateway's answer
/// for each position (the answer at a position is ignored where the outcome
/// there is absorbing or its signature unusable).  The envelope's endpoint
/// and batch size are preserved, and each outcome is replaced per
/// `check_rel`, in place, so output order equals input order.
pub fn check_transactions(input: TransactionResults, fetches: Vec<StatusFetch>) -> (r:
    TransactionResults)
    requires
        fetches@.len() == input.results@.len(),
    ensures
        r.rpc_url == input.rpc_url,
        r.batch_size == input.batch_size,
        r.results@.len() == input.results@.len(),
        forall|i: int|
            0 <= i < input.results@.len() ==> check_rel(
                input.results@[i],
                fetches@[i],
                #[trigger] r.results@[i],
            ),
{
    let ghost pre_all = input.results@;
    let ghost fetch_all = fetches@;
    let TransactionResults { rpc_url, batch_size, results } = input;
    let mut rest = results;
    let mut answers = fetches;
    let mut out: Vec<TransactionResult> = Vec::new();
    proof {
        assert(pre_all.skip(0) =~= pre_all);
        assert(fetch_all.skip(0) =~= fetch_all);
    }
    while rest.len() > 0
        invariant
            pre_all.len() == fetch_all.len(),
            out@.len() + rest@.len() == pre_all.len(),
            rest@ == pre_all.skip(out@.len() as int),
            answers@ == fetch_all.skip(out@.len() as int),
            forall|i: int|
                0 <= i < out@.len() ==> check_rel(pre_all[i], fetch_all[i], #[trigger] out@[i]),
        decreases rest.len(),
    {
        let ghost n = out@.len() as int;
        proof {
            assert(answers@.len() == fetch_all.len() - n);
        }
        let pre = rest.remove(0);
        let fetch = answers.remove(0);
        let ghost pre_g = pre;
        let ghost fetch_g = fetch;
        proof {
            assert(pre_g == pre_all.skip(n)[0]);
            assert(pre_all.skip(n)[0] == pre_all[n]);
            assert(fetch_g == fetch_all.skip(n)[0]);
            assert(fetch_all.skip(n)[0] == fetch_all[n]);
            assert(rest@ =~= pre_all.skip(n + 1));
            assert(answers@ =~= fetch_all.skip(n + 1));
        }
        let next = match plan_check(pre) {
            CheckAction::Keep { result } => result,
            CheckAction::Query { signature } => check_outcome(signature, fetch),
        };
        proof {
            assert(check_rel(pre_g, fetch_g, next));
        }
        out.push(next);
    }
    TransactionResults { rpc_url, batch_size, results: out }
}

/// Idempotence: a confirmation pass over an envelope in which every outcome
/// is already absorbing returns the outcomes unchanged, whatever the
/// gateway would have answered.
pub proof fn lemma_confirm_idempotent(
    pre: Seq<TransactionResult>,
    fetches: Seq<StatusFetch>,
    post: Seq<TransactionResult>,
)
    requires
        post.len() == pre.len(),
        forall|i: int| 0 <= i < pre.len() ==> check_rel(pre[i], fetches[i], #[trigger] post[i]),
        forall|i: int| 0 <= i < pre.len() ==> is_absorbing(#[trigger] pre[i]),
    ensures
        post == pre,
{
    assert(post =~= pre);
}

/// Re-pollability: where an indeterminate or already-confirmed outcome with
/// a usable signature receives a successful status fetch, the replacement
/// is a confirmation carrying the same signature and the fetched level; a
/// prior confirmation does not block advancement to a new status.
pub proof fn lemma_repoll_advances(
    pre: TransactionResult,
    fetch: StatusFetch,
    post: TransactionResult,
)
    requires
        check_rel(pre, fetch, post),
        pre is Unknown || pre is WithStatus || pre is Sent,
        valid_signature(poll_signature(pre)),
        fetch is Status,
    ensures
        post is WithStatus,
        poll_signature(post) == poll_signature(pre),
        status_of(post) == fetched_level(fetch),
{
}

} // verus!
