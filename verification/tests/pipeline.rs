use solana_keypair::Keypair;
use transfer_pipeline::batch::split_batches;
use transfer_pipeline::check::{
    check_outcome, check_transactions, plan_check, CheckAction, StatusFetch,
};
use transfer_pipeline::send::{
    batch_results, dispatch_batch, signed_transaction, submission_outcome, DispatchAction,
    Submission, TokenFetch,
};
use transfer_pipeline::types::{
    SentTransaction, SendTransactions, Task, TransactionResult, TransactionResults, Transfer,
};

fn valid_credential() -> String {
    Keypair::new_from_array([7u8; 32]).to_base58_string()
}

fn valid_destination() -> String {
    // The base58 text of a 32-byte address.
    "11111111111111111111111111111111".to_string()
}

fn valid_signature_text() -> String {
    // The base58 text of 64 signature bytes.
    bs58::encode([1u8; 64]).into_string()
}

fn transfer(amount: u64) -> Transfer {
    Transfer {
        source_base58_private_key: valid_credential(),
        destination_pubkey: valid_destination(),
        lamports: amount,
    }
}

#[test]
fn split_preserves_order_batch_two() {
    let batches = split_batches(vec![10u64, 20, 30, 40, 50], 2);
    assert_eq!(batches, vec![vec![10u64, 20], vec![30, 40], vec![50]]);
}

#[test]
fn split_single_batch_when_size_exceeds_len() {
    let batches = split_batches(vec![1u64, 2, 3], 10);
    assert_eq!(batches, vec![vec![1u64, 2, 3]]);
}

#[test]
fn split_size_one_is_fully_sequential() {
    let batches = split_batches(vec![1u64, 2, 3], 1);
    assert_eq!(batches, vec![vec![1u64], vec![2], vec![3]]);
}

#[test]
fn split_empty_input() {
    let batches = split_batches(Vec::<u64>::new(), 3);
    assert_eq!(batches, Vec::<Vec<u64>>::new());
}

#[test]
fn signed_transaction_accepts_valid_transfer() {
    let r = signed_transaction(&solana_hash::Hash::default(), &transfer(5));
    assert!(r.is_ok());
}

#[test]
fn signed_transaction_rejects_bad_credential() {
    let t = Transfer {
        source_base58_private_key: "!!!not-base58!!!".to_string(),
        destination_pubkey: valid_destination(),
        lamports: 5,
    };
    assert!(signed_transaction(&solana_hash::Hash::default(), &t).is_err());
}

#[test]
fn signed_transaction_rejects_bad_destination() {
    let t = Transfer {
        source_base58_private_key: valid_credential(),
        destination_pubkey: "short".to_string(),
        lamports: 5,
    };
    assert!(signed_transaction(&solana_hash::Hash::default(), &t).is_err());
}

#[test]
fn malformed_credential_fails_without_submission() {
    let t = Transfer {
        source_base58_private_key: "0OIl".to_string(),
        destination_pubkey: valid_destination(),
        lamports: 1,
    };
    let token = TokenFetch::Token { token: solana_hash::Hash::default() };
    let actions = dispatch_batch(vec![t], &token);
    assert_eq!(actions.len(), 1);
    // No transaction was produced, so no submission can be attempted.
    assert!(matches!(
        actions[0],
        DispatchAction::Done { result: TransactionResult::FailedToSend { .. } }
    ));
}

#[test]
fn token_fetch_failure_fails_whole_batch_with_its_error() {
    let token = TokenFetch::Failed { error: "gateway down".to_string() };
    let actions = dispatch_batch(vec![transfer(1), transfer(2)], &token);
    assert_eq!(actions.len(), 2);
    for action in &actions {
        match action {
            DispatchAction::Done { result: TransactionResult::FailedToSend { reason } } => {
                assert_eq!(reason, "gateway down");
            }
            _ => panic!("expected a local failure"),
        }
    }
}

#[test]
fn submission_outcome_records_sent_and_failed() {
    let sent = submission_outcome(Submission {
        outcome: Ok("sig".to_string()),
        duration_millis: 42,
    });
    assert_eq!(
        sent,
        TransactionResult::Sent(SentTransaction {
            duration_millis: 42,
            signature: "sig".to_string(),
        })
    );
    let failed = submission_outcome(Submission {
        outcome: Err("rejected".to_string()),
        duration_millis: 9,
    });
    assert_eq!(failed, TransactionResult::FailedToSend { reason: "rejected".to_string() });
}

/// Dispatch three transfers with batch size two against a gateway that
/// always succeeds: two sent from the first batch, one from the second,
/// order preserved.
#[test]
fn dispatch_three_transfers_batch_of_two() {
    let input = SendTransactions {
        rpc_url: "http://gateway.example".to_string(),
        batch_size: 2,
        transfers: vec![transfer(1), transfer(2), transfer(3)],
    };
    let batches = split_batches(input.transfers, input.batch_size);
    assert_eq!(batches.len(), 2);
    assert_eq!(batches[0].len(), 2);
    assert_eq!(batches[1].len(), 1);

    let mut results: Vec<TransactionResult> = Vec::new();
    let mut counter = 0;
    for batch in batches {
        let token = TokenFetch::Token { token: solana_hash::Hash::default() };
        let actions = dispatch_batch(batch, &token);
        let mut submissions = Vec::new();
        for action in &actions {
            match action {
                DispatchAction::Submit { .. } => {
                    counter += 1;
                    submissions.push(Some(Submission {
                        outcome: Ok(format!("sig{counter}")),
                        duration_millis: 7,
                    }));
                }
                DispatchAction::Done { .. } => submissions.push(None),
            }
        }
        results.extend(batch_results(actions, submissions));
    }
    assert_eq!(results.len(), 3);
    for (i, result) in results.iter().enumerate() {
        match result {
            TransactionResult::Sent(tx) => assert_eq!(tx.signature, format!("sig{}", i + 1)),
            _ => panic!("expected every submission to be accepted"),
        }
    }
}

/// A token fetch that fails on the middle batch of three leaves the other
/// batches unaffected.
#[test]
fn batch_isolation_on_token_failure() {
    let batches = split_batches(vec![transfer(1), transfer(2), transfer(3)], 1);
    assert_eq!(batches.len(), 3);
    let tokens = [
        TokenFetch::Token { token: solana_hash::Hash::default() },
        TokenFetch::Failed { error: "stale".to_string() },
        TokenFetch::Token { token: solana_hash::Hash::default() },
    ];
    let mut results: Vec<TransactionResult> = Vec::new();
    for (batch, token) in batches.into_iter().zip(tokens) {
        let actions = dispatch_batch(batch, &token);
        let submissions = actions
            .iter()
            .map(|action| match action {
                DispatchAction::Submit { .. } => Some(Submission {
                    outcome: Ok("accepted".to_string()),
                    duration_millis: 1,
                }),
                DispatchAction::Done { .. } => None,
            })
            .collect();
        results.extend(batch_results(actions, submissions));
    }
    assert!(matches!(results[0], TransactionResult::Sent(_)));
    assert_eq!(results[1], TransactionResult::FailedToSend { reason: "stale".to_string() });
    assert!(matches!(results[2], TransactionResult::Sent(_)));
}

#[test]
fn malformed_signature_is_terminal_without_query() {
    let pre = TransactionResult::Sent(SentTransaction {
        duration_millis: 3,
        signature: "!!!".to_string(),
    });
    // The plan keeps a terminal failure: no status query is owed.
    match plan_check(pre) {
        CheckAction::Keep { result: TransactionResult::Failed { signature, reason } } => {
            assert_eq!(signature, "!!!");
            assert_eq!(reason, "invalid signature");
        }
        _ => panic!("expected a terminal failure, not a query"),
    }
}

#[test]
fn usable_signature_is_queried() {
    let signature = valid_signature_text();
    let pre = TransactionResult::Unknown {
        signature: signature.clone(),
        details: "old".to_string(),
    };
    match plan_check(pre) {
        CheckAction::Query { signature: s } => assert_eq!(s, signature),
        _ => panic!("expected a query"),
    }
}

#[test]
fn check_outcome_maps_each_answer() {
    let sig = || "s".to_string();
    assert_eq!(
        check_outcome(sig(), StatusFetch::Failed { error: "net".to_string() }),
        TransactionResult::Unknown { signature: sig(), details: "net".to_string() }
    );
    assert_eq!(
        check_outcome(sig(), StatusFetch::NoStatus),
        TransactionResult::Unknown { signature: sig(), details: "no status".to_string() }
    );
    assert_eq!(
        check_outcome(sig(), StatusFetch::Status { level: "processed".to_string() }),
        TransactionResult::WithStatus { signature: sig(), status: "processed".to_string() }
    );
}

/// Confirming an envelope in which every outcome is absorbing returns the
/// identical envelope.
#[test]
fn confirm_is_idempotent_on_absorbing_envelope() {
    let envelope = TransactionResults {
        rpc_url: "http://gateway.example".to_string(),
        batch_size: 2,
        results: vec![
            TransactionResult::FailedToSend { reason: "bad key".to_string() },
            TransactionResult::Failed {
                signature: "zzz".to_string(),
                reason: "invalid signature".to_string(),
            },
        ],
    };
    let fetches = vec![StatusFetch::NoStatus, StatusFetch::NoStatus];
    let out = check_transactions(envelope.clone(), fetches);
    assert_eq!(out, envelope);
}

/// An indeterminate entry that receives a successful status answer becomes
/// confirmed, and a confirmed entry advances to a newly fetched status.
#[test]
fn repolling_advances_status() {
    let sig = valid_signature_text();
    let envelope = TransactionResults {
        rpc_url: "http://gateway.example".to_string(),
        batch_size: 1,
        results: vec![
            TransactionResult::Unknown { signature: sig.clone(), details: "no status".to_string() },
            TransactionResult::WithStatus {
                signature: sig.clone(),
                status: "processed".to_string(),
            },
        ],
    };
    let fetches = vec![
        StatusFetch::Status { level: "confirmed".to_string() },
        StatusFetch::Status { level: "finalized".to_string() },
    ];
    let out = check_transactions(envelope, fetches);
    assert_eq!(
        out.results,
        vec![
            TransactionResult::WithStatus { signature: sig.clone(), status: "confirmed".to_string() },
            TransactionResult::WithStatus { signature: sig, status: "finalized".to_string() },
        ]
    );
}

/// Confirm an envelope of one sent transaction where the gateway knows no
/// status yet, then confirm the output again once the gateway reports
/// "finalized".
#[test]
fn confirm_scenarios_no_status_then_finalized() {
    let sig = valid_signature_text();
    let envelope = TransactionResults {
        rpc_url: "http://gateway.example".to_string(),
        batch_size: 1,
        results: vec![TransactionResult::Sent(SentTransaction {
            duration_millis: 12,
            signature: sig.clone(),
        })],
    };
    let first = check_transactions(envelope, vec![StatusFetch::NoStatus]);
    assert_eq!(
        first.results,
        vec![TransactionResult::Unknown {
            signature: sig.clone(),
            details: "no status".to_string(),
        }]
    );
    let second = check_transactions(
        first,
        vec![StatusFetch::Status { level: "finalized".to_string() }],
    );
    assert_eq!(
        second.results,
        vec![TransactionResult::WithStatus { signature: sig, status: "finalized".to_string() }]
    );
    assert_eq!(second.rpc_url, "http://gateway.example");
    assert_eq!(second.batch_size, 1);
}

#[test]
fn query_failure_is_indeterminate_and_repollable() {
    let sig = valid_signature_text();
    let envelope = TransactionResults {
        rpc_url: "u".to_string(),
        batch_size: 1,
        results: vec![TransactionResult::Sent(SentTransaction {
            duration_millis: 1,
            signature: sig.clone(),
        })],
    };
    let out = check_transactions(
        envelope,
        vec![StatusFetch::Failed { error: "timeout".to_string() }],
    );
    assert_eq!(
        out.results,
        vec![TransactionResult::Unknown { signature: sig, details: "timeout".to_string() }]
    );
}

#[test]
fn task_roundtrip_holds_both_stages() {
    let send = Task::SendTransactions(SendTransactions {
        rpc_url: "u".to_string(),
        batch_size: 1,
        transfers: vec![transfer(1)],
    });
    let confirm = Task::TransactionResults(TransactionResults {
        rpc_url: "u".to_string(),
        batch_size: 1,
        results: vec![],
    });
    assert!(matches!(send, Task::SendTransactions(_)));
    assert!(matches!(confirm, Task::TransactionResults(_)));
}
