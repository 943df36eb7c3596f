//! The trusted boundary towards the ledger SDK: the opaque SDK types that
//! flow through the pipeline, and the few SDK calls the logic makes.
//!
//! Everything here is believed, not proved.  Each item names the outside
//! function it relies on.  The validity of a credential, of a destination
//! address and of a signature string are pure functions of the text alone,
//! so they are given uninterpreted names that the wrappers' contracts and
//! the verified callers share.

use core::str::FromStr;
use solana_signer::Signer;
use vstd::prelude::*;

verus! {

/// The SDK's signing keypair, opaque to the proofs.
#[verifier::external_type_specification]
#[verifier::external_body]
pub struct ExKeypair(solana_keypair::Keypair);

/// The SDK's 32-byte ledger address, opaque to the proofs.
#[verifier::external_type_specification]
#[verifier::external_body]
pub struct ExPubkey(solana_pubkey::Pubkey);

/// The SDK's hash value, used here as the freshness token, opaque to the
/// proofs.
#[verifier::external_type_specification]
#[verifier::external_body]
pub struct ExHash(solana_hash::Hash);

/// The SDK's signed transaction, opaque to the proofs; it is carried from
/// the signing step to the caller's submission untouched.
#[verifier::external_type_specification]
#[verifier::external_body]
pub struct ExTransaction(solana_transaction::Transaction);

/// Whether a credential string decodes (base58, keypair length) to a
/// well-formed signing keypair.  A pure function of the characters alone.
pub uninterp spec fn valid_credential(s: Seq<char>) -> bool;

/// Whether an address string decodes (base58, 32 bytes) to a ledger address.
pub uninterp spec fn valid_pubkey(s: Seq<char>) -> bool;

/// Whether a signature string decodes (base58, 64 bytes) to a transaction
/// signature usable for a status query.
pub uninterp spec fn valid_signature(s: Seq<char>) -> bool;

/// Relies on `bs58::decode(..).onto(..)` and `Keypair::try_from(&[u8])`:
/// together they accept exactly the strings that decode to keypair bytes
/// whose public half matches the secret half.  That acceptance is what
/// `valid_credential` names; neither call panics.
#[verifier::external_body]
pub(crate) fn keypair_from_base58(private_key: &String) -> (r: Result<
    solana_keypair::Keypair,
    String,
>)
    ensures
        r is Ok <==> valid_credential(private_key@),
{
    let mut buf = [0u8; 64];
    if let Err(e) = bs58::decode(private_key.as_str()).onto(&mut buf) {
        return Err(e.to_string());
    }
    solana_keypair::Keypair::try_from(&buf[..]).map_err(|e| e.to_string())
}

/// Relies on `Pubkey::from_str`: it accepts exactly the base58 strings of a
/// 32-byte address, which is what `valid_pubkey` names; it does not panic.
#[verifier::external_body]
pub(crate) fn pubkey_from_str(addr: &String) -> (r: Result<solana_pubkey::Pubkey, String>)
    ensures
        r is Ok <==> valid_pubkey(addr@),
{
    solana_pubkey::Pubkey::from_str(addr.as_str()).map_err(|e| e.to_string())
}

/// Relies on `Signature::from_str`: it accepts exactly the base58 strings of
/// a 64-byte signature, which is what `valid_signature` names; it does not
/// panic.
#[verifier::external_body]
pub(crate) fn signature_is_valid(signature: &String) -> (r: bool)
    ensures
        r == valid_signature(signature@),
{
    solana_signature::Signature::from_str(signature.as_str()).is_ok()
}

/// Relies on `system_interface::instruction::transfer`, `Message::new` and
/// `Transaction::new`: they build and sign a single-instruction transfer of
/// `lamports` from the sender's address to `destination`, against the given
/// freshness token.  `Transaction::new` panics only when a signer cannot
/// sign for an account of the message; here the only signer is the sender
/// and the message's payer is the sender's own address, so it never panics.
#[verifier::external_body]
pub(crate) fn build_signed_transfer(
    sender: &solana_keypair::Keypair,
    destination: &solana_pubkey::Pubkey,
    lamports: u64,
    token: &solana_hash::Hash,
) -> (r: solana_transaction::Transaction) {
    let instruction = solana_system_interface::instruction::transfer(
        &sender.pubkey(),
        destination,
        lamports,
    );
    let message = solana_message::Message::new(&[instruction], Some(&sender.pubkey()));
    solana_transaction::Transaction::new(core::slice::from_ref(sender), message, token.clone())
}

} // verus!
