use vstd::prelude::*;

use crate::digest::HashDigest;
use crate::params::N_MERGES;

verus! {

/// What the simple-signature prover is given: the signer's private key and
/// the message it signs, both hash digests.
#[derive(Clone, Copy, Debug)]
pub struct SimpleSignatureInput {
    pub private_key: HashDigest,
    pub message: HashDigest,
}

/// What the user-transaction prover is given. The sender address and the
/// user's asset root before the transaction are digests; the merge and purge
/// witnesses are Merkle-tree proofs that only the prover reads, carried here as
/// their JSON text.
#[derive(Debug)]
pub struct UserTransactionInput {
    pub sender_address: HashDigest,
    pub merge_witnesses: String,
    pub purge_input_witnesses: String,
    pub purge_output_witnesses: String,
    pub old_user_asset_root: HashDigest,
}

/// The arguments of the simple-signature prover, in the order it takes them.
#[derive(Clone, Copy, Debug)]
pub struct SimpleSignatureProverArgs {
    pub private_key: HashDigest,
    pub message: HashDigest,
}

/// The arguments of the user-transaction prover, in the order it takes them:
/// the sender, the list of merge witnesses, the purge input witnesses, the
/// purge output witnesses and the old asset root.
#[derive(Debug)]
pub struct UserTransactionProverArgs {
    pub sender_address: HashDigest,
    pub merge_witnesses: Vec<String>,
    pub purge_input_witnesses: String,
    pub purge_output_witnesses: String,
    pub old_user_asset_root: HashDigest,
}

/// The simple-signature prover signs the input's message with the input's
/// private key.
pub fn simple_signature_prover_args(input: &SimpleSignatureInput) -> (args:
    SimpleSignatureProverArgs)
    ensures
        args.private_key == input.private_key,
        args.message == input.message,
{
    SimpleSignatureProverArgs { private_key: input.private_key, message: input.message }
}

/// The user-transaction prover gets the input's one merge witness as a list of
/// one, within the `N_MERGES` the circuit allows, and every other field as it
/// stands.
pub fn user_transaction_prover_args(input: UserTransactionInput) -> (args:
    UserTransactionProverArgs)
    ensures
        args.merge_witnesses@.len() == 1,
        args.merge_witnesses@.len() <= N_MERGES,
        args.merge_witnesses@[0]@ == input.merge_witnesses@,
        args.sender_address == input.sender_address,
        args.purge_input_witnesses@ == input.purge_input_witnesses@,
        args.purge_output_witnesses@ == input.purge_output_witnesses@,
        args.old_user_asset_root == input.old_user_asset_root,
{
    let mut merge_witnesses: Vec<String> = Vec::new();
    merge_witnesses.push(input.merge_witnesses);
    UserTransactionProverArgs {
        sender_address: input.sender_address,
        merge_witnesses,
        purge_input_witnesses: input.purge_input_witnesses,
        purge_output_witnesses: input.purge_output_witnesses,
        old_user_asset_root: input.old_user_asset_root,
    }
}

} // verus!
