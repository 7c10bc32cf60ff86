use vstd::prelude::*;

use crate::inputs::{
    simple_signature_prover_args, user_transaction_prover_args, SimpleSignatureInput,
    SimpleSignatureProverArgs, UserTransactionInput, UserTransactionProverArgs,
};

verus! {

/// What an entry point learns from the work done outside it: whether its JSON
/// input parsed, and into what; then whether the prover succeeded.
pub enum ProverEvent<I> {
    Loaded(Option<I>),
    Proved(bool),
}

/// What an entry point does next: call the prover with these arguments,
/// return the prover's proof as JSON, or panic with this message.
pub enum ProverAction<A> {
    CallProver(A),
    ReturnProof,
    Panic(String),
}

/// The decisions of the simple-signature entry point. An input that does not
/// parse panics with "failed loading simple signature json"; a parsed input
/// goes to the prover with its private key and message; a failed proof panics
/// with "prove failed: prove_simple_signature"; a proof is returned.
pub fn prove_simple_signature(event: ProverEvent<SimpleSignatureInput>) -> (action: ProverAction<
    SimpleSignatureProverArgs,
>)
    ensures
        match event {
            ProverEvent::Loaded(None) => action matches ProverAction::Panic(msg)
                && msg@ == "failed loading simple signature json"@,
            ProverEvent::Loaded(Some(input)) => action matches ProverAction::CallProver(args)
                && args.private_key == input.private_key && args.message == input.message,
            ProverEvent::Proved(true) => action is ReturnProof,
            ProverEvent::Proved(false) => action matches ProverAction::Panic(msg)
                && msg@ == "prove failed: prove_simple_signature"@,
        },
{
    match event {
        ProverEvent::Loaded(None) => ProverAction::Panic(
            String::from_str("failed loading simple signature json"),
        ),
        ProverEvent::Loaded(Some(input)) => ProverAction::CallProver(
            simple_signature_prover_args(&input),
        ),
        ProverEvent::Proved(true) => ProverAction::ReturnProof,
        ProverEvent::Proved(false) => ProverAction::Panic(
            String::from_str("prove failed: prove_simple_signature"),
        ),
    }
}

/// The decisions of the user-transaction entry point. An input that does not
/// parse panics with "failed loading user transaction json"; a parsed input
/// goes to the prover with its sender, its one merge witness as a list of one,
/// its purge input and output witnesses and its old asset root; a failed proof
/// panics with "prove failed: prove_user_transaction"; a proof is returned.
pub fn prove_user_transaction(event: ProverEvent<UserTransactionInput>) -> (action: ProverAction<
    UserTransactionProverArgs,
>)
    ensures
        match event {
            ProverEvent::Loaded(None) => action matches ProverAction::Panic(msg)
                && msg@ == "failed loading user transaction json"@,
            ProverEvent::Loaded(Some(input)) => action matches ProverAction::CallProver(args)
                && args.sender_address == input.sender_address
                && args.merge_witnesses@.len() == 1
                && args.merge_witnesses@[0]@ == input.merge_witnesses@
                && args.purge_input_witnesses@ == input.purge_input_witnesses@
                && args.purge_output_witnesses@ == input.purge_output_witnesses@
                && args.old_user_asset_root == input.old_user_asset_root,
            ProverEvent::Proved(true) => action is ReturnProof,
            ProverEvent::Proved(false) => action matches ProverAction::Panic(msg)
                && msg@ == "prove failed: prove_user_transaction"@,
        },
{
    match event {
        ProverEvent::Loaded(None) => ProverAction::Panic(
            String::from_str("failed loading user transaction json"),
        ),
        ProverEvent::Loaded(Some(input)) => ProverAction::CallProver(
            user_transaction_prover_args(input),
        ),
        ProverEvent::Proved(true) => ProverAction::ReturnProof,
        ProverEvent::Proved(false) => ProverAction::Panic(
            String::from_str("prove failed: prove_user_transaction"),
        ),
    }
}

} // verus!
