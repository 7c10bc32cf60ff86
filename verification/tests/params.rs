use wasm_client::digest::{HashDigest, GOLDILOCKS_ORDER};
use wasm_client::inputs::{SimpleSignatureInput, UserTransactionInput};
use wasm_client::params::{
    N_BLOCKS, N_DEPOSITS, N_DIFFS, N_LOG_CONTRACTS, N_LOG_MAX_CONTRACTS, N_LOG_MAX_TXS,
    N_LOG_MAX_USERS, N_LOG_MAX_VARIABLES, N_LOG_RECIPIENTS, N_LOG_TXS, N_LOG_VARIABLES, N_MERGES,
    N_TXS,
};

#[test]
fn transaction_count_is_two_to_its_log() {
    assert_eq!(N_TXS, 2usize.pow(N_LOG_TXS as u32));
    assert_eq!(N_TXS, 4);
}

#[test]
fn circuit_parameters() {
    assert_eq!(
        [
            N_LOG_MAX_USERS,
            N_LOG_MAX_TXS,
            N_LOG_MAX_CONTRACTS,
            N_LOG_MAX_VARIABLES,
            N_LOG_TXS,
            N_LOG_RECIPIENTS,
            N_LOG_CONTRACTS,
            N_LOG_VARIABLES,
            N_DIFFS,
            N_MERGES,
        ],
        [3, 3, 3, 3, 2, 3, 3, 3, 2, 2]
    );
    assert_eq!(N_DEPOSITS, 2);
    assert_eq!(N_BLOCKS, 2);
}

#[test]
fn goldilocks_order() {
    assert_eq!(GOLDILOCKS_ORDER as u128, (1u128 << 64) - (1u128 << 32) + 1);
}

#[test]
fn zero_digest_has_zero_elements() {
    assert_eq!(HashDigest::zero().elements, [0u64; 4]);
}

#[test]
fn inputs_hold_their_digests() {
    let key = HashDigest {
        elements: [
            17426287337377512978,
            8703645504073070742,
            11984317793392655464,
            9979414176933652180,
        ],
    };
    let input = SimpleSignatureInput {
        private_key: key,
        message: HashDigest::zero(),
    };
    assert_eq!(input.private_key.elements, key.elements);
    assert!(key.elements.iter().all(|e| *e < GOLDILOCKS_ORDER));
    let tx = UserTransactionInput {
        sender_address: key,
        merge_witnesses: "[]".to_string(),
        purge_input_witnesses: "[]".to_string(),
        purge_output_witnesses: "[]".to_string(),
        old_user_asset_root: HashDigest::zero(),
    };
    assert_eq!(tx.sender_address.elements, key.elements);
}
