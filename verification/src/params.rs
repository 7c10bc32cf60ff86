use vstd::prelude::*;
use vstd::arithmetic::power2::pow2;

verus! {

/// Log2 of the largest number of users the rollup circuits accept.
pub const N_LOG_MAX_USERS: usize = 3;

/// Log2 of the largest number of transactions per block.
pub const N_LOG_MAX_TXS: usize = 3;

/// Log2 of the largest number of contracts.
pub const N_LOG_MAX_CONTRACTS: usize = 3;

/// Log2 of the largest number of variables per contract.
pub const N_LOG_MAX_VARIABLES: usize = 3;

/// Log2 of the number of transactions a user proof covers.
pub const N_LOG_TXS: usize = 2;

/// Log2 of the number of recipients.
pub const N_LOG_RECIPIENTS: usize = 3;

/// Log2 of the number of contracts a transaction touches.
pub const N_LOG_CONTRACTS: usize = 3;

/// Log2 of the number of variables a transaction touches.
pub const N_LOG_VARIABLES: usize = 3;

/// Number of deposits per block.
pub const N_DEPOSITS: usize = 2;

/// Number of asset differences a user proof purges.
pub const N_DIFFS: usize = 2;

/// Number of merges a user proof performs.
pub const N_MERGES: usize = 2;

/// Number of transactions a user proof covers: two to the power `N_LOG_TXS`.
pub const N_TXS: usize = 1usize << N_LOG_TXS;

/// Number of blocks.
pub const N_BLOCKS: usize = 2;

/// The transaction count is two to the power of its logarithm.
pub proof fn lemma_n_txs_is_pow2()
    ensures
        N_TXS == pow2(N_LOG_TXS as nat),
        N_TXS == 4,
{
    assert(1usize << 2usize == 4usize) by (bit_vector);
    vstd::arithmetic::power2::lemma2_to64();
}

} // verus!
