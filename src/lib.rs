//! A constant-product token-pair exchange: pool initialisation bound to
//! program-derived addresses, and swap validation and pricing.

pub mod derivation;
pub mod error;
pub mod pool;
pub mod pricing;
pub mod pubkey;
pub mod swap;
pub mod transfer;

pub use derivation::PoolSigner;
pub use error::SwapError;
pub use pool::{check_supplied_accounts, initialize_pool, InitializePool, LiquidityPool, PoolAccounts, POOL_ACCOUNT_SIZE};
pub use pricing::{quote_swap, SwapQuote};
pub use pubkey::{canonical_pair, Pubkey};
pub use swap::{swap, Swap, SwapEvent, SwapOutcome};
pub use transfer::{
    process_transaction, Mint, ProcessTransaction, TokenAccount, TransactionEvent,
    TransactionPlan, TransferChecked,
};
