use vstd::prelude::*;
use crate::derivation::{authority_seeds, create_pda, create_pool_address, PoolSigner};
use crate::error::SwapError;
use crate::pool::{pool_rederives, LiquidityPool, PoolModel};
use crate::pricing::{quote_result, quote_swap, SwapQuote};
use crate::pubkey::{canonical_keys, canonical_pair, Pubkey};
use crate::transfer::{Mint, TokenAccount, TransferChecked};

verus! {

/// The accounts of a swap, read fresh from the ledger at the start of the
/// instruction; the two vault balances are the reserves that the trade is
/// priced against.
#[derive(Clone, Copy, Debug, PartialEq, Eq)]
pub struct Swap {
    /// The program that owns the pool.
    pub program_id: Pubkey,
    /// The pool account's address.
    pub pool: Pubkey,
    /// The pool account's record.
    pub pool_state: LiquidityPool,
    pub pool_authority: Pubkey,
    pub user_source_token_account: TokenAccount,
    pub user_destination_token_account: TokenAccount,
    pub token_a_vault: TokenAccount,
    pub token_b_vault: TokenAccount,
    pub source_mint: Mint,
    pub destination_mint: Mint,
    pub user_authority: Pubkey,
}

/// The record of a swap.
#[derive(Clone, Copy, Debug, PartialEq, Eq)]
pub struct SwapEvent {
    pub pool: Pubkey,
    pub user: Pubkey,
    pub amount_in: u64,
    pub amount_out: u64,
    pub source_mint: Pubkey,
    pub destination_mint: Pubkey,
}

/// An accepted swap: its pricing, the two transfers to carry out in order
/// (into the pool, then out of it), and its record. After both transfers the
/// vaults hold `quote.new_reserve_in` and `quote.new_reserve_out`.
#[derive(Clone, Copy, Debug, PartialEq, Eq)]
pub struct SwapOutcome {
    pub quote: SwapQuote,
    pub transfer_in: TransferChecked,
    pub transfer_out: TransferChecked,
    pub event: SwapEvent,
}

/// The pool account and its authority are the addresses that the pool's
/// canonical mint pair and stored bumps derive.
pub open spec fn addresses_rederive(s: Swap) -> bool {
    let (lo, hi) = canonical_keys(s.pool_state.token_a_mint, s.pool_state.token_b_mint);
    &&& create_pda(authority_seeds(lo@, hi@, s.pool_state.bump), s.program_id@) == Some(s.pool@)
    &&& create_pda(
        authority_seeds(lo@, hi@, s.pool_state.bump).push(seq![s.pool_state.authority_bump]),
        s.program_id@,
    ) == Some(s.pool_authority@)
}

/// The vaults supplied are the pool's, held by its authority, of its mints.
pub open spec fn vault_error(s: Swap) -> Option<SwapError> {
    let p = s.pool_state;
    if s.token_a_vault.key@ != p.token_a_vault@ || s.token_b_vault.key@ != p.token_b_vault@ {
        Some(SwapError::InvalidVault)
    } else if s.token_a_vault.owner@ != s.pool_authority@ || s.token_b_vault.owner@
        != s.pool_authority@ {
        Some(SwapError::InvalidVault)
    } else if s.token_a_vault.mint@ != p.token_a_mint@ || s.token_b_vault.mint@
        != p.token_b_mint@ {
        Some(SwapError::InvalidMint)
    } else {
        None
    }
}

/// Whether the user pays in the pool's first mint (else its second).
pub open spec fn pays_in_a(s: Swap) -> bool {
    s.user_source_token_account.mint@ == s.pool_state.token_a_mint@
}

/// The vault that receives the user's tokens.
pub open spec fn source_vault(s: Swap) -> TokenAccount {
    if pays_in_a(s) {
        s.token_a_vault
    } else {
        s.token_b_vault
    }
}

/// The vault that pays the user.
pub open spec fn destination_vault(s: Swap) -> TokenAccount {
    if pays_in_a(s) {
        s.token_b_vault
    } else {
        s.token_a_vault
    }
}

/// The user's accounts: the source account is of one of the pool's mints and
/// is the user's; the destination account is the user's and of the other
/// vault's mint; the mint accounts are those of the user's accounts.
pub open spec fn user_error(s: Swap) -> Option<SwapError> {
    let source = s.user_source_token_account;
    let destination = s.user_destination_token_account;
    if source.mint@ != s.pool_state.token_a_mint@ && source.mint@ != s.pool_state.token_b_mint@ {
        Some(SwapError::InvalidSourceMint)
    } else if source.owner@ != s.user_authority@ {
        Some(SwapError::InvalidOwner)
    } else if destination.owner@ != s.user_authority@ {
        Some(SwapError::InvalidOwner)
    } else if destination.mint@ != destination_vault(s).mint@ {
        Some(SwapError::InvalidDestinationMint)
    } else if s.source_mint.key@ != source.mint@ || s.destination_mint.key@ != destination.mint@ {
        Some(SwapError::InvalidMint)
    } else {
        None
    }
}

/// The first account check that fails, in the order: pool and authority
/// addresses, vaults, user accounts.
pub open spec fn accounts_error(s: Swap) -> Option<SwapError> {
    if !addresses_rederive(s) {
        Some(SwapError::AddressMismatch)
    } else if vault_error(s) is Some {
        vault_error(s)
    } else {
        user_error(s)
    }
}

/// What an accepted swap does, given its quote.
pub open spec fn swap_outcome(s: Swap, amount_in: u64, q: SwapQuote) -> SwapOutcome {
    let (lo, hi) = canonical_keys(s.pool_state.token_a_mint, s.pool_state.token_b_mint);
    SwapOutcome {
        quote: q,
        transfer_in: TransferChecked {
            from: s.user_source_token_account.key,
            mint: s.source_mint.key,
            to: source_vault(s).key,
            authority: s.user_authority,
            amount: amount_in,
            decimals: s.source_mint.decimals,
            signer: None,
        },
        transfer_out: TransferChecked {
            from: destination_vault(s).key,
            mint: s.destination_mint.key,
            to: s.user_destination_token_account.key,
            authority: s.pool_authority,
            amount: q.amount_out,
            decimals: s.destination_mint.decimals,
            signer: Some(
                PoolSigner {
                    mint_lo: lo,
                    mint_hi: hi,
                    pool_bump: s.pool_state.bump,
                    authority_bump: s.pool_state.authority_bump,
                },
            ),
        },
        event: SwapEvent {
            pool: s.pool,
            user: s.user_authority,
            amount_in,
            amount_out: q.amount_out,
            source_mint: s.source_mint.key,
            destination_mint: s.destination_mint.key,
        },
    }
}

/// The outcome of a swap: the first failing account check; else the pricing
/// against the two vault balances; else a slippage refusal; else the trade.
pub open spec fn swap_result(s: Swap, amount_in: u64, min_amount_out: u64) -> Result<
    SwapOutcome,
    SwapError,
> {
    match accounts_error(s) {
        Some(e) => Err(e),
        None => match quote_result(source_vault(s).amount, destination_vault(s).amount, amount_in) {
            Err(e) => Err(e),
            Ok(q) => if q.amount_out < min_amount_out {
                Err(SwapError::SlippageExceeded)
            } else {
                Ok(swap_outcome(s, amount_in, q))
            },
        },
    }
}

fn check_addresses(s: &Swap) -> (r: bool)
    ensures
        r == addresses_rederive(*s),
{
    let (lo, hi) = canonical_pair(&s.pool_state.token_a_mint, &s.pool_state.token_b_mint);
    let pool = match create_pool_address(&s.program_id, &lo, &hi, s.pool_state.bump) {
        Some(k) => k,
        None => return false,
    };
    if !pool.key_eq(&s.pool) {
        return false;
    }
    let signer = PoolSigner {
        mint_lo: lo,
        mint_hi: hi,
        pool_bump: s.pool_state.bump,
        authority_bump: s.pool_state.authority_bump,
    };
    match signer.address(&s.program_id) {
        Some(k) => k.key_eq(&s.pool_authority),
        None => false,
    }
}

fn check_vaults(s: &Swap) -> (r: Option<SwapError>)
    ensures
        r == vault_error(*s),
{
    let p = &s.pool_state;
    if !s.token_a_vault.key.key_eq(&p.token_a_vault) || !s.token_b_vault.key.key_eq(
        &p.token_b_vault,
    ) {
        return Some(SwapError::InvalidVault);
    }
    if !s.token_a_vault.owner.key_eq(&s.pool_authority) || !s.token_b_vault.owner.key_eq(
        &s.pool_authority,
    ) {
        return Some(SwapError::InvalidVault);
    }
    if !s.token_a_vault.mint.key_eq(&p.token_a_mint) || !s.token_b_vault.mint.key_eq(
        &p.token_b_mint,
    ) {
        return Some(SwapError::InvalidMint);
    }
    None
}

fn check_user_accounts(s: &Swap) -> (r: Option<SwapError>)
    ensures
        r == user_error(*s),
{
    let source = &s.user_source_token_account;
    let destination = &s.user_destination_token_account;
    let in_a = source.mint.key_eq(&s.pool_state.token_a_mint);
    if !in_a && !source.mint.key_eq(&s.pool_state.token_b_mint) {
        return Some(SwapError::InvalidSourceMint);
    }
    if !source.owner.key_eq(&s.user_authority) {
        return Some(SwapError::InvalidOwner);
    }
    if !destination.owner.key_eq(&s.user_authority) {
        return Some(SwapError::InvalidOwner);
    }
    let destination_vault_mint = if in_a {
        &s.token_b_vault.mint
    } else {
        &s.token_a_vault.mint
    };
    if !destination.mint.key_eq(destination_vault_mint) {
        return Some(SwapError::InvalidDestinationMint);
    }
    if !s.source_mint.key.key_eq(&source.mint) || !s.destination_mint.key.key_eq(
        &destination.mint,
    ) {
        return Some(SwapError::InvalidMint);
    }
    None
}

/// Checks the accounts of a swap of `amount_in`, prices it against the vault
/// balances and, unless it pays out less than `min_amount_out`, plans the
/// transfer in, the transfer out and the record.
pub fn swap(ctx: &Swap, amount_in: u64, min_amount_out: u64) -> (r: Result<SwapOutcome, SwapError>)
    ensures
        r == swap_result(*ctx, amount_in, min_amount_out),
{
    if !check_addresses(ctx) {
        return Err(SwapError::AddressMismatch);
    }
    match check_vaults(ctx) {
        Some(e) => return Err(e),
        None => {},
    }
    match check_user_accounts(ctx) {
        Some(e) => return Err(e),
        None => {},
    }
    let in_a = ctx.user_source_token_account.mint.key_eq(&ctx.pool_state.token_a_mint);
    let (source_vault, destination_vault) = if in_a {
        (&ctx.token_a_vault, &ctx.token_b_vault)
    } else {
        (&ctx.token_b_vault, &ctx.token_a_vault)
    };
    let quote = match quote_swap(source_vault.amount, destination_vault.amount, amount_in) {
        Ok(q) => q,
        Err(e) => return Err(e),
    };
    if quote.amount_out < min_amount_out {
        return Err(SwapError::SlippageExceeded);
    }
    let (lo, hi) = canonical_pair(&ctx.pool_state.token_a_mint, &ctx.pool_state.token_b_mint);
    Ok(
        SwapOutcome {
            quote,
            transfer_in: TransferChecked {
                from: ctx.user_source_token_account.key,
                mint: ctx.source_mint.key,
                to: source_vault.key,
                authority: ctx.user_authority,
                amount: amount_in,
                decimals: ctx.source_mint.decimals,
                signer: None,
            },
            transfer_out: TransferChecked {
                from: destination_vault.key,
                mint: ctx.destination_mint.key,
                to: ctx.user_destination_token_account.key,
                authority: ctx.pool_authority,
                amount: quote.amount_out,
                decimals: ctx.destination_mint.decimals,
                signer: Some(
                    PoolSigner {
                        mint_lo: lo,
                        mint_hi: hi,
                        pool_bump: ctx.pool_state.bump,
                        authority_bump: ctx.pool_state.authority_bump,
                    },
                ),
            },
            event: SwapEvent {
                pool: ctx.pool,
                user: ctx.user_authority,
                amount_in,
                amount_out: quote.amount_out,
                source_mint: ctx.source_mint.key,
                destination_mint: ctx.destination_mint.key,
            },
        },
    )
}

/// A swap of nothing through valid accounts against a stocked pool is
/// refused as a zero amount, before any pricing.
pub proof fn lemma_zero_amount_refused(s: Swap, min_amount_out: u64)
    requires
        accounts_error(s) is None,
        s.token_a_vault.amount > 0,
        s.token_b_vault.amount > 0,
    ensures
        swap_result(s, 0, min_amount_out) == Err::<SwapOutcome, SwapError>(SwapError::ZeroAmount),
{
}

/// A swap through valid accounts against a pool with an empty vault is
/// refused as an empty pool.
pub proof fn lemma_empty_pool_refused(s: Swap, amount_in: u64, min_amount_out: u64)
    requires
        accounts_error(s) is None,
        s.token_a_vault.amount == 0 || s.token_b_vault.amount == 0,
    ensures
        swap_result(s, amount_in, min_amount_out) == Err::<SwapOutcome, SwapError>(
            SwapError::PoolIsEmpty,
        ),
{
}

/// A swap whose priced output is below the caller's minimum is refused, and
/// so plans no transfer.
pub proof fn lemma_slippage_refused(s: Swap, amount_in: u64, min_amount_out: u64)
    requires
        accounts_error(s) is None,
        quote_result(source_vault(s).amount, destination_vault(s).amount, amount_in) is Ok,
        quote_result(source_vault(s).amount, destination_vault(s).amount, amount_in)->Ok_0.amount_out
            < min_amount_out,
    ensures
        swap_result(s, amount_in, min_amount_out) == Err::<SwapOutcome, SwapError>(
            SwapError::SlippageExceeded,
        ),
{
}

/// A swap from an account of neither of the pool's mints is refused as an
/// unrecognised source mint, whatever the destination account is.
pub proof fn lemma_unrecognised_source_refused(
    s: Swap,
    destination: TokenAccount,
    destination_mint: Mint,
    amount_in: u64,
    min_amount_out: u64,
)
    requires
        addresses_rederive(s),
        vault_error(s) is None,
        s.user_source_token_account.mint@ != s.pool_state.token_a_mint@,
        s.user_source_token_account.mint@ != s.pool_state.token_b_mint@,
    ensures
        swap_result(
            Swap {
                user_destination_token_account: destination,
                destination_mint: destination_mint,
                ..s
            },
            amount_in,
            min_amount_out,
        ) == Err::<SwapOutcome, SwapError>(SwapError::InvalidSourceMint),
{
}

/// With 64-bit reserves and amounts the 128-bit pricing never leaves its
/// range: no swap fails with an overflow.
pub proof fn lemma_no_overflow(s: Swap, amount_in: u64, min_amount_out: u64)
    ensures
        swap_result(s, amount_in, min_amount_out) != Err::<SwapOutcome, SwapError>(
            SwapError::CalculationOverflow,
        ),
{
}

/// A swap over a pool as `initialize_pool` made it passes the address checks:
/// creation and swap derive the pool and its authority from one canonical
/// order of the mints.
pub proof fn lemma_initialized_pool_rederives(s: Swap, m: PoolModel)
    requires
        pool_rederives(m, s.program_id@),
        s.pool@ == m.pool,
        s.pool_authority@ == m.pool_authority,
        s.pool_state.token_a_mint@ == m.token_a_mint,
        s.pool_state.token_b_mint@ == m.token_b_mint,
        s.pool_state.bump == m.bump,
        s.pool_state.authority_bump == m.authority_bump,
    ensures
        addresses_rederive(s),
{
}

} // verus!
