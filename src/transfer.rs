use vstd::prelude::*;
use crate::derivation::PoolSigner;
use crate::error::SwapError;
use crate::pubkey::Pubkey;

verus! {

/// A token account as read from the ledger.
#[derive(Clone, Copy, Debug, PartialEq, Eq)]
pub struct TokenAccount {
    pub key: Pubkey,
    pub mint: Pubkey,
    pub owner: Pubkey,
    pub amount: u64,
}

/// A mint as read from the ledger.
#[derive(Clone, Copy, Debug, PartialEq, Eq)]
pub struct Mint {
    pub key: Pubkey,
    pub decimals: u8,
}

/// A request to the token program to move `amount` base units of `mint`
/// from `from` to `to`, checked against `decimals`. It is authorised by a
/// signature of `authority`, or, where `signer` is set, by the pool authority's
/// seeds.
#[derive(Clone, Copy, Debug, PartialEq, Eq)]
pub struct TransferChecked {
    pub from: Pubkey,
    pub mint: Pubkey,
    pub to: Pubkey,
    pub authority: Pubkey,
    pub amount: u64,
    pub decimals: u8,
    pub signer: Option<PoolSigner>,
}

/// The accounts of a plain transfer between two token accounts.
#[derive(Clone, Copy, Debug, PartialEq, Eq)]
pub struct ProcessTransaction {
    pub sender_token_account: TokenAccount,
    pub sender_token_account_mint: Mint,
    pub receiver_token_account: TokenAccount,
    pub authority: Pubkey,
}

/// The record of a plain transfer: the sending and receiving token accounts
/// and the amount.
#[derive(Clone, Copy, Debug, PartialEq, Eq)]
pub struct TransactionEvent {
    pub from: Pubkey,
    pub to: Pubkey,
    pub amount: u64,
}

/// A checked plain transfer: the request to carry out, and its record.
#[derive(Clone, Copy, Debug, PartialEq, Eq)]
pub struct TransactionPlan {
    pub transfer: TransferChecked,
    pub event: TransactionEvent,
}

/// The outcome of a plain transfer: the sender's account must belong to the
/// signer and be of the given mint, and the receiver's account of that mint too.
pub open spec fn process_transaction_result(ctx: ProcessTransaction, amount: u64) -> Result<
    TransactionPlan,
    SwapError,
> {
    let mint = ctx.sender_token_account_mint;
    if ctx.sender_token_account.owner@ != ctx.authority@ {
        Err(SwapError::InvalidOwner)
    } else if ctx.sender_token_account.mint@ != mint.key@ {
        Err(SwapError::InvalidMint)
    } else if ctx.receiver_token_account.mint@ != mint.key@ {
        Err(SwapError::InvalidMint)
    } else {
        Ok(
            TransactionPlan {
                transfer: TransferChecked {
                    from: ctx.sender_token_account.key,
                    mint: mint.key,
                    to: ctx.receiver_token_account.key,
                    authority: ctx.authority,
                    amount,
                    decimals: mint.decimals,
                    signer: None,
                },
                event: TransactionEvent {
                    from: ctx.sender_token_account.key,
                    to: ctx.receiver_token_account.key,
                    amount,
                },
            },
        )
    }
}

/// Checks the accounts of a plain transfer of `amount` and plans it.
pub fn process_transaction(ctx: &ProcessTransaction, amount: u64) -> (r: Result<
    TransactionPlan,
    SwapError,
>)
    ensures
        r == process_transaction_result(*ctx, amount),
{
    let mint = ctx.sender_token_account_mint;
    if !ctx.sender_token_account.owner.key_eq(&ctx.authority) {
        return Err(SwapError::InvalidOwner);
    }
    if !ctx.sender_token_account.mint.key_eq(&mint.key) {
        return Err(SwapError::InvalidMint);
    }
    if !ctx.receiver_token_account.mint.key_eq(&mint.key) {
        return Err(SwapError::InvalidMint);
    }
    Ok(
        TransactionPlan {
            transfer: TransferChecked {
                from: ctx.sender_token_account.key,
                mint: mint.key,
                to: ctx.receiver_token_account.key,
                authority: ctx.authority,
                amount,
                decimals: mint.decimals,
                signer: None,
            },
            event: TransactionEvent {
                from: ctx.sender_token_account.key,
                to: ctx.receiver_token_account.key,
                amount,
            },
        },
    )
}

} // verus!
