use vstd::prelude::*;
use crate::derivation::{
    authority_seeds, create_pda, find_pda, find_pool_address, find_pool_authority, find_vault, pool_seeds,
    vault_seeds,
};
use crate::error::SwapError;
use crate::pubkey::{
    canonical, canonical_pair, lemma_canonical_symmetric, lemma_lex_total, lex_lt, Pubkey,
};

verus! {

/// The persistent record of one pool.
///
/// The mints are held in canonical order, so that a pair asked for in either
/// order is one pool. The vaults are the associated token accounts of the pool
/// authority for the two mints; the bumps re-derive the pool, its authority and
/// its vaults.
#[derive(Clone, Copy, Debug, PartialEq, Eq)]
pub struct LiquidityPool {
    pub token_a_mint: Pubkey,
    pub token_b_mint: Pubkey,
    pub token_a_vault: Pubkey,
    pub token_b_vault: Pubkey,
    /// Bump of the pool account's address.
    pub bump: u8,
    /// Bump of the pool authority's address.
    pub authority_bump: u8,
    pub vault_a_bump: u8,
    pub vault_b_bump: u8,
}

/// Bytes reserved for a pool record: an 8-byte header, four keys, the four
/// bumps, and slack for fields to come. Fixed when the account is created.
pub const POOL_ACCOUNT_SIZE: usize = 8 + 32 * 4 + 4 + 64;

/// What a new pool is created from: the program that owns it, the token
/// program and the associated token program that hold its vaults, and the two
/// mints, in any order.
#[derive(Clone, Copy, Debug, PartialEq, Eq)]
pub struct InitializePool {
    pub program_id: Pubkey,
    pub token_program: Pubkey,
    pub associated_token_program: Pubkey,
    pub token_a_mint: Pubkey,
    pub token_b_mint: Pubkey,
}

/// A new pool: its address, its authority and its record.
#[derive(Clone, Copy, Debug, PartialEq, Eq)]
pub struct PoolAccounts {
    pub pool: Pubkey,
    pub pool_authority: Pubkey,
    pub state: LiquidityPool,
}

/// The addresses and bumps of a pool, as byte sequences.
pub struct PoolModel {
    pub pool: Seq<u8>,
    pub pool_authority: Seq<u8>,
    pub token_a_mint: Seq<u8>,
    pub token_b_mint: Seq<u8>,
    pub token_a_vault: Seq<u8>,
    pub token_b_vault: Seq<u8>,
    pub bump: u8,
    pub authority_bump: u8,
    pub vault_a_bump: u8,
    pub vault_b_bump: u8,
}

impl View for PoolAccounts {
    type V = PoolModel;

    open spec fn view(&self) -> PoolModel {
        PoolModel {
            pool: self.pool@,
            pool_authority: self.pool_authority@,
            token_a_mint: self.state.token_a_mint@,
            token_b_mint: self.state.token_b_mint@,
            token_a_vault: self.state.token_a_vault@,
            token_b_vault: self.state.token_b_vault@,
            bump: self.state.bump,
            authority_bump: self.state.authority_bump,
            vault_a_bump: self.state.vault_a_bump,
            vault_b_bump: self.state.vault_b_bump,
        }
    }
}

/// The pool of a mint pair: refused for a pair of one mint; otherwise the pool
/// address is derived from the canonical pair, the authority from the pool's
/// seeds and bump, and each vault as the authority's associated token account.
pub open spec fn initialize_pool_result(
    program_id: Seq<u8>,
    token_program: Seq<u8>,
    associated_token_program: Seq<u8>,
    mint_x: Seq<u8>,
    mint_y: Seq<u8>,
) -> Result<PoolModel, SwapError> {
    if mint_x == mint_y {
        Err(SwapError::InvalidMint)
    } else {
        let (lo, hi) = canonical(mint_x, mint_y);
        match find_pda(pool_seeds(lo, hi), program_id) {
            None => Err(SwapError::AddressMismatch),
            Some((pool, bump)) => match find_pda(authority_seeds(lo, hi, bump), program_id) {
                None => Err(SwapError::AddressMismatch),
                Some((authority, authority_bump)) => match find_pda(
                    vault_seeds(authority, token_program, lo),
                    associated_token_program,
                ) {
                    None => Err(SwapError::AddressMismatch),
                    Some((vault_a, vault_a_bump)) => match find_pda(
                        vault_seeds(authority, token_program, hi),
                        associated_token_program,
                    ) {
                        None => Err(SwapError::AddressMismatch),
                        Some((vault_b, vault_b_bump)) => Ok(
                            PoolModel {
                                pool,
                                pool_authority: authority,
                                token_a_mint: lo,
                                token_b_mint: hi,
                                token_a_vault: vault_a,
                                token_b_vault: vault_b,
                                bump,
                                authority_bump,
                                vault_a_bump,
                                vault_b_bump,
                            },
                        ),
                    },
                },
            },
        }
    }
}

/// The pool's mints are in canonical order, and its pool account and
/// authority are the addresses that its stored bumps re-derive.
pub open spec fn pool_rederives(m: PoolModel, program_id: Seq<u8>) -> bool {
    &&& !lex_lt(m.token_b_mint, m.token_a_mint)
    &&& create_pda(authority_seeds(m.token_a_mint, m.token_b_mint, m.bump), program_id) == Some(
        m.pool,
    )
    &&& create_pda(
        authority_seeds(m.token_a_mint, m.token_b_mint, m.bump).push(seq![m.authority_bump]),
        program_id,
    ) == Some(m.pool_authority)
}

/// Derives a new pool for the two mints of `ctx`: its address, its authority,
/// its two vaults and the record that binds them.
pub fn initialize_pool(ctx: &InitializePool) -> (r: Result<PoolAccounts, SwapError>)
    ensures
        match r {
            Ok(p) => initialize_pool_result(
                ctx.program_id@,
                ctx.token_program@,
                ctx.associated_token_program@,
                ctx.token_a_mint@,
                ctx.token_b_mint@,
            ) == Ok::<PoolModel, SwapError>(p@),
            Err(e) => initialize_pool_result(
                ctx.program_id@,
                ctx.token_program@,
                ctx.associated_token_program@,
                ctx.token_a_mint@,
                ctx.token_b_mint@,
            ) == Err::<PoolModel, SwapError>(e),
        },
        r matches Ok(p) ==> pool_rederives(p@, ctx.program_id@),
{
    if ctx.token_a_mint.key_eq(&ctx.token_b_mint) {
        return Err(SwapError::InvalidMint);
    }
    let (lo, hi) = canonical_pair(&ctx.token_a_mint, &ctx.token_b_mint);
    let (pool, bump) = match find_pool_address(&ctx.program_id, &ctx.token_a_mint, &ctx.token_b_mint) {
        Some(found) => found,
        None => return Err(SwapError::AddressMismatch),
    };
    proof {
        lemma_lex_total(ctx.token_a_mint@, ctx.token_b_mint@);
    }
    let (pool_authority, authority_bump) = match find_pool_authority(
        &ctx.program_id,
        &lo,
        &hi,
        bump,
    ) {
        Some(found) => found,
        None => return Err(SwapError::AddressMismatch),
    };
    let (token_a_vault, vault_a_bump) = match find_vault(
        &ctx.associated_token_program,
        &pool_authority,
        &ctx.token_program,
        &lo,
    ) {
        Some(found) => found,
        None => return Err(SwapError::AddressMismatch),
    };
    let (token_b_vault, vault_b_bump) = match find_vault(
        &ctx.associated_token_program,
        &pool_authority,
        &ctx.token_program,
        &hi,
    ) {
        Some(found) => found,
        None => return Err(SwapError::AddressMismatch),
    };
    Ok(
        PoolAccounts {
            pool,
            pool_authority,
            state: LiquidityPool {
                token_a_mint: lo,
                token_b_mint: hi,
                token_a_vault,
                token_b_vault,
                bump,
                authority_bump,
                vault_a_bump,
                vault_b_bump,
            },
        },
    )
}

/// A pool asked for as `(x, y)` and as `(y, x)` is the same pool: the same
/// address, authority, vaults and record.
pub proof fn lemma_initialize_pool_symmetric(
    program_id: Seq<u8>,
    token_program: Seq<u8>,
    associated_token_program: Seq<u8>,
    mint_x: Seq<u8>,
    mint_y: Seq<u8>,
)
    requires
        mint_x.len() == 32,
        mint_y.len() == 32,
    ensures
        initialize_pool_result(
            program_id,
            token_program,
            associated_token_program,
            mint_x,
            mint_y,
        ) == initialize_pool_result(
            program_id,
            token_program,
            associated_token_program,
            mint_y,
            mint_x,
        ),
{
    lemma_canonical_symmetric(mint_x, mint_y);
}

/// The accounts supplied to create a pool are the derived ones: `pool` and
/// `pool_authority` as derived, `vault_x` the vault of `ctx.token_a_mint` and
/// `vault_y` that of `ctx.token_b_mint`.
pub open spec fn supplied_accounts_match(
    ctx: InitializePool,
    derived: PoolAccounts,
    pool: Pubkey,
    pool_authority: Pubkey,
    vault_x: Pubkey,
    vault_y: Pubkey,
) -> bool {
    let (vault_lo, vault_hi) = if ctx.token_a_mint@ == derived.state.token_a_mint@ {
        (vault_x, vault_y)
    } else {
        (vault_y, vault_x)
    };
    &&& pool@ == derived.pool@
    &&& pool_authority@ == derived.pool_authority@
    &&& vault_lo@ == derived.state.token_a_vault@
    &&& vault_hi@ == derived.state.token_b_vault@
}

/// Re-verifies the accounts supplied to create a pool against those that
/// `initialize_pool` derived: refused with `AddressMismatch` exactly where
/// one of them is another account.
pub fn check_supplied_accounts(
    ctx: &InitializePool,
    derived: &PoolAccounts,
    pool: &Pubkey,
    pool_authority: &Pubkey,
    vault_x: &Pubkey,
    vault_y: &Pubkey,
) -> (r: Result<(), SwapError>)
    ensures
        r is Ok <==> supplied_accounts_match(
            *ctx,
            *derived,
            *pool,
            *pool_authority,
            *vault_x,
            *vault_y,
        ),
        r is Err ==> r == Err::<(), SwapError>(SwapError::AddressMismatch),
{
    let (vault_lo, vault_hi) = if ctx.token_a_mint.key_eq(&derived.state.token_a_mint) {
        (vault_x, vault_y)
    } else {
        (vault_y, vault_x)
    };
    if pool.key_eq(&derived.pool) && pool_authority.key_eq(&derived.pool_authority)
        && vault_lo.key_eq(&derived.state.token_a_vault) && vault_hi.key_eq(
        &derived.state.token_b_vault,
    ) {
        Ok(())
    } else {
        Err(SwapError::AddressMismatch)
    }
}

} // verus!
