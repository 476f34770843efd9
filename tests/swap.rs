use amm_pool::{
    initialize_pool, swap, InitializePool, Mint, Pubkey, Swap, SwapError, TokenAccount,
};

fn key(b: u8) -> Pubkey {
    Pubkey::new([b; 32])
}

/// A valid swap of the pool's first mint for its second, with the given
/// vault balances.
fn setup(reserve_a: u64, reserve_b: u64) -> Swap {
    let ctx = InitializePool {
        program_id: key(200),
        token_program: key(201),
        associated_token_program: key(202),
        token_a_mint: key(9),
        token_b_mint: key(3),
    };
    let p = initialize_pool(&ctx).unwrap();
    let user = key(50);
    let a = p.state.token_a_mint;
    let b = p.state.token_b_mint;
    Swap {
        program_id: ctx.program_id,
        pool: p.pool,
        pool_state: p.state,
        pool_authority: p.pool_authority,
        user_source_token_account: TokenAccount { key: key(60), mint: a, owner: user, amount: 10_000 },
        user_destination_token_account: TokenAccount { key: key(61), mint: b, owner: user, amount: 0 },
        token_a_vault: TokenAccount {
            key: p.state.token_a_vault,
            mint: a,
            owner: p.pool_authority,
            amount: reserve_a,
        },
        token_b_vault: TokenAccount {
            key: p.state.token_b_vault,
            mint: b,
            owner: p.pool_authority,
            amount: reserve_b,
        },
        source_mint: Mint { key: a, decimals: 6 },
        destination_mint: Mint { key: b, decimals: 9 },
        user_authority: user,
    }
}

/// The same pool, swapped the other way.
fn reversed(s: Swap) -> Swap {
    Swap {
        user_source_token_account: TokenAccount { mint: s.pool_state.token_b_mint, ..s.user_source_token_account },
        user_destination_token_account: TokenAccount {
            mint: s.pool_state.token_a_mint,
            ..s.user_destination_token_account
        },
        source_mint: Mint { key: s.pool_state.token_b_mint, decimals: 9 },
        destination_mint: Mint { key: s.pool_state.token_a_mint, decimals: 6 },
        ..s
    }
}

#[test]
fn swap_worked_example_succeeds_at_the_exact_minimum() {
    let s = setup(1000, 1000);
    let o = swap(&s, 100, 91).unwrap();
    assert_eq!(o.quote.constant_product, 1_000_000);
    assert_eq!(o.quote.amount_out, 91);
    assert_eq!((o.quote.new_reserve_in, o.quote.new_reserve_out), (1100, 909));
    assert_eq!(o.event.amount_in, 100);
    assert_eq!(o.event.amount_out, 91);
}

#[test]
fn swap_worked_example_refused_above_output() {
    let s = setup(1000, 1000);
    assert_eq!(swap(&s, 100, 92), Err(SwapError::SlippageExceeded));
}

#[test]
fn swap_plans_transfers_in_then_out() {
    let s = setup(1000, 2000);
    let o = swap(&s, 100, 0).unwrap();
    assert_eq!(o.quote.amount_out, 182);
    let t_in = o.transfer_in;
    assert_eq!(t_in.from, s.user_source_token_account.key);
    assert_eq!(t_in.to, s.token_a_vault.key);
    assert_eq!(t_in.mint, s.source_mint.key);
    assert_eq!(t_in.authority, s.user_authority);
    assert_eq!(t_in.amount, 100);
    assert_eq!(t_in.decimals, 6);
    assert!(t_in.signer.is_none());
    let t_out = o.transfer_out;
    assert_eq!(t_out.from, s.token_b_vault.key);
    assert_eq!(t_out.to, s.user_destination_token_account.key);
    assert_eq!(t_out.mint, s.destination_mint.key);
    assert_eq!(t_out.authority, s.pool_authority);
    assert_eq!(t_out.amount, 182);
    assert_eq!(t_out.decimals, 9);
    let signer = t_out.signer.unwrap();
    assert_eq!(signer.address(&s.program_id), Some(s.pool_authority));
    assert_eq!(o.event.pool, s.pool);
    assert_eq!(o.event.user, s.user_authority);
    assert_eq!(o.event.source_mint, s.source_mint.key);
    assert_eq!(o.event.destination_mint, s.destination_mint.key);
}

#[test]
fn swap_the_other_way_uses_the_other_vaults() {
    let s = reversed(setup(1000, 2000));
    let o = swap(&s, 100, 0).unwrap();
    // 2000 in, 1000 out: 2_000_000 / 2100 = 952.
    assert_eq!(o.quote.new_reserve_out, 952);
    assert_eq!(o.quote.amount_out, 48);
    assert_eq!(o.transfer_in.to, s.token_b_vault.key);
    assert_eq!(o.transfer_out.from, s.token_a_vault.key);
    assert_eq!(o.transfer_in.decimals, 9);
    assert_eq!(o.transfer_out.decimals, 6);
}

#[test]
fn swap_zero_amount() {
    assert_eq!(swap(&setup(1000, 1000), 0, 0), Err(SwapError::ZeroAmount));
}

#[test]
fn swap_empty_source_vault() {
    assert_eq!(swap(&setup(0, 1000), 100, 0), Err(SwapError::PoolIsEmpty));
}

#[test]
fn swap_empty_destination_vault() {
    assert_eq!(swap(&setup(1000, 0), 100, 0), Err(SwapError::PoolIsEmpty));
}

#[test]
fn swap_largest_reserves_do_not_overflow() {
    let m = u64::MAX;
    let o = swap(&setup(m, m), m, 0).unwrap();
    assert_eq!(o.quote.constant_product, (m as u128) * (m as u128));
}

#[test]
fn swap_unrecognised_source_mint() {
    let mut s = setup(1000, 1000);
    s.user_source_token_account.mint = key(77);
    s.source_mint.key = key(77);
    assert_eq!(swap(&s, 100, 0), Err(SwapError::InvalidSourceMint));
    // The destination account is not looked at first.
    s.user_destination_token_account.owner = key(99);
    s.user_destination_token_account.mint = key(78);
    assert_eq!(swap(&s, 100, 0), Err(SwapError::InvalidSourceMint));
}

#[test]
fn swap_destination_of_wrong_mint() {
    let mut s = setup(1000, 1000);
    s.user_destination_token_account.mint = s.pool_state.token_a_mint;
    s.destination_mint.key = s.pool_state.token_a_mint;
    assert_eq!(swap(&s, 100, 0), Err(SwapError::InvalidDestinationMint));
}

#[test]
fn swap_source_owned_by_another() {
    let mut s = setup(1000, 1000);
    s.user_source_token_account.owner = key(99);
    assert_eq!(swap(&s, 100, 0), Err(SwapError::InvalidOwner));
}

#[test]
fn swap_destination_owned_by_another() {
    let mut s = setup(1000, 1000);
    s.user_destination_token_account.owner = key(99);
    assert_eq!(swap(&s, 100, 0), Err(SwapError::InvalidOwner));
}

#[test]
fn swap_mint_account_not_the_sources() {
    let mut s = setup(1000, 1000);
    s.source_mint.key = key(77);
    assert_eq!(swap(&s, 100, 0), Err(SwapError::InvalidMint));
}

#[test]
fn swap_vault_not_the_pools() {
    let mut s = setup(1000, 1000);
    s.token_b_vault.key = key(88);
    assert_eq!(swap(&s, 100, 0), Err(SwapError::InvalidVault));
}

#[test]
fn swap_vault_not_held_by_the_authority() {
    let mut s = setup(1000, 1000);
    s.token_a_vault.owner = key(50);
    assert_eq!(swap(&s, 100, 0), Err(SwapError::InvalidVault));
}

#[test]
fn swap_vault_of_wrong_mint() {
    let mut s = setup(1000, 1000);
    s.token_a_vault.mint = key(77);
    assert_eq!(swap(&s, 100, 0), Err(SwapError::InvalidMint));
}

#[test]
fn swap_pool_address_substituted() {
    let mut s = setup(1000, 1000);
    s.pool = key(123);
    assert_eq!(swap(&s, 100, 0), Err(SwapError::AddressMismatch));
}

#[test]
fn swap_authority_substituted() {
    let mut s = setup(1000, 1000);
    s.pool_authority = key(123);
    s.token_a_vault.owner = key(123);
    s.token_b_vault.owner = key(123);
    assert_eq!(swap(&s, 100, 0), Err(SwapError::AddressMismatch));
}

#[test]
fn swap_wrong_bump() {
    let mut s = setup(1000, 1000);
    s.pool_state.bump = s.pool_state.bump.wrapping_sub(1);
    assert_eq!(swap(&s, 100, 0), Err(SwapError::AddressMismatch));
}

#[test]
fn swap_pool_record_in_either_mint_order() {
    let mut s = setup(1000, 1000);
    let st = s.pool_state;
    s.pool_state.token_a_mint = st.token_b_mint;
    s.pool_state.token_b_mint = st.token_a_mint;
    s.pool_state.token_a_vault = st.token_b_vault;
    s.pool_state.token_b_vault = st.token_a_vault;
    let (a, b) = (s.token_a_vault, s.token_b_vault);
    s.token_a_vault = b;
    s.token_b_vault = a;
    let o = swap(&s, 100, 91).unwrap();
    assert_eq!(o.quote.amount_out, 91);
    assert_eq!(o.transfer_out.signer.unwrap().address(&s.program_id), Some(s.pool_authority));
}

#[test]
fn swap_unrecognised_source_mint_before_owner() {
    let mut s = setup(1000, 1000);
    s.user_source_token_account.mint = key(77);
    s.user_source_token_account.owner = key(99);
    assert_eq!(swap(&s, 100, 0), Err(SwapError::InvalidSourceMint));
}
