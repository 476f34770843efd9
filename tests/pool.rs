use amm_pool::{check_supplied_accounts, initialize_pool, InitializePool, Pubkey, SwapError};
use anchor_lang::prelude::Pubkey as LedgerKey;

fn key(b: u8) -> Pubkey {
    Pubkey::new([b; 32])
}

fn ledger(k: &Pubkey) -> LedgerKey {
    LedgerKey::new_from_array(k.bytes)
}

fn init_ctx(x: Pubkey, y: Pubkey) -> InitializePool {
    InitializePool {
        program_id: key(200),
        token_program: Pubkey::new(anchor_spl::token::ID.to_bytes()),
        associated_token_program: Pubkey::new(anchor_spl::associated_token::ID.to_bytes()),
        token_a_mint: x,
        token_b_mint: y,
    }
}

#[test]
fn initialize_pool_either_order_is_one_pool() {
    let p = initialize_pool(&init_ctx(key(9), key(3))).unwrap();
    let q = initialize_pool(&init_ctx(key(3), key(9))).unwrap();
    assert_eq!(p, q);
    assert_eq!(p.state.token_a_mint, key(3));
    assert_eq!(p.state.token_b_mint, key(9));
}

#[test]
fn initialize_pool_refuses_a_single_mint() {
    assert_eq!(initialize_pool(&init_ctx(key(3), key(3))), Err(SwapError::InvalidMint));
}

#[test]
fn initialize_pool_addresses_match_the_ledger() {
    let ctx = init_ctx(key(9), key(3));
    let p = initialize_pool(&ctx).unwrap();
    let program = ledger(&ctx.program_id);
    let lo = [3u8; 32];
    let hi = [9u8; 32];
    let (pool, bump) = LedgerKey::find_program_address(&[b"pool", &lo, &hi], &program);
    assert_eq!(p.pool.bytes, pool.to_bytes());
    assert_eq!(p.state.bump, bump);
    let (authority, authority_bump) =
        LedgerKey::find_program_address(&[b"pool", &lo, &hi, &[bump]], &program);
    assert_eq!(p.pool_authority.bytes, authority.to_bytes());
    assert_eq!(p.state.authority_bump, authority_bump);
    let signer = LedgerKey::create_program_address(&[b"pool", &lo, &hi, &[bump], &[authority_bump]], &program).unwrap();
    assert_eq!(signer, authority);
}

#[test]
fn initialize_pool_vaults_are_associated_token_accounts() {
    let ctx = init_ctx(key(9), key(3));
    let p = initialize_pool(&ctx).unwrap();
    let authority = ledger(&p.pool_authority);
    let token_program = ledger(&ctx.token_program);
    let a = anchor_spl::associated_token::get_associated_token_address_with_program_id(
        &authority,
        &ledger(&key(3)),
        &token_program,
    );
    let b = anchor_spl::associated_token::get_associated_token_address_with_program_id(
        &authority,
        &ledger(&key(9)),
        &token_program,
    );
    assert_eq!(p.state.token_a_vault.bytes, a.to_bytes());
    assert_eq!(p.state.token_b_vault.bytes, b.to_bytes());
    assert_ne!(p.state.token_a_vault, p.state.token_b_vault);
}

#[test]
fn pool_signer_signs_for_the_authority() {
    let ctx = init_ctx(key(1), key(2));
    let p = initialize_pool(&ctx).unwrap();
    let signer = amm_pool::PoolSigner {
        mint_lo: p.state.token_a_mint,
        mint_hi: p.state.token_b_mint,
        pool_bump: p.state.bump,
        authority_bump: p.state.authority_bump,
    };
    assert_eq!(signer.address(&ctx.program_id), Some(p.pool_authority));
    let seeds = signer.seeds();
    assert_eq!(seeds.len(), 5);
    assert_eq!(seeds[0], b"pool".to_vec());
    assert_eq!(seeds[3], vec![p.state.bump]);
    assert_eq!(seeds[4], vec![p.state.authority_bump]);
}

#[test]
fn pool_account_size_holds_the_record() {
    assert_eq!(amm_pool::POOL_ACCOUNT_SIZE, 8 + 4 * 32 + 4 + 64);
}

#[test]
fn supplied_accounts_accepted_in_the_callers_mint_order() {
    // The caller names key(9) first; its vault is the record's second.
    let ctx = init_ctx(key(9), key(3));
    let p = initialize_pool(&ctx).unwrap();
    let st = p.state;
    assert_eq!(
        check_supplied_accounts(&ctx, &p, &p.pool, &p.pool_authority, &st.token_b_vault, &st.token_a_vault),
        Ok(())
    );
    assert_eq!(
        check_supplied_accounts(&ctx, &p, &p.pool, &p.pool_authority, &st.token_a_vault, &st.token_b_vault),
        Err(SwapError::AddressMismatch)
    );
}

#[test]
fn supplied_accounts_substituted_are_refused() {
    let ctx = init_ctx(key(3), key(9));
    let p = initialize_pool(&ctx).unwrap();
    let st = p.state;
    let (a, b) = (st.token_a_vault, st.token_b_vault);
    assert_eq!(check_supplied_accounts(&ctx, &p, &p.pool, &p.pool_authority, &a, &b), Ok(()));
    assert_eq!(
        check_supplied_accounts(&ctx, &p, &key(1), &p.pool_authority, &a, &b),
        Err(SwapError::AddressMismatch)
    );
    assert_eq!(
        check_supplied_accounts(&ctx, &p, &p.pool, &key(1), &a, &b),
        Err(SwapError::AddressMismatch)
    );
    assert_eq!(
        check_supplied_accounts(&ctx, &p, &p.pool, &p.pool_authority, &a, &key(1)),
        Err(SwapError::AddressMismatch)
    );
}
