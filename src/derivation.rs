use vstd::prelude::*;
use crate::pubkey::{canonical, canonical_pair, Pubkey};

verus! {

/// The address that the runtime derives from `seeds` for `program_id`, if
/// the seeds are admissible and the hash lies off the curve.
pub uninterp spec fn create_pda(seeds: Seq<Seq<u8>>, program_id: Seq<u8>) -> Option<Seq<u8>>;

/// The first admissible bump, searched from 255 down, with the address that
/// it gives.
pub uninterp spec fn find_pda(seeds: Seq<Seq<u8>>, program_id: Seq<u8>) -> Option<(Seq<u8>, u8)>;

/// Relies on solana_program's `Pubkey::create_program_address`: hashes the
/// seeds and the program id; refuses seeds over the limits and hashes that
/// lie on the curve. The result depends on its arguments alone.
#[verifier::external_body]
fn create_program_address(seeds: &Vec<Vec<u8>>, program_id: &Pubkey) -> (r: Option<Pubkey>)
    ensures
        match r {
            Some(k) => create_pda(seeds.deep_view(), program_id@) == Some(k@),
            None => create_pda(seeds.deep_view(), program_id@) is None,
        },
{
    let refs: Vec<&[u8]> = seeds.iter().map(|s| s.as_slice()).collect();
    let program = anchor_lang::prelude::Pubkey::new_from_array(program_id.bytes);
    anchor_lang::prelude::Pubkey::create_program_address(&refs, &program).ok().map(
        |k| Pubkey { bytes: k.to_bytes() },
    )
}

/// Relies on solana_program's `Pubkey::try_find_program_address`: it appends
/// each bump from 255 down to the seeds and returns the first address that
/// `create_program_address` accepts, with that bump.
#[verifier::external_body]
fn try_find_program_address(seeds: &Vec<Vec<u8>>, program_id: &Pubkey) -> (r: Option<(Pubkey, u8)>)
    ensures
        match r {
            Some((k, b)) => {
                &&& find_pda(seeds.deep_view(), program_id@) == Some((k@, b))
                &&& create_pda(seeds.deep_view().push(seq![b]), program_id@) == Some(k@)
            },
            None => find_pda(seeds.deep_view(), program_id@) is None,
        },
{
    let refs: Vec<&[u8]> = seeds.iter().map(|s| s.as_slice()).collect();
    let program = anchor_lang::prelude::Pubkey::new_from_array(program_id.bytes);
    anchor_lang::prelude::Pubkey::try_find_program_address(&refs, &program).map(
        |(k, b)| (Pubkey { bytes: k.to_bytes() }, b),
    )
}

/// The seed prefix of every pool address: the bytes of "pool".
pub open spec fn pool_prefix() -> Seq<u8> {
    seq![112u8, 111u8, 111u8, 108u8]
}

/// Seeds of the pool account of a canonically ordered pair.
pub open spec fn pool_seeds(lo: Seq<u8>, hi: Seq<u8>) -> Seq<Seq<u8>> {
    seq![pool_prefix(), lo, hi]
}

/// Seeds of the pool authority: the pool's seeds and the pool's bump.
pub open spec fn authority_seeds(lo: Seq<u8>, hi: Seq<u8>, pool_bump: u8) -> Seq<Seq<u8>> {
    pool_seeds(lo, hi).push(seq![pool_bump])
}

/// Seeds of a vault: the associated token account of `owner` for `mint`
/// under `token_program`.
pub open spec fn vault_seeds(owner: Seq<u8>, token_program: Seq<u8>, mint: Seq<u8>) -> Seq<
    Seq<u8>,
> {
    seq![owner, token_program, mint]
}

fn key_bytes(k: &Pubkey) -> (r: Vec<u8>)
    ensures
        r@ == k@,
        r.deep_view() == k@,
{
    let mut v: Vec<u8> = Vec::new();
    let mut i: usize = 0;
    while i < 32
        invariant
            0 <= i <= 32,
            k@.len() == 32,
            v@ == k@.take(i as int),
        decreases 32 - i,
    {
        v.push(k.bytes[i]);
        i = i + 1;
        assert(v@ =~= k@.take(i as int));
    }
    assert(k@.take(32) =~= k@);
    assert(v.deep_view() =~= v@);
    v
}

fn build_pool_seeds(lo: &Pubkey, hi: &Pubkey) -> (r: Vec<Vec<u8>>)
    ensures
        r.deep_view() == pool_seeds(lo@, hi@),
{
    let prefix: Vec<u8> = vec![112u8, 111u8, 111u8, 108u8];
    assert(prefix.deep_view() =~= pool_prefix());
    let r: Vec<Vec<u8>> = vec![prefix, key_bytes(lo), key_bytes(hi)];
    assert(r.deep_view() =~= pool_seeds(lo@, hi@));
    r
}

fn build_authority_seeds(lo: &Pubkey, hi: &Pubkey, pool_bump: u8) -> (r: Vec<Vec<u8>>)
    ensures
        r.deep_view() == authority_seeds(lo@, hi@, pool_bump),
{
    let mut r = build_pool_seeds(lo, hi);
    let bump: Vec<u8> = vec![pool_bump];
    assert(bump.deep_view() =~= seq![pool_bump]);
    r.push(bump);
    assert(r.deep_view() =~= authority_seeds(lo@, hi@, pool_bump));
    r
}

/// Derives the pool address of a mint pair, in either order.
pub fn find_pool_address(program_id: &Pubkey, mint_x: &Pubkey, mint_y: &Pubkey) -> (r: Option<
    (Pubkey, u8),
>)
    ensures
        ({
            let (lo, hi) = canonical(mint_x@, mint_y@);
            match r {
                Some((k, b)) => {
                    &&& find_pda(pool_seeds(lo, hi), program_id@) == Some((k@, b))
                    &&& create_pda(authority_seeds(lo, hi, b), program_id@) == Some(k@)
                },
                None => find_pda(pool_seeds(lo, hi), program_id@) is None,
            }
        }),
{
    let (lo, hi) = canonical_pair(mint_x, mint_y);
    let seeds = build_pool_seeds(&lo, &hi);
    let r = try_find_program_address(&seeds, program_id);
    proof {
        if let Some((k, b)) = r {
            assert(seeds.deep_view().push(seq![b]) =~= authority_seeds(lo@, hi@, b));
        }
    }
    r
}

/// Derives the authority of the pool of a canonically ordered pair.
pub fn find_pool_authority(program_id: &Pubkey, lo: &Pubkey, hi: &Pubkey, pool_bump: u8) -> (r:
    Option<(Pubkey, u8)>)
    ensures
        match r {
            Some((k, b)) => {
                &&& find_pda(authority_seeds(lo@, hi@, pool_bump), program_id@) == Some((k@, b))
                &&& create_pda(authority_seeds(lo@, hi@, pool_bump).push(seq![b]), program_id@)
                    == Some(k@)
            },
            None => find_pda(authority_seeds(lo@, hi@, pool_bump), program_id@) is None,
        },
{
    try_find_program_address(&build_authority_seeds(lo, hi, pool_bump), program_id)
}

/// Derives the associated token account of `owner` for `mint`.
pub fn find_vault(
    associated_token_program: &Pubkey,
    owner: &Pubkey,
    token_program: &Pubkey,
    mint: &Pubkey,
) -> (r: Option<(Pubkey, u8)>)
    ensures
        match r {
            Some((k, b)) => find_pda(
                vault_seeds(owner@, token_program@, mint@),
                associated_token_program@,
            ) == Some((k@, b)),
            None => find_pda(
                vault_seeds(owner@, token_program@, mint@),
                associated_token_program@,
            ) is None,
        },
{
    let seeds: Vec<Vec<u8>> = vec![key_bytes(owner), key_bytes(token_program), key_bytes(mint)];
    assert(seeds.deep_view() =~= vault_seeds(owner@, token_program@, mint@));
    try_find_program_address(&seeds, associated_token_program)
}

/// The address of the pool of a canonically ordered pair, re-derived from its
/// stored bump.
pub fn create_pool_address(program_id: &Pubkey, lo: &Pubkey, hi: &Pubkey, pool_bump: u8) -> (r:
    Option<Pubkey>)
    ensures
        match r {
            Some(k) => create_pda(authority_seeds(lo@, hi@, pool_bump), program_id@) == Some(k@),
            None => create_pda(authority_seeds(lo@, hi@, pool_bump), program_id@) is None,
        },
{
    create_program_address(&build_authority_seeds(lo, hi, pool_bump), program_id)
}

/// The capability to act as a pool's authority: the seeds and bumps that
/// derive its address, handed to the token program with a transfer out of a
/// vault.
#[derive(Clone, Copy, Debug, PartialEq, Eq)]
pub struct PoolSigner {
    pub mint_lo: Pubkey,
    pub mint_hi: Pubkey,
    pub pool_bump: u8,
    pub authority_bump: u8,
}

impl PoolSigner {
    /// The full seeds of the authority, its own bump last.
    pub open spec fn signer_seeds(&self) -> Seq<Seq<u8>> {
        authority_seeds(self.mint_lo@, self.mint_hi@, self.pool_bump).push(
            seq![self.authority_bump],
        )
    }

    pub fn seeds(&self) -> (r: Vec<Vec<u8>>)
        ensures
            r.deep_view() == self.signer_seeds(),
    {
        let mut r = build_authority_seeds(&self.mint_lo, &self.mint_hi, self.pool_bump);
        let bump: Vec<u8> = vec![self.authority_bump];
        assert(bump.deep_view() =~= seq![self.authority_bump]);
        r.push(bump);
        assert(r.deep_view() =~= self.signer_seeds());
        r
    }

    /// The address that these seeds sign for under `program_id`.
    pub fn address(&self, program_id: &Pubkey) -> (r: Option<Pubkey>)
        ensures
            match r {
                Some(k) => create_pda(self.signer_seeds(), program_id@) == Some(k@),
                None => create_pda(self.signer_seeds(), program_id@) is None,
            },
    {
        create_program_address(&self.seeds(), program_id)
    }
}

} // verus!
