use vstd::prelude::*;
use solana_sdk::pubkey::Pubkey;
use crate::address::Address;
use crate::error::AmmError;
use crate::pool::{SegaAmm, TokenMints};

verus! {

/// Seed of the address that holds authority over a pool's vaults.
pub const AUTH_SEED: &'static str = "vault_and_lp_mint_auth_seed";

/// Number of accounts a swap instruction takes.
pub const SWAP_ACCOUNTS_LEN: usize = 14;

/// The address derived from `seed`, `bump` and the program `program`, or
/// `None` where the derivation lands on the curve.
pub uninterp spec fn program_address_of(seed: Seq<char>, bump: u8, program: Seq<u8>) -> Option<Seq<u8>>;

/// Relies on `Pubkey::create_program_address` of solana-sdk: the derived
/// address depends on the seeds and the program alone, and the call fails
/// only where the hash lands on the curve.
#[verifier::external_body]
fn create_program_address(seed: &str, bump: u8, program: &Address) -> (r: Option<Address>)
    ensures
        match r {
            Some(a) => program_address_of(seed@, bump, program@) == Some(a@),
            None => program_address_of(seed@, bump, program@) is None,
        },
{
    let p = Pubkey::new_from_array(program.0);
    Pubkey::create_program_address(&[seed.as_bytes(), &[bump]], &p).ok().map(|a| Address(a.to_bytes()))
}

/// An account that an instruction takes, with its role.
#[derive(Clone, Copy, Debug)]
pub struct AccountMeta {
    pub pubkey: Address,
    pub is_signer: bool,
    pub is_writable: bool,
}

/// The instruction format of a swap plan.
#[derive(Clone, Copy, Debug, PartialEq, Eq)]
pub enum Swap {
    RaydiumCP,
}

/// Ordered accounts of a swap instruction and its format.
#[derive(Debug)]
pub struct SwapAndAccountMetas {
    pub swap: Swap,
    pub account_metas: Vec<AccountMeta>,
}

/// What the trader brings to a swap.
#[derive(Clone, Copy, Debug)]
pub struct SwapParams {
    pub source_mint: Address,
    pub destination_mint: Address,
    pub source_token_account: Address,
    pub destination_token_account: Address,
    pub token_transfer_authority: Address,
}

/// Whether `m` is `key` with the given roles.
pub open spec fn meta_is(m: AccountMeta, key: Seq<u8>, signer: bool, writable: bool) -> bool {
    m.pubkey@ == key && m.is_signer == signer && m.is_writable == writable
}

/// Whether `s` is the account list of a swap of `a` with `p`, where
/// `authority` is the pool authority: the input vault, token program and mint
/// are those of `p.source_mint`'s side, the output ones those of the other side.
pub open spec fn plan_holds(a: SegaAmm, p: SwapParams, authority: Seq<u8>, s: Seq<AccountMeta>) -> bool {
    let ps = a.pool_state;
    let t = a.token_mints_and_token_programs.unwrap();
    let z = p.source_mint@ == ps.token_0_mint@;
    let (in_prog, in_vault, in_mint) = if z {
        (t.token0_program@, ps.token_0_vault@, ps.token_0_mint@)
    } else {
        (t.token1_program@, ps.token_1_vault@, ps.token_1_mint@)
    };
    let (out_prog, out_vault, out_mint) = if z {
        (t.token1_program@, ps.token_1_vault@, ps.token_1_mint@)
    } else {
        (t.token0_program@, ps.token_0_vault@, ps.token_0_mint@)
    };
    &&& s.len() == SWAP_ACCOUNTS_LEN
    &&& meta_is(s[0], a.program_id@, false, false)
    &&& meta_is(s[1], p.token_transfer_authority@, true, false)
    &&& meta_is(s[2], authority, false, false)
    &&& meta_is(s[3], ps.amm_config@, false, false)
    &&& meta_is(s[4], a.key@, false, true)
    &&& meta_is(s[5], p.source_token_account@, false, true)
    &&& meta_is(s[6], p.destination_token_account@, false, true)
    &&& meta_is(s[7], in_vault, false, true)
    &&& meta_is(s[8], out_vault, false, true)
    &&& meta_is(s[9], in_prog, false, false)
    &&& meta_is(s[10], out_prog, false, false)
    &&& meta_is(s[11], in_mint, false, false)
    &&& meta_is(s[12], out_mint, false, false)
    &&& meta_is(s[13], ps.observation_key@, false, true)
}

fn meta(pubkey: Address, is_signer: bool, is_writable: bool) -> (r: AccountMeta)
    ensures
        r == (AccountMeta { pubkey, is_signer, is_writable }),
{
    AccountMeta { pubkey, is_signer, is_writable }
}

impl SegaAmm {
    /// The address that holds authority over the pool's vaults.
    pub fn get_authority(&self) -> (r: Option<Address>)
        ensures
            match r {
                Some(x) => program_address_of(AUTH_SEED@, self.pool_state.auth_bump, self.program_id@)
                    == Some(x@),
                None => program_address_of(AUTH_SEED@, self.pool_state.auth_bump, self.program_id@) is None,
            },
    {
        create_program_address(AUTH_SEED, self.pool_state.auth_bump, &self.program_id)
    }

    /// Orders the accounts of a swap from `p.source_mint` to the other token.
    pub fn get_swap_and_account_metas(&self, p: &SwapParams) -> (r: Result<SwapAndAccountMetas, AmmError>)
        ensures
            self.token_mints_and_token_programs is None ==> r == Err::<SwapAndAccountMetas, AmmError>(
                AmmError::ConfigMissing,
            ),
            self.token_mints_and_token_programs is Some ==> match program_address_of(
                AUTH_SEED@,
                self.pool_state.auth_bump,
                self.program_id@,
            ) {
                None => r == Err::<SwapAndAccountMetas, AmmError>(AmmError::InvalidAuthority),
                Some(auth) => r is Ok && r.unwrap().swap == Swap::RaydiumCP && plan_holds(
                    *self,
                    *p,
                    auth,
                    r.unwrap().account_metas@,
                ),
            },
    {
        let t: TokenMints = match self.token_mints_and_token_programs {
            Some(t) => t,
            None => return Err(AmmError::ConfigMissing),
        };
        let authority = match self.get_authority() {
            Some(a) => a,
            None => return Err(AmmError::InvalidAuthority),
        };
        let ps = &self.pool_state;
        let z = p.source_mint.same_as(&ps.token_0_mint);
        let (in_prog, in_vault, in_mint, out_prog, out_vault, out_mint) = if z {
            (t.token0_program, ps.token_0_vault, ps.token_0_mint, t.token1_program, ps.token_1_vault, ps.token_1_mint)
        } else {
            (t.token1_program, ps.token_1_vault, ps.token_1_mint, t.token0_program, ps.token_0_vault, ps.token_0_mint)
        };
        let mut v: Vec<AccountMeta> = Vec::new();
        v.push(meta(self.program_id, false, false));
        v.push(meta(p.token_transfer_authority, true, false));
        v.push(meta(authority, false, false));
        v.push(meta(ps.amm_config, false, false));
        v.push(meta(self.key, false, true));
        v.push(meta(p.source_token_account, false, true));
        v.push(meta(p.destination_token_account, false, true));
        v.push(meta(in_vault, false, true));
        v.push(meta(out_vault, false, true));
        v.push(meta(in_prog, false, false));
        v.push(meta(out_prog, false, false));
        v.push(meta(in_mint, false, false));
        v.push(meta(out_mint, false, false));
        v.push(meta(ps.observation_key, false, true));
        Ok(SwapAndAccountMetas { swap: Swap::RaydiumCP, account_metas: v })
    }
}

/// In a swap plan the input vault and mint are those of the source mint's
/// side of the pool, and the output vault and mint those of the other side.
pub proof fn lemma_plan_routes_by_source_mint(a: SegaAmm, p: SwapParams, authority: Seq<u8>, s: Seq<AccountMeta>)
    requires
        plan_holds(a, p, authority, s),
        p.source_mint@ == a.pool_state.token_0_mint@ || p.source_mint@ == a.pool_state.token_1_mint@,
        a.pool_state.token_0_mint@ != a.pool_state.token_1_mint@,
    ensures
        s[11].pubkey@ == p.source_mint@,
        p.source_mint@ == a.pool_state.token_0_mint@ ==> {
            &&& s[7].pubkey@ == a.pool_state.token_0_vault@
            &&& s[8].pubkey@ == a.pool_state.token_1_vault@
            &&& s[12].pubkey@ == a.pool_state.token_1_mint@
        },
        p.source_mint@ == a.pool_state.token_1_mint@ ==> {
            &&& s[7].pubkey@ == a.pool_state.token_1_vault@
            &&& s[8].pubkey@ == a.pool_state.token_0_vault@
            &&& s[12].pubkey@ == a.pool_state.token_0_mint@
        },
{
}

} // verus!
