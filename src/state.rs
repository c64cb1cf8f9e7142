use vstd::prelude::*;
use crate::address::Address;
use crate::bytes::{read_u16, read_u64, u16_le, u64_le};
use crate::error::AmmError;

verus! {

/// Length of a pool account: discriminator, ten addresses, five bytes,
/// seven `u64` fields and thirty-one `u64` words of padding.
pub const POOL_STATE_LEN: usize = 637;

/// Length of a configuration account up to the end of its padding.
pub const AMM_CONFIG_LEN: usize = 236;

/// Index of the status bit that allows swaps.
pub const STATUS_BIT_SWAP: u8 = 2;

/// Type tag at the start of a pool account.
pub open spec fn pool_state_discriminator() -> Seq<u8> {
    seq![247u8, 237u8, 227u8, 245u8, 215u8, 195u8, 222u8, 70u8]
}

/// Type tag at the start of a configuration account.
pub open spec fn amm_config_discriminator() -> Seq<u8> {
    seq![218u8, 244u8, 33u8, 104u8, 203u8, 203u8, 43u8, 111u8]
}

/// Whether `s` starts with the eight bytes `d`.
pub open spec fn starts_with(s: Seq<u8>, d: Seq<u8>) -> bool {
    s.len() >= 8 && s.subrange(0, 8) == d
}

/// On-chain state of one pool.
#[derive(Clone, Copy, Debug)]
pub struct PoolState {
    pub amm_config: Address,
    pub pool_creator: Address,
    pub token_0_vault: Address,
    pub token_1_vault: Address,
    pub lp_mint: Address,
    pub token_0_mint: Address,
    pub token_1_mint: Address,
    pub token_0_program: Address,
    pub token_1_program: Address,
    pub observation_key: Address,
    pub auth_bump: u8,
    pub status: u8,
    pub lp_mint_decimals: u8,
    pub mint_0_decimals: u8,
    pub mint_1_decimals: u8,
    pub lp_supply: u64,
    pub protocol_fees_token_0: u64,
    pub protocol_fees_token_1: u64,
    pub fund_fees_token_0: u64,
    pub fund_fees_token_1: u64,
    pub open_time: u64,
    pub recent_epoch: u64,
}

/// Whether `p` holds the fields laid out in the pool account bytes `s`.
pub open spec fn pool_state_holds(p: PoolState, s: Seq<u8>) -> bool {
    &&& p.amm_config@ == s.subrange(8, 40)
    &&& p.pool_creator@ == s.subrange(40, 72)
    &&& p.token_0_vault@ == s.subrange(72, 104)
    &&& p.token_1_vault@ == s.subrange(104, 136)
    &&& p.lp_mint@ == s.subrange(136, 168)
    &&& p.token_0_mint@ == s.subrange(168, 200)
    &&& p.token_1_mint@ == s.subrange(200, 232)
    &&& p.token_0_program@ == s.subrange(232, 264)
    &&& p.token_1_program@ == s.subrange(264, 296)
    &&& p.observation_key@ == s.subrange(296, 328)
    &&& p.auth_bump == s[328]
    &&& p.status == s[329]
    &&& p.lp_mint_decimals == s[330]
    &&& p.mint_0_decimals == s[331]
    &&& p.mint_1_decimals == s[332]
    &&& p.lp_supply == u64_le(s, 333)
    &&& p.protocol_fees_token_0 == u64_le(s, 341)
    &&& p.protocol_fees_token_1 == u64_le(s, 349)
    &&& p.fund_fees_token_0 == u64_le(s, 357)
    &&& p.fund_fees_token_1 == u64_le(s, 365)
    &&& p.open_time == u64_le(s, 373)
    &&& p.recent_epoch == u64_le(s, 381)
}

/// Whether `s` is the bytes of a pool account.
pub open spec fn is_pool_state_bytes(s: Seq<u8>) -> bool {
    s.len() >= POOL_STATE_LEN && starts_with(s, pool_state_discriminator())
}

/// Whether bit `bit` of `status` is set.
pub open spec fn status_bit(status: u8, bit: u8) -> bool {
    (status >> bit) & 1u8 == 1u8
}

/// Checks the eight leading bytes against `d0 .. d7`.
fn has_tag(data: &[u8], d0: u8, d1: u8, d2: u8, d3: u8, d4: u8, d5: u8, d6: u8, d7: u8) -> (r: bool)
    ensures
        r == starts_with(data@, seq![d0, d1, d2, d3, d4, d5, d6, d7]),
{
    if data.len() < 8 {
        return false;
    }
    let r = data[0] == d0 && data[1] == d1 && data[2] == d2 && data[3] == d3 && data[4] == d4
        && data[5] == d5 && data[6] == d6 && data[7] == d7;
    assert(r == (data@.subrange(0, 8) =~= seq![d0, d1, d2, d3, d4, d5, d6, d7]));
    r
}

impl PoolState {
    /// Decodes a pool account.
    pub fn try_deserialize(data: &[u8]) -> (r: Result<PoolState, AmmError>)
        ensures
            r.is_ok() <==> is_pool_state_bytes(data@),
            r.is_ok() ==> pool_state_holds(r.unwrap(), data@),
            r.is_err() ==> r == Err::<PoolState, AmmError>(AmmError::DecodeError),
    {
        if data.len() < POOL_STATE_LEN || !has_tag(data, 247, 237, 227, 245, 215, 195, 222, 70) {
            return Err(AmmError::DecodeError);
        }
        Ok(
            PoolState {
                amm_config: Address::read_at(data, 8),
                pool_creator: Address::read_at(data, 40),
                token_0_vault: Address::read_at(data, 72),
                token_1_vault: Address::read_at(data, 104),
                lp_mint: Address::read_at(data, 136),
                token_0_mint: Address::read_at(data, 168),
                token_1_mint: Address::read_at(data, 200),
                token_0_program: Address::read_at(data, 232),
                token_1_program: Address::read_at(data, 264),
                observation_key: Address::read_at(data, 296),
                auth_bump: data[328],
                status: data[329],
                lp_mint_decimals: data[330],
                mint_0_decimals: data[331],
                mint_1_decimals: data[332],
                lp_supply: read_u64(data, 333),
                protocol_fees_token_0: read_u64(data, 341),
                protocol_fees_token_1: read_u64(data, 349),
                fund_fees_token_0: read_u64(data, 357),
                fund_fees_token_1: read_u64(data, 365),
                open_time: read_u64(data, 373),
                recent_epoch: read_u64(data, 381),
            },
        )
    }

    /// Whether status bit `bit` is set.
    pub fn get_status_by_bit(&self, bit: u8) -> (r: bool)
        requires
            bit < 8,
        ensures
            r == status_bit(self.status, bit),
    {
        (self.status >> bit) & 1u8 == 1u8
    }
}

/// Fee rates of a pool, over `FEE_RATE_DENOMINATOR_VALUE`.
#[derive(Clone, Copy, Debug)]
pub struct AmmConfig {
    pub bump: u8,
    pub disable_create_pool: bool,
    pub index: u16,
    pub trade_fee_rate: u64,
    pub protocol_fee_rate: u64,
    pub fund_fee_rate: u64,
    pub create_pool_fee: u64,
    pub protocol_owner: Address,
    pub fund_owner: Address,
}

/// Whether `s` is the bytes of a configuration account.
pub open spec fn is_amm_config_bytes(s: Seq<u8>) -> bool {
    &&& s.len() >= AMM_CONFIG_LEN
    &&& starts_with(s, amm_config_discriminator())
    &&& (s[9] == 0 || s[9] == 1)
}

/// Whether `c` holds the fields laid out in the configuration bytes `s`.
pub open spec fn amm_config_holds(c: AmmConfig, s: Seq<u8>) -> bool {
    &&& c.bump == s[8]
    &&& c.disable_create_pool == (s[9] == 1)
    &&& c.index == u16_le(s, 10)
    &&& c.trade_fee_rate == u64_le(s, 12)
    &&& c.protocol_fee_rate == u64_le(s, 20)
    &&& c.fund_fee_rate == u64_le(s, 28)
    &&& c.create_pool_fee == u64_le(s, 36)
    &&& c.protocol_owner@ == s.subrange(44, 76)
    &&& c.fund_owner@ == s.subrange(76, 108)
}

impl AmmConfig {
    /// Decodes a configuration account.
    pub fn try_deserialize(data: &[u8]) -> (r: Result<AmmConfig, AmmError>)
        ensures
            r.is_ok() <==> is_amm_config_bytes(data@),
            r.is_ok() ==> amm_config_holds(r.unwrap(), data@),
            r.is_err() ==> r == Err::<AmmConfig, AmmError>(AmmError::DecodeError),
    {
        if data.len() < AMM_CONFIG_LEN || !has_tag(data, 218, 244, 33, 104, 203, 203, 43, 111) {
            return Err(AmmError::DecodeError);
        }
        if data[9] > 1 {
            return Err(AmmError::DecodeError);
        }
        Ok(
            AmmConfig {
                bump: data[8],
                disable_create_pool: data[9] == 1,
                index: read_u16(data, 10),
                trade_fee_rate: read_u64(data, 12),
                protocol_fee_rate: read_u64(data, 20),
                fund_fee_rate: read_u64(data, 28),
                create_pool_fee: read_u64(data, 36),
                protocol_owner: Address::read_at(data, 44),
                fund_owner: Address::read_at(data, 76),
            },
        )
    }
}

/// `vault - (protocol_fees + fund_fees)`, or `None` when that is negative.
pub open spec fn reserve_of(vault: u64, protocol_fees: u64, fund_fees: u64) -> Option<u64> {
    if vault >= protocol_fees + fund_fees {
        Some((vault - protocol_fees - fund_fees) as u64)
    } else {
        None
    }
}

/// The part of each vault balance that belongs to the pool's reserves: the
/// balance less the protocol and fund fees accrued on that token, or `None`
/// for a side where the fees exceed the balance.
pub fn vault_amount_without_fee(pool: &PoolState, vault_0: u64, vault_1: u64) -> (r: (
    Option<u64>,
    Option<u64>,
))
    ensures
        r.0 == reserve_of(vault_0, pool.protocol_fees_token_0, pool.fund_fees_token_0),
        r.1 == reserve_of(vault_1, pool.protocol_fees_token_1, pool.fund_fees_token_1),
{
    (
        reserve_after_fees(vault_0, pool.protocol_fees_token_0, pool.fund_fees_token_0),
        reserve_after_fees(vault_1, pool.protocol_fees_token_1, pool.fund_fees_token_1),
    )
}

fn reserve_after_fees(vault: u64, protocol_fees: u64, fund_fees: u64) -> (r: Option<u64>)
    ensures
        r == reserve_of(vault, protocol_fees, fund_fees),
{
    match protocol_fees.checked_add(fund_fees) {
        Some(fees) => vault.checked_sub(fees),
        None => None,
    }
}

} // verus!
