use rust_decimal::Decimal;
use sega_amm::accounts::AccountMap;
use sega_amm::address::Address;
use sega_amm::curve::swap_base_input;
use sega_amm::error::AmmError;
use sega_amm::plan::{SwapParams, Swap, AUTH_SEED};
use sega_amm::pool::{amm_factory, sega_program_id, Clock, SegaAmm};
use sega_amm::state::{vault_amount_without_fee, AmmConfig, PoolState};
use sega_amm::transfer_fee::{TransferFee, TransferFeeSchedule};
use solana_sdk::pubkey::Pubkey;

fn addr(n: u8) -> Address {
    Address([n; 32])
}

const POOL: u8 = 1;
const CONFIG: u8 = 2;
const VAULT0: u8 = 3;
const VAULT1: u8 = 4;
const MINT0: u8 = 5;
const MINT1: u8 = 6;
const PROG0: u8 = 7;
const PROG1: u8 = 8;
const OBS: u8 = 9;

fn put_u64(b: &mut [u8], off: usize, v: u64) {
    b[off..off + 8].copy_from_slice(&v.to_le_bytes());
}

fn pool_bytes(status: u8, open_time: u64, fees0: (u64, u64), fees1: (u64, u64), bump: u8) -> Vec<u8> {
    let mut b = vec![0u8; 637];
    b[..8].copy_from_slice(&[247, 237, 227, 245, 215, 195, 222, 70]);
    let keys = [CONFIG, 10, VAULT0, VAULT1, 11, MINT0, MINT1, PROG0, PROG1, OBS];
    for (i, k) in keys.iter().enumerate() {
        b[8 + 32 * i..40 + 32 * i].copy_from_slice(&[*k; 32]);
    }
    b[328] = bump;
    b[329] = status;
    b[331] = 6;
    b[332] = 9;
    put_u64(&mut b, 341, fees0.0);
    put_u64(&mut b, 349, fees1.0);
    put_u64(&mut b, 357, fees0.1);
    put_u64(&mut b, 365, fees1.1);
    put_u64(&mut b, 373, open_time);
    b
}

fn config_bytes(trade: u64, protocol: u64, fund: u64) -> Vec<u8> {
    let mut b = vec![0u8; 236];
    b[..8].copy_from_slice(&[218, 244, 33, 104, 203, 203, 43, 111]);
    b[8] = 254;
    b[10] = 3;
    put_u64(&mut b, 12, trade);
    put_u64(&mut b, 20, protocol);
    put_u64(&mut b, 28, fund);
    put_u64(&mut b, 36, 77);
    b
}

fn mint_bytes(decimals: u8) -> Vec<u8> {
    let mut b = vec![0u8; 82];
    b[44] = decimals;
    b[45] = 1;
    b
}

fn fee_mint_bytes(decimals: u8, older: (u64, u64, u16), newer: (u64, u64, u16)) -> Vec<u8> {
    let mut b = mint_bytes(decimals);
    b.resize(165, 0);
    b.push(1);
    b.extend_from_slice(&1u16.to_le_bytes());
    b.extend_from_slice(&108u16.to_le_bytes());
    b.extend_from_slice(&[0u8; 72]);
    for (epoch, max, bps) in [older, newer] {
        b.extend_from_slice(&epoch.to_le_bytes());
        b.extend_from_slice(&max.to_le_bytes());
        b.extend_from_slice(&bps.to_le_bytes());
    }
    b
}

fn vault_bytes(mint: u8, amount: u64, frozen: bool) -> Vec<u8> {
    let mut b = vec![0u8; 165];
    b[..32].copy_from_slice(&[mint; 32]);
    b[32..64].copy_from_slice(&[12u8; 32]);
    put_u64(&mut b, 64, amount);
    b[108] = if frozen { 2 } else { 1 };
    b
}

fn clock() -> Clock {
    Clock { epoch: 10, unix_timestamp: 1_000 }
}

fn ready_pool(status: u8, mint0: Vec<u8>, mint1: Vec<u8>, v0: Vec<u8>, v1: Vec<u8>) -> SegaAmm {
    let data = pool_bytes(status, 500, (0, 0), (0, 0), 0);
    let mut amm = SegaAmm::from_keyed_account(addr(POOL), &data, sega_program_id()).unwrap();
    let m: AccountMap = vec![
        (addr(POOL), data),
        (addr(CONFIG), config_bytes(2500, 0, 0)),
        (addr(MINT0), mint0),
        (addr(MINT1), mint1),
        (addr(VAULT0), v0),
        (addr(VAULT1), v1),
    ];
    amm.update(&m).unwrap();
    amm
}

fn standard_pool() -> SegaAmm {
    ready_pool(4, mint_bytes(6), mint_bytes(9), vault_bytes(MINT0, 1_000_000, false), vault_bytes(MINT1, 2_000_000, false))
}

#[test]
fn swap_reference_values() {
    let s = swap_base_input(10_000, 1_000_000, 2_000_000, 2500, 0, 0).unwrap();
    assert_eq!(s.trade_fee, 25);
    assert_eq!(s.source_amount_swapped, 10_000);
    assert_eq!(s.destination_amount_swapped, 19_752);
}

#[test]
fn trade_fee_rounds_up() {
    let s = swap_base_input(1, 1_000, 1_000, 1, 0, 0).unwrap();
    assert_eq!(s.trade_fee, 1);
    let s = swap_base_input(1_000_001, 1_000_000, 1_000_000, 2500, 0, 0).unwrap();
    assert_eq!(s.trade_fee, 2501);
    let s = swap_base_input(0, 1_000, 1_000, 2500, 0, 0).unwrap();
    assert_eq!(s.trade_fee, 0);
    assert_eq!(s.destination_amount_swapped, 0);
}

#[test]
fn constant_product_does_not_decrease() {
    for (a, x, y, rate) in [(10_000u128, 1_000_000u128, 2_000_000u128, 2500u64), (7, 3, 5, 0), (999_999, 17, 1_000_003, 30_000)] {
        let s = swap_base_input(a, x, y, rate, 0, 0).unwrap();
        let after = a - s.trade_fee;
        assert!((x + after) * (y - s.destination_amount_swapped) >= x * y);
    }
}

#[test]
fn fee_shares_round_down() {
    let s = swap_base_input(10_000, 1_000_000, 2_000_000, 2500, 120_000, 40_000).unwrap();
    assert_eq!(s.protocol_fee, 3);
    assert_eq!(s.fund_fee, 1);
}

#[test]
fn swap_rejects_empty_reserves_and_excess_fee() {
    assert!(swap_base_input(10, 0, 100, 2500, 0, 0).is_none());
    assert!(swap_base_input(10, 100, 0, 2500, 0, 0).is_none());
    assert!(swap_base_input(10, 100, 100, 2_000_000, 0, 0).is_none());
    assert!(swap_base_input(u128::MAX, 100, 100, 2, 0, 0).is_none());
}

#[test]
fn transfer_fee_floor_cap_and_epoch() {
    let older = TransferFee { epoch: 0, maximum_fee: 1_000, transfer_fee_basis_points: 100 };
    let newer = TransferFee { epoch: 20, maximum_fee: 5, transfer_fee_basis_points: 500 };
    let s = TransferFeeSchedule { older_transfer_fee: older, newer_transfer_fee: newer };
    assert_eq!(s.calculate_epoch_fee(10, 199), 1);
    assert_eq!(s.calculate_epoch_fee(10, 1_000_000), 1_000);
    assert_eq!(s.calculate_epoch_fee(20, 60), 3);
    assert_eq!(s.calculate_epoch_fee(25, 1_000), 5);
    assert_eq!(s.calculate_epoch_fee(25, 0), 0);
}

#[test]
fn pool_state_decodes_fields() {
    let data = pool_bytes(4, 500, (1, 2), (3, 4), 255);
    let p = PoolState::try_deserialize(&data).unwrap();
    assert_eq!(p.token_0_vault.0, [VAULT0; 32]);
    assert_eq!(p.token_1_mint.0, [MINT1; 32]);
    assert_eq!(p.observation_key.0, [OBS; 32]);
    assert_eq!(p.auth_bump, 255);
    assert_eq!(p.status, 4);
    assert_eq!(p.mint_1_decimals, 9);
    assert_eq!((p.protocol_fees_token_0, p.fund_fees_token_0), (1, 2));
    assert_eq!((p.protocol_fees_token_1, p.fund_fees_token_1), (3, 4));
    assert_eq!(p.open_time, 500);
    assert!(p.get_status_by_bit(2));
    assert!(!p.get_status_by_bit(0));
}

#[test]
fn pool_state_rejects_bad_bytes() {
    let mut data = pool_bytes(4, 0, (0, 0), (0, 0), 0);
    assert_eq!(PoolState::try_deserialize(&data[..636]).unwrap_err(), AmmError::DecodeError);
    data[0] = 0;
    assert_eq!(PoolState::try_deserialize(&data).unwrap_err(), AmmError::DecodeError);
}

#[test]
fn amm_config_decodes_and_rejects() {
    let c = AmmConfig::try_deserialize(&config_bytes(2500, 120_000, 40_000)).unwrap();
    assert_eq!((c.trade_fee_rate, c.protocol_fee_rate, c.fund_fee_rate), (2500, 120_000, 40_000));
    assert_eq!((c.bump, c.index, c.create_pool_fee, c.disable_create_pool), (254, 3, 77, false));
    let mut b = config_bytes(1, 1, 1);
    b[9] = 2;
    assert_eq!(AmmConfig::try_deserialize(&b).unwrap_err(), AmmError::DecodeError);
    assert_eq!(AmmConfig::try_deserialize(&config_bytes(1, 1, 1)[..235]).unwrap_err(), AmmError::DecodeError);
}

#[test]
fn vault_amount_subtracts_fees_or_underflows() {
    let p = PoolState::try_deserialize(&pool_bytes(4, 0, (10, 5), (30, 1), 0)).unwrap();
    assert_eq!(vault_amount_without_fee(&p, 100, 31), (Some(85), Some(0)));
    assert_eq!(vault_amount_without_fee(&p, 14, 30), (None, None));
}

#[test]
fn quote_before_update_is_stale() {
    let data = pool_bytes(4, 0, (0, 0), (0, 0), 0);
    let amm = SegaAmm::from_keyed_account(addr(POOL), &data, sega_program_id()).unwrap();
    assert_eq!(amm.quote(&addr(MINT0), 10_000, &clock()).unwrap_err(), AmmError::StaleState);
}

#[test]
fn quote_reference_scenario() {
    let amm = standard_pool();
    let q = amm.quote(&addr(MINT0), 10_000, &clock()).unwrap();
    assert_eq!(q.in_amount, 10_000);
    assert_eq!(q.fee_amount, 25);
    assert_eq!(q.out_amount, 19_752);
    assert_eq!(q.fee_mint.0, [MINT0; 32]);
    assert_eq!(q.fee_pct, Decimal::new(25, 2));
}

#[test]
fn quote_reverse_direction_uses_reserves_in_order() {
    let amm = standard_pool();
    let q = amm.quote(&addr(MINT1), 10_000, &clock()).unwrap();
    assert_eq!(q.fee_amount, 25);
    assert_eq!(q.out_amount, 9_975u64 * 1_000_000 / 2_009_975);
    assert_eq!(q.fee_mint.0, [MINT1; 32]);
}

#[test]
fn quote_not_trading_when_swap_bit_clear() {
    let amm = ready_pool(3, mint_bytes(6), mint_bytes(9), vault_bytes(MINT0, 1_000_000, false), vault_bytes(MINT1, 2_000_000, false));
    assert_eq!(amm.quote(&addr(MINT0), 10_000, &clock()).unwrap_err(), AmmError::NotTrading);
    let empty = ready_pool(0, mint_bytes(6), mint_bytes(9), vault_bytes(MINT0, 0, false), vault_bytes(MINT1, 0, false));
    assert_eq!(empty.quote(&addr(MINT1), 1, &clock()).unwrap_err(), AmmError::NotTrading);
}

#[test]
fn quote_not_trading_before_open_time() {
    let amm = standard_pool();
    let early = Clock { epoch: 10, unix_timestamp: 499 };
    assert_eq!(amm.quote(&addr(MINT0), 10_000, &early).unwrap_err(), AmmError::NotTrading);
    let negative = Clock { epoch: 10, unix_timestamp: -1 };
    assert_eq!(amm.quote(&addr(MINT0), 10_000, &negative).unwrap_err(), AmmError::NotTrading);
}

#[test]
fn frozen_vault_makes_quote_stale() {
    let amm = ready_pool(4, mint_bytes(6), mint_bytes(9), vault_bytes(MINT0, 1_000_000, true), vault_bytes(MINT1, 2_000_000, false));
    assert_eq!(amm.vault_0_amount, None);
    assert_eq!(amm.vault_1_amount, Some(2_000_000));
    assert_eq!(amm.quote(&addr(MINT0), 10_000, &clock()).unwrap_err(), AmmError::StaleState);
}

#[test]
fn quote_fails_when_transfer_fee_takes_everything() {
    let full = fee_mint_bytes(6, (0, u64::MAX, 10_000), (100, u64::MAX, 10_000));
    let amm = ready_pool(4, full, mint_bytes(9), vault_bytes(MINT0, 1_000_000, false), vault_bytes(MINT1, 2_000_000, false));
    assert_eq!(amm.quote(&addr(MINT0), 10_000, &clock()).unwrap_err(), AmmError::AmountTooLow);
    assert_eq!(standard_pool().quote(&addr(MINT0), 0, &clock()).unwrap_err(), AmmError::AmountTooLow);
}

#[test]
fn quote_applies_transfer_fees_on_both_sides() {
    let fee0 = fee_mint_bytes(6, (0, 1_000, 100), (50, 1_000, 100));
    let fee1 = fee_mint_bytes(9, (0, 3, 200), (0, 3, 200));
    let amm = ready_pool(4, fee0, fee1, vault_bytes(MINT0, 1_000_000, false), vault_bytes(MINT1, 2_000_000, false));
    let q = amm.quote(&addr(MINT0), 10_100, &clock()).unwrap();
    assert_eq!(q.in_amount, 9_999);
    let s = swap_base_input(9_999, 1_000_000, 2_000_000, 2500, 0, 0).unwrap();
    assert_eq!(q.fee_amount as u128, s.trade_fee);
    assert_eq!(q.out_amount as u128, s.destination_amount_swapped - 3);
}

#[test]
fn quote_reports_vault_underflow() {
    let data = pool_bytes(4, 0, (600, 500), (0, 0), 0);
    let mut amm = SegaAmm::from_keyed_account(addr(POOL), &data, sega_program_id()).unwrap();
    let m: AccountMap = vec![
        (addr(POOL), data),
        (addr(CONFIG), config_bytes(2500, 0, 0)),
        (addr(MINT0), mint_bytes(6)),
        (addr(MINT1), mint_bytes(9)),
        (addr(VAULT0), vault_bytes(MINT0, 1_000, false)),
        (addr(VAULT1), vault_bytes(MINT1, 1_000, false)),
    ];
    amm.update(&m).unwrap();
    assert_eq!(amm.quote(&addr(MINT0), 10, &clock()).unwrap_err(), AmmError::VaultAmountUnderflow);
}

#[test]
fn update_failures_keep_previous_snapshot() {
    let mut amm = standard_pool();
    let data = pool_bytes(0, 0, (0, 0), (0, 0), 0);
    let no_config: AccountMap = vec![(addr(POOL), data.clone())];
    assert_eq!(amm.update(&no_config).unwrap_err(), AmmError::AccountMissing);
    assert_eq!(amm.pool_state.status, 4);
    let bad_mint: AccountMap = vec![
        (addr(POOL), data.clone()),
        (addr(CONFIG), config_bytes(1, 0, 0)),
        (addr(MINT0), vec![1, 2, 3]),
    ];
    assert_eq!(amm.update(&bad_mint).unwrap_err(), AmmError::DecodeError);
    assert_eq!(amm.amm_config.unwrap().trade_fee_rate, 2500);
    let no_pool: AccountMap = vec![(addr(CONFIG), config_bytes(1, 0, 0))];
    assert_eq!(amm.update(&no_pool).unwrap_err(), AmmError::AccountMissing);
    assert!(amm.quote(&addr(MINT0), 10_000, &clock()).is_ok());
}

#[test]
fn update_without_mints_leaves_metadata_absent() {
    let data = pool_bytes(4, 0, (0, 0), (0, 0), 0);
    let mut amm = SegaAmm::from_keyed_account(addr(POOL), &data, sega_program_id()).unwrap();
    let m: AccountMap = vec![(addr(POOL), data), (addr(CONFIG), config_bytes(2500, 0, 0))];
    amm.update(&m).unwrap();
    assert!(amm.token_mints_and_token_programs.is_none());
    assert_eq!(amm.quote(&addr(MINT0), 10, &clock()).unwrap_err(), AmmError::StaleState);
    let params = swap_params(MINT0);
    assert_eq!(amm.get_swap_and_account_metas(&params).unwrap_err(), AmmError::ConfigMissing);
}

fn swap_params(source: u8) -> SwapParams {
    SwapParams {
        source_mint: addr(source),
        destination_mint: addr(if source == MINT0 { MINT1 } else { MINT0 }),
        source_token_account: addr(20),
        destination_token_account: addr(21),
        token_transfer_authority: addr(22),
    }
}

fn pool_with_valid_bump() -> (SegaAmm, Pubkey) {
    let program = Pubkey::new_from_array(sega_program_id().0);
    let (authority, bump) = Pubkey::find_program_address(&[AUTH_SEED.as_bytes()], &program);
    let data = pool_bytes(4, 0, (0, 0), (0, 0), bump);
    let mut amm = SegaAmm::from_keyed_account(addr(POOL), &data, sega_program_id()).unwrap();
    let m: AccountMap = vec![
        (addr(POOL), data),
        (addr(CONFIG), config_bytes(2500, 0, 0)),
        (addr(MINT0), mint_bytes(6)),
        (addr(MINT1), mint_bytes(9)),
    ];
    amm.update(&m).unwrap();
    (amm, authority)
}

#[test]
fn plan_routes_accounts_by_source_mint() {
    let (amm, authority) = pool_with_valid_bump();
    let plan = amm.get_swap_and_account_metas(&swap_params(MINT0)).unwrap();
    assert_eq!(plan.swap, Swap::RaydiumCP);
    let keys: Vec<[u8; 32]> = plan.account_metas.iter().map(|m| m.pubkey.0).collect();
    assert_eq!(keys.len(), 14);
    assert_eq!(keys[0], sega_program_id().0);
    assert_eq!(keys[1], [22; 32]);
    assert_eq!(keys[2], authority.to_bytes());
    assert_eq!(keys[3..], [[CONFIG; 32], [POOL; 32], [20; 32], [21; 32], [VAULT0; 32], [VAULT1; 32], [PROG0; 32], [PROG1; 32], [MINT0; 32], [MINT1; 32], [OBS; 32]]);
    assert!(plan.account_metas[1].is_signer);
    assert!(plan.account_metas[4].is_writable && !plan.account_metas[3].is_writable);

    let plan = amm.get_swap_and_account_metas(&swap_params(MINT1)).unwrap();
    let keys: Vec<[u8; 32]> = plan.account_metas.iter().map(|m| m.pubkey.0).collect();
    assert_eq!(keys[7..13], [[VAULT1; 32], [VAULT0; 32], [PROG1; 32], [PROG0; 32], [MINT1; 32], [MINT0; 32]]);
}

#[test]
fn authority_matches_program_derivation() {
    let (amm, authority) = pool_with_valid_bump();
    assert_eq!(amm.get_authority().unwrap().0, authority.to_bytes());
}

#[test]
fn pool_reports_its_accounts() {
    let amm = standard_pool();
    let keys: Vec<[u8; 32]> = amm.get_accounts_to_update().iter().map(|a| a.0).collect();
    assert_eq!(keys, vec![[POOL; 32], [VAULT0; 32], [VAULT1; 32], [CONFIG; 32], [MINT0; 32], [MINT1; 32]]);
    let mints: Vec<[u8; 32]> = amm.get_reserve_mints().iter().map(|a| a.0).collect();
    assert_eq!(mints, vec![[MINT0; 32], [MINT1; 32]]);
    assert_eq!(amm.label(), "SEGA");
    assert_eq!(amm.get_accounts_len(), 14);
    assert_eq!(amm.key().0, [POOL; 32]);
    assert_eq!(amm.program_id().0, sega_program_id().0);
}

#[test]
fn factory_accepts_only_the_pool_program() {
    let data = pool_bytes(4, 0, (0, 0), (0, 0), 0);
    assert_eq!(amm_factory(addr(POOL), &data, addr(99)).unwrap_err(), AmmError::UnsupportedPool);
    assert!(amm_factory(addr(POOL), &data, sega_program_id()).is_ok());
    assert_eq!(amm_factory(addr(POOL), &data[..10], sega_program_id()).unwrap_err(), AmmError::DecodeError);
}
