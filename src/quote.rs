use vstd::prelude::*;
use rust_decimal::Decimal;
use crate::address::Address;
use crate::curve::{output_of, swap_base_input, swap_defined, trade_fee_of, lemma_output_bounds, lemma_ceil_fee};
use crate::error::AmmError;
use crate::pool::{Clock, SegaAmm};
use crate::state::{reserve_of, status_bit, vault_amount_without_fee, STATUS_BIT_SWAP};
use crate::transfer_fee::{amount_after_transfer_fee, TokenMintInfo};

verus! {

#[verifier::external_type_specification]
#[verifier::external_body]
pub struct ExDecimal(rust_decimal::Decimal);

/// The decimal quotient `n / d`.
pub uninterp spec fn decimal_quotient(n: u64, d: u64) -> Decimal;

/// Relies on `Decimal::from(u64)` and `Decimal`'s division of rust_decimal:
/// the quotient of two integers depends on them alone.
#[verifier::external_body]
fn quotient(n: u64, d: u64) -> (r: Decimal)
    requires
        d > 0,
    ensures
        r == decimal_quotient(n, d),
{
    Decimal::from(n) / Decimal::from(d)
}

/// Divisor of the fee amount in a quote's fee percentage.
pub const FEE_PCT_DIVISOR: u64 = 100;

/// A priced swap.
#[derive(Debug)]
pub struct Quote {
    /// Input the pool takes, after the input token's transfer fee.
    pub in_amount: u64,
    /// Output the trader receives, after the output token's transfer fee.
    pub out_amount: u64,
    /// Token the trade fee is charged in: the input token.
    pub fee_mint: Address,
    /// Trade fee.
    pub fee_amount: u64,
    /// `fee_amount / 100`.
    pub fee_pct: Decimal,
}

/// Whether every account a quote reads has been loaded.
pub open spec fn is_ready(a: SegaAmm) -> bool {
    a.amm_config is Some && a.token_mints_and_token_programs is Some
}

/// Whether the pool allows swaps at `clock`.
pub open spec fn is_trading(a: SegaAmm, clock: Clock) -> bool {
    status_bit(a.pool_state.status, STATUS_BIT_SWAP) && clock.unix_timestamp >= a.pool_state.open_time
}

/// Whether a swap from `input_mint` goes from token 0 to token 1.
pub open spec fn zero_for_one(a: SegaAmm, input_mint: Address) -> bool {
    input_mint@ == a.pool_state.token_0_mint@
}

/// Metadata of the input token (`input == true`) or the output token.
pub open spec fn side_mint(a: SegaAmm, input_mint: Address, input: bool) -> TokenMintInfo {
    let t = a.token_mints_and_token_programs.unwrap();
    if zero_for_one(a, input_mint) == input {
        t.token0_mint
    } else {
        t.token1_mint
    }
}

/// What a quote returns, as `(in_amount, out_amount, fee_amount)`.
pub open spec fn quote_result(a: SegaAmm, input_mint: Address, amount: u64, clock: Clock) -> Result<
    (int, int, int),
    AmmError,
> {
    if !is_ready(a) {
        Err(AmmError::StaleState)
    } else if !is_trading(a, clock) {
        Err(AmmError::NotTrading)
    } else {
        let c = a.amm_config.unwrap();
        let actual_in = amount_after_transfer_fee(
            side_mint(a, input_mint, true).transfer_fee,
            clock.epoch,
            amount,
        );
        if actual_in == 0 {
            Err(AmmError::AmountTooLow)
        } else if a.vault_0_amount is None || a.vault_1_amount is None {
            Err(AmmError::StaleState)
        } else {
            let r0 = reserve_of(a.vault_0_amount.unwrap(), a.pool_state.protocol_fees_token_0, a.pool_state.fund_fees_token_0);
            let r1 = reserve_of(a.vault_1_amount.unwrap(), a.pool_state.protocol_fees_token_1, a.pool_state.fund_fees_token_1);
            if r0 is None || r1 is None {
                Err(AmmError::VaultAmountUnderflow)
            } else {
                let (rin, rout) = if zero_for_one(a, input_mint) {
                    (r0.unwrap() as int, r1.unwrap() as int)
                } else {
                    (r1.unwrap() as int, r0.unwrap() as int)
                };
                if !swap_defined(actual_in, rin, rout, c.trade_fee_rate as int, c.protocol_fee_rate as int, c.fund_fee_rate as int) {
                    Err(AmmError::ArithmeticError)
                } else {
                    let fee = trade_fee_of(actual_in, c.trade_fee_rate as int);
                    let out = output_of(actual_in - fee, rin, rout);
                    Ok((actual_in, amount_after_transfer_fee(
                        side_mint(a, input_mint, false).transfer_fee,
                        clock.epoch,
                        out as u64,
                    ), fee))
                }
            }
        }
    }
}

impl SegaAmm {
    /// Prices a swap of `amount` of `input_mint` against the current snapshot,
    /// at the epoch and time of `clock`.
    pub fn quote(&self, input_mint: &Address, amount: u64, clock: &Clock) -> (r: Result<Quote, AmmError>)
        ensures
            match quote_result(*self, *input_mint, amount, *clock) {
                Ok((i, o, f)) => r is Ok && ({
                    let q = r.unwrap();
                    &&& q.in_amount == i
                    &&& q.out_amount == o
                    &&& q.fee_amount == f
                    &&& q.fee_mint@ == input_mint@
                    &&& q.fee_pct == decimal_quotient(q.fee_amount, FEE_PCT_DIVISOR)
                }),
                Err(e) => r == Err::<Quote, AmmError>(e),
            },
    {
        let (amm_config, mints) = match (self.amm_config, self.token_mints_and_token_programs) {
            (Some(c), Some(t)) => (c, t),
            _ => return Err(AmmError::StaleState),
        };
        if !self.pool_state.get_status_by_bit(STATUS_BIT_SWAP)
            || clock.unix_timestamp < 0 || (clock.unix_timestamp as u64) < self.pool_state.open_time {
            return Err(AmmError::NotTrading);
        }
        let z = input_mint.same_as(&self.pool_state.token_0_mint);
        let (in_mint, out_mint) = if z {
            (mints.token0_mint, mints.token1_mint)
        } else {
            (mints.token1_mint, mints.token0_mint)
        };
        let actual_amount_in = in_mint.amount_after_fee(clock.epoch, amount);
        if actual_amount_in == 0 {
            return Err(AmmError::AmountTooLow);
        }
        let (v0, v1) = match (self.vault_0_amount, self.vault_1_amount) {
            (Some(v0), Some(v1)) => (v0, v1),
            _ => return Err(AmmError::StaleState),
        };
        let (r0, r1) = match vault_amount_without_fee(&self.pool_state, v0, v1) {
            (Some(r0), Some(r1)) => (r0, r1),
            _ => return Err(AmmError::VaultAmountUnderflow),
        };
        let (reserve_in, reserve_out) = if z {
            (r0, r1)
        } else {
            (r1, r0)
        };
        let swap = match swap_base_input(
            actual_amount_in as u128,
            reserve_in as u128,
            reserve_out as u128,
            amm_config.trade_fee_rate,
            amm_config.protocol_fee_rate,
            amm_config.fund_fee_rate,
        ) {
            Some(s) => s,
            None => return Err(AmmError::ArithmeticError),
        };
        let amount_out = swap.destination_amount_swapped as u64;
        let out_amount = out_mint.amount_after_fee(clock.epoch, amount_out);
        let fee_amount = swap.trade_fee as u64;
        Ok(
            Quote {
                in_amount: swap.source_amount_swapped as u64,
                out_amount,
                fee_mint: *input_mint,
                fee_amount,
                fee_pct: quotient(fee_amount, FEE_PCT_DIVISOR),
            },
        )
    }
}

/// Before the first successful update a quote fails with a state error,
/// whatever is asked.
pub proof fn lemma_quote_before_update_fails(a: SegaAmm, input_mint: Address, amount: u64, clock: Clock)
    requires
        a.amm_config is None,
    ensures
        quote_result(a, input_mint, amount, clock) == Err::<(int, int, int), AmmError>(AmmError::StaleState),
{
}

/// On a loaded, trading pool, an input that the transfer fee reduces to
/// zero fails with `AmountTooLow`; and no quote ever takes a zero input.
pub proof fn lemma_zero_input_never_quoted(a: SegaAmm, input_mint: Address, amount: u64, clock: Clock)
    ensures
        is_ready(a) && is_trading(a, clock) && amount_after_transfer_fee(
            side_mint(a, input_mint, true).transfer_fee,
            clock.epoch,
            amount,
        ) == 0 ==> quote_result(a, input_mint, amount, clock) == Err::<(int, int, int), AmmError>(
            AmmError::AmountTooLow,
        ),
        quote_result(a, input_mint, amount, clock) is Ok ==> quote_result(a, input_mint, amount, clock).unwrap().0 > 0,
{
}

/// A loaded pool whose swap bit is clear refuses every quote with
/// `NotTrading`, whatever its reserves.
pub proof fn lemma_swap_bit_clear_not_trading(a: SegaAmm, input_mint: Address, amount: u64, clock: Clock)
    requires
        is_ready(a),
        !status_bit(a.pool_state.status, STATUS_BIT_SWAP),
    ensures
        quote_result(a, input_mint, amount, clock) == Err::<(int, int, int), AmmError>(AmmError::NotTrading),
{
}

/// A quote never delivers more than the curve hands out, and the curve
/// never hands out more than the output reserve.
pub proof fn lemma_quote_out_within_curve(a: SegaAmm, input_mint: Address, amount: u64, clock: Clock)
    ensures
        quote_result(a, input_mint, amount, clock) is Ok ==> ({
            let (i, o, f) = quote_result(a, input_mint, amount, clock).unwrap();
            let c = a.amm_config.unwrap();
            let r0 = reserve_of(a.vault_0_amount.unwrap(), a.pool_state.protocol_fees_token_0, a.pool_state.fund_fees_token_0).unwrap();
            let r1 = reserve_of(a.vault_1_amount.unwrap(), a.pool_state.protocol_fees_token_1, a.pool_state.fund_fees_token_1).unwrap();
            let rout = if zero_for_one(a, input_mint) { r1 as int } else { r0 as int };
            let rin = if zero_for_one(a, input_mint) { r0 as int } else { r1 as int };
            0 <= o <= output_of(i - f, rin, rout) <= rout
        }),
{
    if quote_result(a, input_mint, amount, clock) is Ok {
        let (i, o, f) = quote_result(a, input_mint, amount, clock).unwrap();
        let c = a.amm_config.unwrap();
        let r0 = reserve_of(a.vault_0_amount.unwrap(), a.pool_state.protocol_fees_token_0, a.pool_state.fund_fees_token_0).unwrap();
        let r1 = reserve_of(a.vault_1_amount.unwrap(), a.pool_state.protocol_fees_token_1, a.pool_state.fund_fees_token_1).unwrap();
        let rout = if zero_for_one(a, input_mint) { r1 as int } else { r0 as int };
        let rin = if zero_for_one(a, input_mint) { r0 as int } else { r1 as int };
        lemma_ceil_fee(i, c.trade_fee_rate as int);
        lemma_output_bounds(i - f, rin, rout);
    }
}

} // verus!
