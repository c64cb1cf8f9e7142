use vstd::prelude::*;

verus! {

/// Denominator of every fee rate held by a pool configuration.
pub const FEE_RATE_DENOMINATOR_VALUE: u64 = 1_000_000;

/// `ceil(amount * rate / FEE_RATE_DENOMINATOR_VALUE)`, as the intermediate
/// sum that the pool computes it through.
pub open spec fn trade_fee_of(amount: int, rate: int) -> int {
    (amount * rate + FEE_RATE_DENOMINATOR_VALUE - 1) / (FEE_RATE_DENOMINATOR_VALUE as int)
}

/// `floor(fee * rate / FEE_RATE_DENOMINATOR_VALUE)`: a bookkeeping share of a trade fee.
pub open spec fn fee_share_of(fee: int, rate: int) -> int {
    (fee * rate) / (FEE_RATE_DENOMINATOR_VALUE as int)
}

/// Output of the constant-product curve for an input that has already paid
/// its fee: `floor(reserve_out - reserve_in * reserve_out / (reserve_in + amount))`.
pub open spec fn output_of(amount: int, reserve_in: int, reserve_out: int) -> int {
    (amount * reserve_out) / (reserve_in + amount)
}

/// Whether every intermediate value of `swap_base_input` fits in a `u128`
/// and the reserves are positive.
pub open spec fn swap_defined(
    amount_in: int,
    reserve_in: int,
    reserve_out: int,
    trade_fee_rate: int,
    protocol_fee_rate: int,
    fund_fee_rate: int,
) -> bool {
    let fee = trade_fee_of(amount_in, trade_fee_rate);
    let after = amount_in - fee;
    &&& reserve_in > 0
    &&& reserve_out > 0
    &&& amount_in * trade_fee_rate + FEE_RATE_DENOMINATOR_VALUE - 1 <= u128::MAX
    &&& fee * protocol_fee_rate <= u128::MAX
    &&& fee * fund_fee_rate <= u128::MAX
    &&& fee <= amount_in
    &&& after * reserve_out <= u128::MAX
    &&& reserve_in + after <= u128::MAX
}

/// What one swap moves and what it charges.
#[derive(Clone, Copy, Debug, PartialEq, Eq)]
pub struct SwapResult {
    /// Input taken from the trader, fee included.
    pub source_amount_swapped: u128,
    /// Output handed to the trader.
    pub destination_amount_swapped: u128,
    /// Fee charged on the input.
    pub trade_fee: u128,
    /// Protocol's share of the trade fee.
    pub protocol_fee: u128,
    /// Fund's share of the trade fee.
    pub fund_fee: u128,
}

/// Ceiling of `a * b / d`, or `None` when an intermediate value overflows.
fn ceil_div(a: u128, b: u128, d: u128) -> (r: Option<u128>)
    requires
        d > 0,
    ensures
        r.is_some() <==> a * b + d - 1 <= u128::MAX,
        r.is_some() ==> r.unwrap() == (a * b + d - 1) / (d as int),
{
    let p = a.checked_mul(b)?;
    let q = p.checked_add(d - 1)?;
    Some(q / d)
}

/// Floor of `a * b / d`, or `None` when the product overflows.
fn floor_div(a: u128, b: u128, d: u128) -> (r: Option<u128>)
    requires
        d > 0,
    ensures
        r.is_some() <==> a * b <= u128::MAX,
        r.is_some() ==> r.unwrap() == (a * b) / (d as int),
{
    let p = a.checked_mul(b)?;
    Some(p / d)
}

/// Swaps `amount_in` of the input token against reserves
/// (`reserve_in`, `reserve_out`): the input first pays the trade fee, rounded
/// up, and the rest moves along the constant-product curve, rounded down.
pub fn swap_base_input(
    amount_in: u128,
    reserve_in: u128,
    reserve_out: u128,
    trade_fee_rate: u64,
    protocol_fee_rate: u64,
    fund_fee_rate: u64,
) -> (r: Option<SwapResult>)
    ensures
        r.is_some() <==> swap_defined(
            amount_in as int,
            reserve_in as int,
            reserve_out as int,
            trade_fee_rate as int,
            protocol_fee_rate as int,
            fund_fee_rate as int,
        ),
        r.is_some() ==> ({
            let s = r.unwrap();
            let fee = trade_fee_of(amount_in as int, trade_fee_rate as int);
            &&& s.source_amount_swapped == amount_in
            &&& s.trade_fee == fee
            &&& s.trade_fee * FEE_RATE_DENOMINATOR_VALUE >= amount_in * trade_fee_rate
            &&& (s.trade_fee - 1) * FEE_RATE_DENOMINATOR_VALUE < amount_in * trade_fee_rate
            &&& s.protocol_fee == fee_share_of(fee, protocol_fee_rate as int)
            &&& s.fund_fee == fee_share_of(fee, fund_fee_rate as int)
            &&& s.destination_amount_swapped == output_of(
                amount_in - fee,
                reserve_in as int,
                reserve_out as int,
            )
            &&& s.destination_amount_swapped <= reserve_out
            &&& (reserve_in + (amount_in - fee)) * (reserve_out - s.destination_amount_swapped)
                >= reserve_in * reserve_out
        }),
{
    if reserve_in == 0 || reserve_out == 0 {
        return None;
    }
    let d = FEE_RATE_DENOMINATOR_VALUE as u128;
    let trade_fee = ceil_div(amount_in, trade_fee_rate as u128, d)?;
    let protocol_fee = floor_div(trade_fee, protocol_fee_rate as u128, d)?;
    let fund_fee = floor_div(trade_fee, fund_fee_rate as u128, d)?;
    let after_fee = amount_in.checked_sub(trade_fee)?;
    let numerator = after_fee.checked_mul(reserve_out)?;
    let denominator = reserve_in.checked_add(after_fee)?;
    let out = numerator / denominator;
    proof {
        lemma_ceil_fee(amount_in as int, trade_fee_rate as int);
        lemma_output_bounds(after_fee as int, reserve_in as int, reserve_out as int);
    }
    Some(
        SwapResult {
            source_amount_swapped: amount_in,
            destination_amount_swapped: out,
            trade_fee,
            protocol_fee,
            fund_fee,
        },
    )
}

/// The trade fee is the exact ceiling of `amount * rate / FEE_RATE_DENOMINATOR_VALUE`:
/// the least value whose product with the denominator reaches `amount * rate`.
pub proof fn lemma_ceil_fee(amount: int, rate: int)
    requires
        amount >= 0,
        rate >= 0,
    ensures
        trade_fee_of(amount, rate) * FEE_RATE_DENOMINATOR_VALUE >= amount * rate,
        (trade_fee_of(amount, rate) - 1) * FEE_RATE_DENOMINATOR_VALUE < amount * rate,
        trade_fee_of(amount, rate) >= 0,
{
    let d = FEE_RATE_DENOMINATOR_VALUE as int;
    let n = amount * rate;
    assert(n >= 0) by (nonlinear_arith)
        requires amount >= 0, rate >= 0, n == amount * rate;
    let q = (n + d - 1) / d;
    assert(q * d <= n + d - 1 < q * d + d) by (nonlinear_arith)
        requires d == 1_000_000, q == (n + d - 1) / d, n >= 0;
    assert(q >= 0) by (nonlinear_arith)
        requires d == 1_000_000, q == (n + d - 1) / d, n >= 0;
}

/// A fee rate of at most one whole never takes more than the amount.
pub proof fn lemma_fee_within_amount(amount: int, rate: int)
    requires
        amount >= 0,
        0 <= rate <= FEE_RATE_DENOMINATOR_VALUE,
    ensures
        trade_fee_of(amount, rate) <= amount,
{
    let d = FEE_RATE_DENOMINATOR_VALUE as int;
    let n = amount * rate;
    assert(n <= amount * d) by (nonlinear_arith)
        requires amount >= 0, 0 <= rate <= d, n == amount * rate;
    assert((n + d - 1) / d <= (amount * d + d - 1) / d) by (nonlinear_arith)
        requires n <= amount * d, d == 1_000_000, n >= 0;
    assert((amount * d + d - 1) / d == amount) by (nonlinear_arith)
        requires d == 1_000_000, amount >= 0;
}

/// The constant-product curve never hands out more than the output reserve,
/// and the product of the reserves after a swap is at least the product before.
pub proof fn lemma_output_bounds(amount: int, reserve_in: int, reserve_out: int)
    requires
        amount >= 0,
        reserve_in > 0,
        reserve_out > 0,
    ensures
        0 <= output_of(amount, reserve_in, reserve_out) <= reserve_out,
        (reserve_in + amount) * (reserve_out - output_of(amount, reserve_in, reserve_out))
            >= reserve_in * reserve_out,
{
    let s = reserve_in + amount;
    let n = amount * reserve_out;
    let q = n / s;
    assert(q * s <= n && n >= 0) by (nonlinear_arith)
        requires s > 0, q == n / s, n == amount * reserve_out, amount >= 0, reserve_out > 0;
    assert(q >= 0) by (nonlinear_arith)
        requires s > 0, q == n / s, n >= 0;
    assert(n <= reserve_out * s) by (nonlinear_arith)
        requires n == amount * reserve_out, s == reserve_in + amount, reserve_in > 0, reserve_out > 0;
    assert(q <= reserve_out) by (nonlinear_arith)
        requires q * s <= n, n <= reserve_out * s, s > 0;
    assert(s * (reserve_out - q) >= reserve_in * reserve_out) by (nonlinear_arith)
        requires q * s <= n, n == amount * reserve_out, s == reserve_in + amount;
}

/// For positive reserves, any input and a fee rate of at most one whole, the product of the reserves never
/// decreases across a swap: with `after_fee` the input that is left once the
/// trade fee is paid,
/// `(reserve_in + after_fee) * (reserve_out - output) >= reserve_in * reserve_out`.
pub proof fn lemma_constant_product_never_decreases(
    amount_in: u128,
    reserve_in: u128,
    reserve_out: u128,
    trade_fee_rate: u64,
)
    requires
        reserve_in > 0,
        reserve_out > 0,
        trade_fee_rate <= FEE_RATE_DENOMINATOR_VALUE,
    ensures
        ({
            let after_fee = amount_in - trade_fee_of(amount_in as int, trade_fee_rate as int);
            let out = output_of(after_fee, reserve_in as int, reserve_out as int);
            (reserve_in + after_fee) * (reserve_out - out) >= reserve_in * reserve_out
        }),
{
    lemma_ceil_fee(amount_in as int, trade_fee_rate as int);
    lemma_fee_within_amount(amount_in as int, trade_fee_rate as int);
    let after_fee = amount_in - trade_fee_of(amount_in as int, trade_fee_rate as int);
    lemma_output_bounds(after_fee, reserve_in as int, reserve_out as int);
}

} // verus!
