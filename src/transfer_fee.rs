use vstd::prelude::*;
use spl_token_2022::extension::transfer_fee::TransferFeeConfig;
use spl_token_2022::extension::{BaseStateWithExtensions, StateWithExtensions, StateWithExtensionsOwned};
use spl_token_2022::state::{Account, Mint};

verus! {

/// Basis points in one whole.
pub const ONE_IN_BASIS_POINTS: u64 = 10_000;

/// One proportional transfer fee, in force from `epoch` on.
#[derive(Clone, Copy, Debug, PartialEq, Eq)]
pub struct TransferFee {
    pub epoch: u64,
    pub maximum_fee: u64,
    pub transfer_fee_basis_points: u16,
}

/// The two transfer fees a mint carries: the newer one applies from its own
/// epoch on, the older one before that.
#[derive(Clone, Copy, Debug, PartialEq, Eq)]
pub struct TransferFeeSchedule {
    pub older_transfer_fee: TransferFee,
    pub newer_transfer_fee: TransferFee,
}

/// What a mint tells about its token.
#[derive(Clone, Copy, Debug, PartialEq, Eq)]
pub struct TokenMintInfo {
    pub decimals: u8,
    /// `None` when the mint levies no transfer fee.
    pub transfer_fee: Option<TransferFeeSchedule>,
}

/// What a token account holds that a quote reads.
#[derive(Clone, Copy, Debug, PartialEq, Eq)]
pub struct TokenAccountInfo {
    pub amount: u64,
    pub is_frozen: bool,
}

/// The mint that the token program reads from the account bytes `b`, or `None`
/// when they are not an initialized mint.
pub uninterp spec fn mint_info_of(b: Seq<u8>) -> Option<TokenMintInfo>;

/// The token account that the token program reads from the account bytes `b`,
/// or `None` when they are not an initialized token account.
pub uninterp spec fn token_account_of(b: Seq<u8>) -> Option<TokenAccountInfo>;

/// Relies on `StateWithExtensionsOwned::<Mint>::unpack` of spl-token-2022 to
/// read a mint, and on its `get_extension::<TransferFeeConfig>` to find the
/// transfer-fee extension; both depend on the bytes alone.
#[verifier::external_body]
pub(crate) fn unpack_mint(data: &[u8]) -> (r: Option<TokenMintInfo>)
    ensures
        r == mint_info_of(data@),
{
    let mint = StateWithExtensionsOwned::<Mint>::unpack(data.to_vec()).ok()?;
    let fee = match mint.get_extension::<TransferFeeConfig>() {
        Ok(c) => {
            let (o, n) = (&c.older_transfer_fee, &c.newer_transfer_fee);
            let older_transfer_fee = TransferFee { epoch: o.epoch.into(), maximum_fee: o.maximum_fee.into(), transfer_fee_basis_points: o.transfer_fee_basis_points.into() };
            let newer_transfer_fee = TransferFee { epoch: n.epoch.into(), maximum_fee: n.maximum_fee.into(), transfer_fee_basis_points: n.transfer_fee_basis_points.into() };
            Some(TransferFeeSchedule { older_transfer_fee, newer_transfer_fee })
        },
        Err(_) => None,
    };
    Some(TokenMintInfo { decimals: mint.base.decimals, transfer_fee: fee })
}

/// Relies on `StateWithExtensions::<Account>::unpack` of spl-token-2022 to read
/// a token account's balance and freeze state; it depends on the bytes alone.
#[verifier::external_body]
pub(crate) fn unpack_token_account(data: &[u8]) -> (r: Option<TokenAccountInfo>)
    ensures
        r == token_account_of(data@),
{
    let account = StateWithExtensions::<Account>::unpack(data).ok()?;
    Some(TokenAccountInfo { amount: account.base.amount, is_frozen: account.base.is_frozen() })
}

/// The fee in force at `epoch`.
pub open spec fn fee_in_effect(s: TransferFeeSchedule, epoch: u64) -> TransferFee {
    if epoch >= s.newer_transfer_fee.epoch {
        s.newer_transfer_fee
    } else {
        s.older_transfer_fee
    }
}

/// `min(maximum_fee, floor(amount * basis_points / 10000))`.
pub open spec fn fee_amount_of(f: TransferFee, amount: u64) -> int {
    let raw = (amount * f.transfer_fee_basis_points) / (ONE_IN_BASIS_POINTS as int);
    if raw <= f.maximum_fee {
        raw
    } else {
        f.maximum_fee as int
    }
}

/// What is left of `amount` once the transfer fee at `epoch` is taken, and
/// zero where the fee would take more than all of it.
pub open spec fn amount_after_transfer_fee(fee: Option<TransferFeeSchedule>, epoch: u64, amount: u64) -> int {
    match fee {
        None => amount as int,
        Some(s) => {
            let f = fee_amount_of(fee_in_effect(s, epoch), amount);
            if f <= amount {
                amount - f
            } else {
                0
            }
        },
    }
}

impl TransferFee {
    /// The fee this schedule takes from a transfer of `amount`.
    pub fn calculate_fee(&self, amount: u64) -> (r: u64)
        ensures
            r == fee_amount_of(*self, amount),
    {
        proof {
            let a = amount as int;
            let b = self.transfer_fee_basis_points as int;
            assert(a * b <= 0xffff_ffff_ffff_ffffint * 0xffff) by (nonlinear_arith)
                requires 0 <= a <= 0xffff_ffff_ffff_ffffint, 0 <= b <= 0xffff;
        }
        let numerator = (amount as u128) * (self.transfer_fee_basis_points as u128);
        let raw = numerator / (ONE_IN_BASIS_POINTS as u128);
        if raw <= self.maximum_fee as u128 {
            raw as u64
        } else {
            self.maximum_fee
        }
    }
}

impl TransferFeeSchedule {
    /// The fee in force at `epoch`.
    pub fn get_epoch_fee(&self, epoch: u64) -> (r: TransferFee)
        ensures
            r == fee_in_effect(*self, epoch),
    {
        if epoch >= self.newer_transfer_fee.epoch {
            self.newer_transfer_fee
        } else {
            self.older_transfer_fee
        }
    }

    /// The fee taken at `epoch` from a transfer of `amount`.
    pub fn calculate_epoch_fee(&self, epoch: u64, amount: u64) -> (r: u64)
        ensures
            r == fee_amount_of(fee_in_effect(*self, epoch), amount),
    {
        self.get_epoch_fee(epoch).calculate_fee(amount)
    }
}

impl TokenMintInfo {
    /// What arrives of `amount` once this token's transfer fee at `epoch` is taken.
    pub fn amount_after_fee(&self, epoch: u64, amount: u64) -> (r: u64)
        ensures
            r == amount_after_transfer_fee(self.transfer_fee, epoch, amount),
    {
        match self.transfer_fee {
            None => amount,
            Some(s) => amount.saturating_sub(s.calculate_epoch_fee(epoch, amount)),
        }
    }
}

} // verus!
