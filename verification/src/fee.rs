//! Transfer fees of a mint: two rates, of which the epoch decides which one is live.

use vstd::prelude::*;

verus! {

/// A rate of one: ten thousand basis points.
pub const ONE_IN_BASIS_POINTS: u16 = 10_000;

/// A transfer fee rate with its cap.
#[derive(Debug, Clone, Copy, PartialEq, Eq, Structural)]
pub struct TransferFee {
    /// First epoch in which this rate is live.
    pub epoch: u64,
    /// The most that one transfer is charged.
    pub maximum_fee: u64,
    /// The rate, in hundredths of a percent of the amount.
    pub transfer_fee_basis_points: u16,
}

/// The fee rates that a mint carries.
///
/// A change of rate is scheduled: it stands in `newer_transfer_fee` and becomes live in that rate's
/// own epoch. Until then `older_transfer_fee` is charged.
#[derive(Debug, Clone, Copy, PartialEq, Eq, Structural)]
pub struct TransferFeeConfig {
    /// The rate before the newer one becomes live.
    pub older_transfer_fee: TransferFee,
    /// The rate from its own epoch on.
    pub newer_transfer_fee: TransferFee,
}

impl TransferFee {
    /// The rate's share of `amount`, rounded up, before the cap.
    pub open spec fn uncapped(self, amount: u64) -> int {
        (amount * self.transfer_fee_basis_points + ONE_IN_BASIS_POINTS - 1)
            / ONE_IN_BASIS_POINTS as int
    }

    /// What a transfer of `amount` is charged: the rate's share, at most the cap.
    ///
    /// There is no fee where the share does not fit in 64 bits, which takes a rate above one.
    pub open spec fn fee(self, amount: u64) -> Option<u64> {
        if self.uncapped(amount) > u64::MAX {
            None
        } else if self.uncapped(amount) <= self.maximum_fee {
            Some(self.uncapped(amount) as u64)
        } else {
            Some(self.maximum_fee)
        }
    }

    /// Computes what a transfer of `amount` is charged.
    pub fn calculate_fee(&self, amount: u64) -> (fee: Option<u64>)
        ensures
            fee == self.fee(amount),
    {
        assert(0 <= amount * self.transfer_fee_basis_points <= u64::MAX * u16::MAX)
            by (nonlinear_arith)
            requires
                0 <= amount <= u64::MAX,
                0 <= self.transfer_fee_basis_points <= u16::MAX,
        ;
        let share: u128 = amount as u128 * self.transfer_fee_basis_points as u128;
        let one: u128 = ONE_IN_BASIS_POINTS as u128;
        let rounded: u128 = (share + one - 1) / one;
        if rounded > u64::MAX as u128 {
            None
        } else if rounded <= self.maximum_fee as u128 {
            Some(rounded as u64)
        } else {
            Some(self.maximum_fee)
        }
    }
}

impl TransferFeeConfig {
    /// The rate that is live in `epoch`.
    pub open spec fn live(self, epoch: u64) -> TransferFee {
        if epoch >= self.newer_transfer_fee.epoch {
            self.newer_transfer_fee
        } else {
            self.older_transfer_fee
        }
    }

    /// What a transfer of `amount` is charged in `epoch`.
    pub open spec fn epoch_fee(self, epoch: u64, amount: u64) -> Option<u64> {
        self.live(epoch).fee(amount)
    }

    /// Picks the rate that is live in `epoch`.
    pub fn get_epoch_fee(&self, epoch: u64) -> (rate: TransferFee)
        ensures
            rate == self.live(epoch),
    {
        if epoch >= self.newer_transfer_fee.epoch {
            self.newer_transfer_fee
        } else {
            self.older_transfer_fee
        }
    }

    /// Computes what a transfer of `amount` is charged in `epoch`.
    pub fn calculate_epoch_fee(&self, epoch: u64, amount: u64) -> (fee: Option<u64>)
        ensures
            fee == self.epoch_fee(epoch, amount),
    {
        self.get_epoch_fee(epoch).calculate_fee(amount)
    }
}

/// A transfer is never charged more than the cap, nor more than its share rounded up, and below the
/// cap never less than its share.
pub proof fn law_fee_is_capped(rate: TransferFee, amount: u64)
    ensures
        rate.fee(amount) matches Some(fee) ==> {
            &&& fee <= rate.maximum_fee
            &&& fee <= rate.uncapped(amount)
            &&& fee < rate.maximum_fee ==> fee * 10_000 >= amount * rate.transfer_fee_basis_points
        },
{
    law_share_is_rounded_up(rate, amount);
}

/// Up to the cap, the fee is the share rounded up to a whole token unit: it covers the share, and
/// one unit less would not.
pub proof fn law_share_is_rounded_up(rate: TransferFee, amount: u64)
    ensures
        rate.uncapped(amount) >= 0,
        rate.uncapped(amount) * ONE_IN_BASIS_POINTS >= amount * rate.transfer_fee_basis_points,
        (rate.uncapped(amount) - 1) * ONE_IN_BASIS_POINTS < amount * rate.transfer_fee_basis_points,
{
    let share: int = amount * rate.transfer_fee_basis_points;
    assert(share >= 0) by (nonlinear_arith)
        requires
            share == amount * rate.transfer_fee_basis_points,
    ;
}

/// At a rate of at most one there is always a fee, and it is at most the amount: what is withheld
/// and what arrives add up to what was sent.
pub proof fn law_fee_is_at_most_the_amount(rate: TransferFee, amount: u64)
    requires
        rate.transfer_fee_basis_points <= ONE_IN_BASIS_POINTS,
    ensures
        rate.fee(amount) is Some,
        rate.fee(amount)->0 <= amount,
{
    assert(amount * rate.transfer_fee_basis_points <= amount * ONE_IN_BASIS_POINTS)
        by (nonlinear_arith)
        requires
            rate.transfer_fee_basis_points <= ONE_IN_BASIS_POINTS,
    ;
}

/// A rate of zero and an amount of zero are charged nothing.
pub proof fn law_nothing_is_free_of_charge(rate: TransferFee, amount: u64)
    requires
        rate.transfer_fee_basis_points == 0 || amount == 0,
    ensures
        rate.fee(amount) == Some(0u64),
{
    assert(amount * rate.transfer_fee_basis_points == 0) by (nonlinear_arith)
        requires
            rate.transfer_fee_basis_points == 0 || amount == 0,
    ;
}

/// A larger transfer is never charged less.
pub proof fn law_fee_grows_with_the_amount(rate: TransferFee, smaller: u64, larger: u64)
    requires
        smaller <= larger,
        rate.fee(larger) is Some,
    ensures
        rate.fee(smaller) is Some,
        rate.fee(smaller)->0 <= rate.fee(larger)->0,
{
    assert(smaller * rate.transfer_fee_basis_points <= larger * rate.transfer_fee_basis_points)
        by (nonlinear_arith)
        requires
            smaller <= larger,
    ;
}

/// A scheduled rate has no effect before its epoch, whatever it is: two configurations that differ
/// only in the rate scheduled for a later epoch charge the same.
pub proof fn law_scheduled_rate_waits_for_its_epoch(
    config: TransferFeeConfig,
    scheduled: TransferFee,
    epoch: u64,
    amount: u64,
)
    requires
        epoch < config.newer_transfer_fee.epoch,
        epoch < scheduled.epoch,
    ensures
        config.epoch_fee(epoch, amount) == config.older_transfer_fee.fee(amount),
        (TransferFeeConfig { newer_transfer_fee: scheduled, ..config }).epoch_fee(epoch, amount)
            == config.epoch_fee(epoch, amount),
{
}

/// From its epoch on the newer rate is charged, whatever the older one was.
pub proof fn law_newer_rate_holds_from_its_epoch(
    config: TransferFeeConfig,
    older: TransferFee,
    epoch: u64,
    amount: u64,
)
    requires
        epoch >= config.newer_transfer_fee.epoch,
    ensures
        config.epoch_fee(epoch, amount) == config.newer_transfer_fee.fee(amount),
        (TransferFeeConfig { older_transfer_fee: older, ..config }).epoch_fee(epoch, amount)
            == config.epoch_fee(epoch, amount),
{
}

} // verus!
