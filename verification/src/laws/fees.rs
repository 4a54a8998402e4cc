//! What a transfer is charged, said of the numbers alone.

use vstd::prelude::*;

use crate::fee::TransferFee;
use crate::fee::TransferFeeConfig;

verus! {

/// The fee is the smallest whole number that covers the rate's share of the amount, or the cap
/// where that is less; there is none exactly where no 64-bit number covers the share.
pub proof fn law_fee_is_the_least_that_covers_the_share(
    rate: TransferFee,
    amount: u64,
    fee: Option<u64>,
)
    requires
        call_ensures(TransferFee::calculate_fee, (&rate, amount), fee),
    ensures
        fee is None <==> amount * rate.transfer_fee_basis_points > u64::MAX * 10_000,
        fee matches Some(charged) ==> {
            &&& charged <= rate.maximum_fee
            &&& charged < rate.maximum_fee ==> charged * 10_000 >= amount
                * rate.transfer_fee_basis_points
            &&& charged > 0 ==> (charged - 1) * 10_000 < amount * rate.transfer_fee_basis_points
        },
{
    crate::fee::law_share_is_rounded_up(rate, amount);
}

/// Before the epoch of the newer rate the older one is live, from then on the newer one; what is
/// charged in an epoch is what the rate that is live in it charges.
pub proof fn law_epoch_decides_which_rate_is_live(
    config: TransferFeeConfig,
    epoch: u64,
    amount: u64,
    live: TransferFee,
    charged: Option<u64>,
    fee: Option<u64>,
)
    requires
        call_ensures(TransferFeeConfig::get_epoch_fee, (&config, epoch), live),
        call_ensures(TransferFee::calculate_fee, (&live, amount), charged),
        call_ensures(TransferFeeConfig::calculate_epoch_fee, (&config, epoch, amount), fee),
    ensures
        epoch < config.newer_transfer_fee.epoch ==> live == config.older_transfer_fee,
        epoch >= config.newer_transfer_fee.epoch ==> live == config.newer_transfer_fee,
        fee == charged,
{
}

/// At a rate of at most one, what is charged is the smaller of the cap and the share rounded up.
pub proof fn law_fee_is_the_smaller_of_share_and_cap(
    rate: TransferFee,
    amount: u64,
    fee: Option<u64>,
)
    requires
        call_ensures(TransferFee::calculate_fee, (&rate, amount), fee),
        rate.transfer_fee_basis_points <= 10_000,
    ensures
        ({
            let share = (amount * rate.transfer_fee_basis_points + 9_999) / 10_000;
            &&& fee is Some
            &&& fee->0 <= amount
            &&& share <= rate.maximum_fee ==> fee->0 == share
            &&& share > rate.maximum_fee ==> fee->0 == rate.maximum_fee
        }),
{
    crate::fee::law_fee_is_at_most_the_amount(rate, amount);
}

} // verus!
