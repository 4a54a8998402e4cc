//! Moving a remittance token: quoting the protocol fee, transferring with it, and thawing accounts
//! whose holder has been identified.

use vstd::prelude::*;

use crate::accounts::QuoteRemittanceFee;
use crate::accounts::ThawAfterKyc;
use crate::accounts::TransferWithProtocolFee;
use crate::error::Failure;
use crate::error::INVALID_ACCOUNT_DATA;
use crate::fee::TransferFeeConfig;
use crate::layout::DECIMALS_OFFSET;
use crate::layout::EXTENSIONS_START;
use crate::layout::IS_INITIALIZED_OFFSET;
use crate::step::Step;
use crate::token_interface::get_fee_config;
use crate::token_interface::unpack_decimals;

verus! {

/// The fee on `amount`, of which the rates and the epoch are known or could not be had.
pub open spec fn quote(
    config: Result<TransferFeeConfig, u64>,
    epoch: Result<u64, u64>,
    amount: u64,
) -> Result<u64, Failure> {
    match (config, epoch) {
        (Err(code), _) => Err(Failure::Program(code)),
        (Ok(_), Err(code)) => Err(Failure::Program(code)),
        (Ok(config), Ok(epoch)) => match config.epoch_fee(epoch, amount) {
            Some(fee) => Ok(fee),
            None => Err(Failure::FeeOverflow),
        },
    }
}

/// The fee on `amount` for the mint in `data`.
pub open spec fn mint_quote(data: Seq<u8>, epoch: Result<u64, u64>, amount: u64) -> Result<
    u64,
    Failure,
> {
    match crate::layout::unpacked_decimals(data) {
        Err(code) => Err(Failure::Program(code)),
        Ok(_) => quote(crate::layout::fee_config(data), epoch, amount),
    }
}

impl TransferWithProtocolFee {
    /// The transfer of `amount` that names `fee` and `decimals`.
    pub open spec fn step(self, amount: u64, decimals: u8, fee: u64) -> Step {
        Step::TransferCheckedWithFee {
            source: self.source.key,
            mint: self.mint.key,
            destination: self.destination.key,
            authority: self.authority.key,
            amount,
            decimals,
            fee,
        }
    }
}

/// Computes the fee on `amount` from rates that have been read.
pub fn quote_fee(config: Result<TransferFeeConfig, u64>, epoch: Result<u64, u64>, amount: u64) -> (fee:
    Result<u64, Failure>)
    ensures
        fee == quote(config, epoch, amount),
{
    match config {
        Err(code) => Err(Failure::Program(code)),
        Ok(config) => match epoch {
            Err(code) => Err(Failure::Program(code)),
            Ok(epoch) => match config.calculate_epoch_fee(epoch, amount) {
                Some(fee) => Ok(fee),
                None => Err(Failure::FeeOverflow),
            },
        },
    }
}

/// Quotes the fee that a transfer of `amount` of the mint in `data` is charged now.
///
/// `epoch` is the current epoch, or the program error that reading it gave.
pub fn quote_remittance_fee(
    accounts: &QuoteRemittanceFee,
    data: &[u8],
    epoch: Result<u64, u64>,
    amount: u64,
) -> (fee: Result<u64, Failure>)
    ensures
        fee == match accounts.violation() {
            Some(failure) => Err(failure),
            None => mint_quote(data@, epoch, amount),
        },
        data@.len() <= EXTENSIONS_START ==> fee is Err,
        accounts.violation() is None && data@.len() <= EXTENSIONS_START
            && crate::layout::unpacked_decimals(data@) is Ok ==> fee == Err::<u64, Failure>(
            Failure::Program(INVALID_ACCOUNT_DATA),
        ),
        fee is Ok ==> data@[IS_INITIALIZED_OFFSET as int] == 1,
{
    if let Some(failure) = accounts.check() {
        return Err(failure);
    }
    match unpack_decimals(data) {
        Ok(_) => quote_fee(get_fee_config(data), epoch, amount),
        Err(code) => Err(Failure::Program(code)),
    }
}

/// Plans a transfer of `amount` of the mint in `data`, naming the fee that it is charged now.
///
/// The token program refuses a transfer that names another fee, so a rate that has been overtaken
/// cannot slip through. `epoch` is the current epoch, or the program error that reading it gave.
pub fn transfer_with_protocol_fee(
    accounts: &TransferWithProtocolFee,
    data: &[u8],
    epoch: Result<u64, u64>,
    amount: u64,
) -> (step: Result<Step, Failure>)
    ensures
        step == match (accounts.violation(), mint_quote(data@, epoch, amount)) {
            (Some(failure), _) => Err(failure),
            (None, Err(failure)) => Err(failure),
            (None, Ok(fee)) => Ok(accounts.step(amount, data@[DECIMALS_OFFSET as int], fee)),
        },
        data@.len() <= EXTENSIONS_START ==> step is Err,
        accounts.violation() is None && data@.len() <= EXTENSIONS_START
            && crate::layout::unpacked_decimals(data@) is Ok ==> step == Err::<
            Step,
            Failure,
        >(Failure::Program(INVALID_ACCOUNT_DATA)),
        step is Ok ==> data@[IS_INITIALIZED_OFFSET as int] == 1,
{
    if let Some(failure) = accounts.check() {
        return Err(failure);
    }
    let decimals = match unpack_decimals(data) {
        Ok(decimals) => decimals,
        Err(code) => {
            return Err(Failure::Program(code));
        },
    };
    match quote_fee(get_fee_config(data), epoch, amount) {
        Ok(fee) => Ok(
            Step::TransferCheckedWithFee {
                source: accounts.source.key,
                mint: accounts.mint.key,
                destination: accounts.destination.key,
                authority: accounts.authority.key,
                amount,
                decimals,
                fee,
            },
        ),
        Err(failure) => Err(failure),
    }
}

/// Plans the thawing of one token account, in the name of the freeze authority.
pub fn thaw_after_kyc(accounts: &ThawAfterKyc) -> (step: Result<Step, Failure>)
    ensures
        step == match accounts.violation() {
            Some(failure) => Err(failure),
            None => Ok(
                Step::ThawAccount {
                    account: accounts.token_account.key,
                    mint: accounts.mint.key,
                    authority: accounts.freeze_authority.key,
                },
            ),
        },
{
    if let Some(failure) = accounts.check() {
        return Err(failure);
    }
    Ok(
        Step::ThawAccount {
            account: accounts.token_account.key,
            mint: accounts.mint.key,
            authority: accounts.freeze_authority.key,
        },
    )
}

} // verus!
