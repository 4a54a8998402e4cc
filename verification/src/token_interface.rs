//! Calls into the Token-2022 interface: how long a mint is, and what its bytes hold.
//!
//! Everything here is believed, not proved. Errors are carried as the 64-bit number that the
//! runtime gives a program error.

use anchor_spl::token_interface::spl_token_2022::extension::transfer_fee;
use anchor_spl::token_interface::spl_token_2022::extension::BaseStateWithExtensions;
use anchor_spl::token_interface::spl_token_2022::extension::ExtensionType as InterfaceExtension;
use anchor_spl::token_interface::spl_token_2022::extension::StateWithExtensions;
use anchor_spl::token_interface::spl_token_2022::state::Mint;
use vstd::prelude::*;

use crate::error::INVALID_ARGUMENT;
use crate::extension::ExtensionType;
use crate::extension::MAX_EXTENSION_CODE;
use crate::fee::TransferFee;
use crate::fee::TransferFeeConfig;

verus! {

/// `ExtensionType::try_calculate_account_len::<Mint>`: the bytes that a mint with these extensions
/// needs.
///
/// It is claimed that the call fails exactly where an extension of variable length, the metadata
/// itself, is in the list, and that else the length is `mint_account_len`.
#[verifier::external_body]
pub(crate) fn try_calculate_account_len(codes: &Vec<u16>) -> (len: Result<usize, u64>)
    requires
        forall|i: int| 0 <= i < codes@.len() ==> codes@[i] <= MAX_EXTENSION_CODE,
    ensures
        len is Err <==> codes@.contains(ExtensionType::TokenMetadata.number()),
        len is Err ==> len->Err_0 == INVALID_ARGUMENT,
        len is Ok ==> len->Ok_0 == crate::layout::mint_account_len(codes@),
{
    let mut kinds: Vec<InterfaceExtension> = Vec::new();
    for code in codes {
        kinds.push(InterfaceExtension::try_from(*code).unwrap());
    }
    InterfaceExtension::try_calculate_account_len::<Mint>(&kinds).map_err(u64::from)
}

/// `StateWithExtensions::<Mint>::unpack`, of which the decimals are kept.
///
/// It is claimed that it succeeds on the layout of an initialized mint with its tail, and gives the
/// byte at the offset of the decimals; that a mint that is not initialized gives
/// `UninitializedAccount`, and everything else `InvalidAccountData`.
#[verifier::external_body]
pub(crate) fn unpack_decimals(data: &[u8]) -> (decimals: Result<u8, u64>)
    ensures
        decimals == crate::layout::unpacked_decimals(data@),
{
    StateWithExtensions::<Mint>::unpack(data).map(|state| state.base.decimals).map_err(u64::from)
}

/// `BaseStateWithExtensions::get_extension_types` on the mint that `unpack` reads, each kind given
/// by its number.
///
/// It is claimed that an error of the unpacking is handed on, and that else the kinds of the records
/// are listed in order, up to the first empty one, with `InvalidAccountData` for a number that
/// stands for no kind and for a record that is cut short.
#[verifier::external_body]
pub(crate) fn get_extension_codes(data: &[u8]) -> (codes: Result<Vec<u16>, u64>)
    ensures
        codes is Ok <==> crate::layout::extension_codes(data@) is Ok,
        codes is Ok ==> codes->Ok_0@ == crate::layout::extension_codes(data@)->Ok_0,
        codes is Err ==> codes->Err_0 == crate::layout::extension_codes(data@)->Err_0,
{
    let state = StateWithExtensions::<Mint>::unpack(data).map_err(u64::from)?;
    let kinds = state.get_extension_types().map_err(u64::from)?;
    Ok(kinds.into_iter().map(u16::from).collect())
}

/// `BaseStateWithExtensions::get_extension::<TransferFeeConfig>` on the mint that `unpack` reads, of
/// which the two rates are kept.
///
/// It is claimed that an error of the unpacking is handed on, and that else the rates are read from
/// the first record of their kind. Where there is none, the error is `ExtensionNotFound` behind an
/// empty record and `InvalidAccountData` at the end of the bytes; where its value is cut short, the
/// error is `InvalidAccountData`; where it has another length, `InvalidArgument`.
#[verifier::external_body]
pub(crate) fn get_fee_config(data: &[u8]) -> (config: Result<TransferFeeConfig, u64>)
    ensures
        config == crate::layout::fee_config(data@),
{
    let state = StateWithExtensions::<Mint>::unpack(data).map_err(u64::from)?;
    let config = state.get_extension::<transfer_fee::TransferFeeConfig>().map_err(u64::from)?;
    Ok(TransferFeeConfig {
        older_transfer_fee: TransferFee {
            epoch: config.older_transfer_fee.epoch.into(),
            maximum_fee: config.older_transfer_fee.maximum_fee.into(),
            transfer_fee_basis_points: config.older_transfer_fee.transfer_fee_basis_points.into(),
        },
        newer_transfer_fee: TransferFee {
            epoch: config.newer_transfer_fee.epoch.into(),
            maximum_fee: config.newer_transfer_fee.maximum_fee.into(),
            transfer_fee_basis_points: config.newer_transfer_fee.transfer_fee_basis_points.into(),
        },
    })
}

} // verus!
