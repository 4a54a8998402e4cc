//! Accepting mints that this program did not create.
//!
//! A mint is accepted if every extension that it carries is one that this program was written to
//! handle. A transfer fee means that the amount credited is not the amount debited, so the live
//! rate is reported rather than assumed to be zero.

use vstd::prelude::*;

use crate::accounts::AssertSupportedMint;
use crate::error::Failure;
use crate::error::MintError;
use crate::error::INVALID_ACCOUNT_DATA;
use crate::extension::ExtensionType;
use crate::fee::TransferFeeConfig;
use crate::layout::DECIMALS_OFFSET;
use crate::layout::EXTENSIONS_START;
use crate::layout::IS_INITIALIZED_OFFSET;
use crate::layout::MINT_LEN;
use crate::layout::MULTISIG_LEN;
use crate::token_interface::get_extension_codes;
use crate::token_interface::get_fee_config;
use crate::token_interface::unpack_decimals;

verus! {

/// What is reported of an accepted mint.
#[derive(Debug, Clone, Copy, PartialEq, Eq, Structural)]
pub struct SupportedMint {
    /// Decimals of an amount.
    pub decimals: u8,
    /// The live transfer fee rate, zero where the mint charges none.
    pub basis_points: u16,
}

/// Whether a number stands for a supported kind of extension.
pub open spec fn supported_code(code: u16) -> bool {
    ||| code == ExtensionType::MintCloseAuthority.number()
    ||| code == ExtensionType::MetadataPointer.number()
    ||| code == ExtensionType::TransferFeeConfig.number()
}

/// Whether each of these numbers stands for a supported kind of extension.
pub open spec fn all_supported(codes: Seq<u16>) -> bool {
    forall|i: int| 0 <= i < codes.len() ==> supported_code(#[trigger] codes[i])
}

/// What becomes of a mint with these decimals, of which the extensions, the fee rates and the epoch
/// are known or could not be had.
///
/// The epoch is needed only where there are fee rates.
pub open spec fn acceptance(
    decimals: u8,
    codes: Result<Seq<u16>, u64>,
    config: Result<TransferFeeConfig, u64>,
    epoch: Result<u64, u64>,
) -> Result<SupportedMint, Failure> {
    match codes {
        Err(code) => Err(Failure::Program(code)),
        Ok(codes) => if !all_supported(codes) {
            Err(Failure::Mint(MintError::UnsupportedExtension))
        } else {
            match (config, epoch) {
                (Err(_), _) => Ok(SupportedMint { decimals, basis_points: 0 }),
                (Ok(_), Err(code)) => Err(Failure::Program(code)),
                (Ok(config), Ok(epoch)) => Ok(
                    SupportedMint {
                        decimals,
                        basis_points: config.live(epoch).transfer_fee_basis_points,
                    },
                ),
            }
        },
    }
}

/// Whether each of these numbers stands for a supported kind of extension.
pub fn check_extensions(codes: &Vec<u16>) -> (supported: bool)
    ensures
        supported == all_supported(codes@),
{
    let mut i: usize = 0;
    while i < codes.len()
        invariant
            i <= codes.len(),
            forall|j: int| 0 <= j < i ==> supported_code(#[trigger] codes@[j]),
        decreases codes.len() - i,
    {
        let supported = match ExtensionType::from_code(codes[i]) {
            Some(kind) => kind.is_supported(),
            None => false,
        };
        assert(supported == supported_code(codes@[i as int]));
        if !supported {
            return false;
        }
        i = i + 1;
    }
    true
}

/// Decides on a mint whose bytes have been read.
pub fn accept_mint(
    decimals: u8,
    codes: &Result<Vec<u16>, u64>,
    config: Result<TransferFeeConfig, u64>,
    epoch: Result<u64, u64>,
) -> (accepted: Result<SupportedMint, Failure>)
    ensures
        accepted == acceptance(
            decimals,
            match *codes {
                Ok(codes) => Ok(codes@),
                Err(code) => Err(code),
            },
            config,
            epoch,
        ),
{
    match codes {
        Ok(codes) => {
            if !check_extensions(codes) {
                return Err(Failure::Mint(MintError::UnsupportedExtension));
            }
        },
        Err(code) => {
            return Err(Failure::Program(*code));
        },
    }
    match config {
        Err(_) => Ok(SupportedMint { decimals, basis_points: 0 }),
        Ok(config) => match epoch {
            Err(code) => Err(Failure::Program(code)),
            Ok(epoch) => {
                let basis_points = config.get_epoch_fee(epoch).transfer_fee_basis_points;
                Ok(SupportedMint { decimals, basis_points })
            },
        },
    }
}

/// Accepts the mint in `data`, or says why not.
///
/// `epoch` is the current epoch, or the program error that reading it gave.
pub fn assert_supported_mint(
    accounts: &AssertSupportedMint,
    data: &[u8],
    epoch: Result<u64, u64>,
) -> (accepted: Result<SupportedMint, Failure>)
    ensures
        accepted == match (
            accounts.violation(),
            crate::layout::unpacked_decimals(data@),
        ) {
            (Some(failure), _) => Err(failure),
            (None, Err(code)) => Err(Failure::Program(code)),
            (None, Ok(decimals)) => acceptance(
                decimals,
                crate::layout::extension_codes(data@),
                crate::layout::fee_config(data@),
                epoch,
            ),
        },
        accounts.violation() is None && (data@.len() < MINT_LEN || data@.len() == MULTISIG_LEN)
            ==> accepted == Err::<SupportedMint, Failure>(Failure::Program(INVALID_ACCOUNT_DATA)),
        accepted is Ok ==> data@[IS_INITIALIZED_OFFSET as int] == 1,
        accepted is Ok ==> accepted->Ok_0.decimals == data@[DECIMALS_OFFSET as int],
        accepted is Ok && !crate::layout::extension_codes(data@)->Ok_0.contains(
            ExtensionType::TransferFeeConfig.number(),
        ) ==> accepted->Ok_0.basis_points == 0,
        accounts.violation() is None && crate::layout::unpacked_decimals(data@) is Ok
            && data@.len() <= EXTENSIONS_START ==> accepted is Ok
            && accepted->Ok_0.basis_points == 0,
{
    if let Some(failure) = accounts.check() {
        return Err(failure);
    }
    match unpack_decimals(data) {
        Ok(decimals) => {
            let codes = get_extension_codes(data);
            let config = get_fee_config(data);
            proof {
                if config is Ok && codes is Ok {
                    crate::layout::law_found_rates_are_listed(data@);
                }
            }
            accept_mint(decimals, &codes, config, epoch)
        },
        Err(code) => Err(Failure::Program(code)),
    }
}

/// A mint with any extension that is not supported is refused for it, whatever else it carries.
pub proof fn law_one_unsupported_extension_refuses_the_mint(
    decimals: u8,
    codes: Seq<u16>,
    i: int,
    config: Result<TransferFeeConfig, u64>,
    epoch: Result<u64, u64>,
)
    requires
        0 <= i < codes.len(),
        !supported_code(codes[i]),
    ensures
        acceptance(decimals, Ok(codes), config, epoch) == Err::<SupportedMint, Failure>(
            Failure::Mint(MintError::UnsupportedExtension),
        ),
{
}

/// The order in which a mint lists its extensions does not matter, nor does listing one twice.
pub proof fn law_acceptance_depends_on_the_set_of_extensions(
    decimals: u8,
    a: Seq<u16>,
    b: Seq<u16>,
    config: Result<TransferFeeConfig, u64>,
    epoch: Result<u64, u64>,
)
    requires
        forall|code: u16| #[trigger] a.contains(code) <==> b.contains(code),
    ensures
        acceptance(decimals, Ok(a), config, epoch) == acceptance(decimals, Ok(b), config, epoch),
{
    assert forall|i: int| 0 <= i < a.len() && all_supported(b) implies supported_code(
        #[trigger] a[i],
    ) by {
        assert(a.contains(a[i]));
        let j = choose|j: int| 0 <= j < b.len() && b[j] == a[i];
        assert(supported_code(b[j]));
    }
    assert forall|i: int| 0 <= i < b.len() && all_supported(a) implies supported_code(
        #[trigger] b[i],
    ) by {
        assert(b.contains(b[i]));
        assert(a.contains(b[i]));
        let j = choose|j: int| 0 <= j < a.len() && a[j] == b[i];
        assert(supported_code(a[j]));
    }
}

} // verus!
