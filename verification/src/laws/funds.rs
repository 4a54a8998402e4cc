//! What is done to token accounts, and what is reported of a mint: each value is the one that was
//! given or read.

use vstd::prelude::*;

use crate::accounts::ApplyPendingBalance;
use crate::accounts::ApproveConfidentialAccount;
use crate::accounts::AssertSupportedMint;
use crate::accounts::ConfigureConfidentialAccount;
use crate::accounts::DepositConfidential;
use crate::accounts::QuoteRemittanceFee;
use crate::accounts::ThawAfterKyc;
use crate::accounts::TransferWithProtocolFee;
use crate::error::Failure;
use crate::error::MintError;
use crate::extension::ExtensionType;
use crate::extension::SUPPORTED_EXTENSIONS;
use crate::fee::TransferFeeConfig;
use crate::inspect::SupportedMint;
use crate::step::Step;
use crate::step::AE_CIPHERTEXT_LEN;

verus! {

/// A fee that is computed from rates that were read is the smallest whole number that covers the
/// share of the rate that is live, or that rate's cap where it is less. Rates or an epoch that
/// could not be had hand on their error, the rates first; a share that does not fit in 64 bits
/// overflows.
pub proof fn law_computed_fee_covers_the_live_share(
    config: Result<TransferFeeConfig, u64>,
    epoch: Result<u64, u64>,
    amount: u64,
    fee: Result<u64, Failure>,
)
    requires
        call_ensures(crate::remittance::quote_fee, (config, epoch, amount), fee),
    ensures
        config matches Err(code) ==> fee == Err::<u64, Failure>(Failure::Program(code)),
        config is Ok ==> (epoch matches Err(code) ==> fee == Err::<u64, Failure>(
            Failure::Program(code),
        )),
        config is Ok && epoch is Ok ==> {
            let rate = if epoch->Ok_0 < config->Ok_0.newer_transfer_fee.epoch {
                config->Ok_0.older_transfer_fee
            } else {
                config->Ok_0.newer_transfer_fee
            };
            let share = amount * rate.transfer_fee_basis_points;
            &&& share > u64::MAX * 10_000 ==> fee == Err::<u64, Failure>(Failure::FeeOverflow)
            &&& share <= u64::MAX * 10_000 ==> {
                &&& fee is Ok
                &&& fee->Ok_0 <= rate.maximum_fee
                &&& fee->Ok_0 < rate.maximum_fee ==> fee->Ok_0 * 10_000 >= share
                &&& fee->Ok_0 > 0 ==> (fee->Ok_0 - 1) * 10_000 < share
            }
        },
{
    if config is Ok && epoch is Ok {
        crate::fee::law_share_is_rounded_up(config->Ok_0.live(epoch->Ok_0), amount);
    }
}

/// A quote covers the share of the rate that is live in the mint's own bytes, and no more than is
/// needed for that, up to the cap of that rate.
pub proof fn law_quote_covers_the_live_share(
    accounts: QuoteRemittanceFee,
    data: &[u8],
    epoch: Result<u64, u64>,
    amount: u64,
    fee: Result<u64, Failure>,
)
    requires
        call_ensures(
            crate::remittance::quote_remittance_fee,
            (&accounts, data, epoch, amount),
            fee,
        ),
        fee is Ok,
    ensures
        crate::layout::fee_config(data@) is Ok,
        epoch is Ok,
        ({
            let config = crate::layout::fee_config(data@)->Ok_0;
            let rate = if epoch->Ok_0 < config.newer_transfer_fee.epoch {
                config.older_transfer_fee
            } else {
                config.newer_transfer_fee
            };
            let share = amount * rate.transfer_fee_basis_points;
            &&& fee->Ok_0 <= rate.maximum_fee
            &&& fee->Ok_0 < rate.maximum_fee ==> fee->Ok_0 * 10_000 >= share
            &&& fee->Ok_0 > 0 ==> (fee->Ok_0 - 1) * 10_000 < share
        }),
{
    let config = crate::layout::fee_config(data@)->Ok_0;
    crate::fee::law_share_is_rounded_up(config.live(epoch->Ok_0), amount);
}

/// A transfer moves the whole amount that was asked for, between the accounts that were given and
/// in the name of the authority that was given. It names the decimals of the mint, and a fee that
/// covers the live rate's share of that same amount and no more, up to the cap.
pub proof fn law_transfer_moves_what_was_asked(
    accounts: TransferWithProtocolFee,
    data: &[u8],
    epoch: Result<u64, u64>,
    asked: u64,
    step: Result<Step, Failure>,
)
    requires
        call_ensures(
            crate::remittance::transfer_with_protocol_fee,
            (&accounts, data, epoch, asked),
            step,
        ),
        step is Ok,
    ensures
        crate::layout::fee_config(data@) is Ok,
        epoch is Ok,
        ({
            let config = crate::layout::fee_config(data@)->Ok_0;
            let rate = if epoch->Ok_0 < config.newer_transfer_fee.epoch {
                config.older_transfer_fee
            } else {
                config.newer_transfer_fee
            };
            let share = asked * rate.transfer_fee_basis_points;
            &&& step->Ok_0 matches Step::TransferCheckedWithFee {
                source,
                mint,
                destination,
                authority,
                amount,
                decimals,
                fee,
            }
            &&& source == accounts.source.key
            &&& mint == accounts.mint.key
            &&& destination == accounts.destination.key
            &&& authority == accounts.authority.key
            &&& amount == asked
            &&& decimals == data@[44]
            &&& fee <= rate.maximum_fee
            &&& fee < rate.maximum_fee ==> fee * 10_000 >= share
            &&& fee > 0 ==> (fee - 1) * 10_000 < share
        }),
{
    let config = crate::layout::fee_config(data@)->Ok_0;
    crate::fee::law_share_is_rounded_up(config.live(epoch->Ok_0), asked);
}

/// A transfer names the fee that is quoted for the same amount of the same mint in the same epoch,
/// wherever both are planned.
pub proof fn law_transfer_names_the_quoted_fee(
    quoting: QuoteRemittanceFee,
    accounts: TransferWithProtocolFee,
    data: &[u8],
    epoch: Result<u64, u64>,
    asked: u64,
    quoted: Result<u64, Failure>,
    step: Result<Step, Failure>,
)
    requires
        call_ensures(
            crate::remittance::quote_remittance_fee,
            (&quoting, data, epoch, asked),
            quoted,
        ),
        call_ensures(
            crate::remittance::transfer_with_protocol_fee,
            (&accounts, data, epoch, asked),
            step,
        ),
        quoted is Ok,
        step is Ok,
    ensures
        step->Ok_0 matches Step::TransferCheckedWithFee { amount, fee, .. } && amount == asked
            && fee == quoted->Ok_0,
{
}

/// Thawing names the token account, the mint and the freeze authority that were given.
pub proof fn law_thaw_names_one_account(accounts: ThawAfterKyc, step: Result<Step, Failure>)
    requires
        call_ensures(crate::remittance::thaw_after_kyc, (&accounts,), step),
        step is Ok,
    ensures
        step->Ok_0 == (Step::ThawAccount {
            account: accounts.token_account.key,
            mint: accounts.mint.key,
            authority: accounts.freeze_authority.key,
        }),
{
}

/// Configuring passes on the balance and the counter that the owner gave, for their own account and
/// with their own proof.
pub proof fn law_configuring_passes_on_what_the_owner_gave(
    accounts: ConfigureConfidentialAccount,
    zero_balance: [u8; AE_CIPHERTEXT_LEN],
    maximum_credits: u64,
    step: Result<Step, Failure>,
)
    requires
        call_ensures(
            crate::confidential::configure_confidential_account,
            (&accounts, zero_balance, maximum_credits),
            step,
        ),
        step is Ok,
    ensures
        step->Ok_0 == (Step::ConfigureConfidentialAccount {
            account: accounts.token_account.key,
            mint: accounts.mint.key,
            proof_context: accounts.proof_context.key,
            owner: accounts.owner.key,
            decryptable_zero_balance: zero_balance,
            maximum_pending_balance_credit_counter: maximum_credits,
        }),
{
}

/// Approving names the token account and the mint that were given, in the name of the authority
/// over confidential transfers.
pub proof fn law_approval_names_one_account(
    accounts: ApproveConfidentialAccount,
    step: Result<Step, Failure>,
)
    requires
        call_ensures(crate::confidential::approve_confidential_account, (&accounts,), step),
        step is Ok,
    ensures
        step->Ok_0 == (Step::ApproveConfidentialAccount {
            account: accounts.token_account.key,
            mint: accounts.mint.key,
            authority: accounts.confidential_authority.key,
        }),
{
}

/// A deposit moves the whole amount that was asked for, with the decimals that were given.
pub proof fn law_deposit_moves_what_was_asked(
    accounts: DepositConfidential,
    asked: u64,
    given: u8,
    step: Result<Step, Failure>,
)
    requires
        call_ensures(crate::confidential::deposit_confidential, (&accounts, asked, given), step),
        step is Ok,
    ensures
        step->Ok_0 == (Step::DepositConfidential {
            account: accounts.token_account.key,
            mint: accounts.mint.key,
            authority: accounts.authority.key,
            amount: asked,
            decimals: given,
        }),
{
}

/// Applying passes on the counter and the balance that the owner gave, unread.
pub proof fn law_applying_passes_on_what_the_owner_gave(
    accounts: ApplyPendingBalance,
    expected_credits: u64,
    available_balance: [u8; AE_CIPHERTEXT_LEN],
    step: Result<Step, Failure>,
)
    requires
        call_ensures(
            crate::confidential::apply_pending_balance,
            (&accounts, expected_credits, available_balance),
            step,
        ),
        step is Ok,
    ensures
        step->Ok_0 == (Step::ApplyPendingBalance {
            account: accounts.token_account.key,
            authority: accounts.authority.key,
            expected_pending_balance_credit_counter: expected_credits,
            new_decryptable_available_balance: available_balance,
        }),
{
}

/// The list of supported extensions holds the close authority, the metadata pointer and the fee
/// rates; a kind is supported exactly if it is on it.
pub proof fn law_three_kinds_are_supported(kind: ExtensionType, supported: bool)
    requires
        call_ensures(ExtensionType::is_supported, (kind,), supported),
    ensures
        SUPPORTED_EXTENSIONS@ == seq![
            ExtensionType::MintCloseAuthority,
            ExtensionType::MetadataPointer,
            ExtensionType::TransferFeeConfig,
        ],
        supported <==> exists|j: int|
            0 <= j < SUPPORTED_EXTENSIONS@.len() && #[trigger] SUPPORTED_EXTENSIONS@[j] == kind,
{
}

/// A list of numbers passes exactly if each is the number of a kind on the list of supported
/// extensions: 1, 3 or 18.
pub proof fn law_numbers_pass_only_from_the_list(codes: Vec<u16>, supported: bool)
    requires
        call_ensures(crate::inspect::check_extensions, (&codes,), supported),
    ensures
        supported <==> forall|i: int|
            0 <= i < codes@.len() ==> exists|j: int|
                0 <= j < SUPPORTED_EXTENSIONS@.len() && SUPPORTED_EXTENSIONS@[j].number()
                    == #[trigger] codes@[i],
        supported <==> forall|i: int|
            0 <= i < codes@.len() ==> (#[trigger] codes@[i] == 1 || codes@[i] == 3 || codes@[i]
                == 18),
{
    assert(SUPPORTED_EXTENSIONS@[0].number() == 3);
    assert(SUPPORTED_EXTENSIONS@[1].number() == 18);
    assert(SUPPORTED_EXTENSIONS@[2].number() == 1);
}

/// A mint whose bytes were read is accepted exactly if its records could be walked, if each names a
/// kind on the list of supported extensions, and if the epoch is known where there are rates. What
/// is reported is its decimals and the rate that is live, or zero where there are none.
pub proof fn law_mint_is_accepted_for_its_extensions_alone(
    decimals: u8,
    codes: Result<Vec<u16>, u64>,
    config: Result<TransferFeeConfig, u64>,
    epoch: Result<u64, u64>,
    accepted: Result<SupportedMint, Failure>,
)
    requires
        call_ensures(crate::inspect::accept_mint, (decimals, &codes, config, epoch), accepted),
    ensures
        codes matches Err(code) ==> accepted == Err::<SupportedMint, Failure>(
            Failure::Program(code),
        ),
        codes matches Ok(listed) ==> {
            let unlisted = exists|i: int|
                0 <= i < listed@.len() && #[trigger] listed@[i] != 1 && listed@[i] != 3 && listed@[i]
                    != 18;
            &&& unlisted ==> accepted == Err::<SupportedMint, Failure>(
                Failure::Mint(MintError::UnsupportedExtension),
            )
            &&& !unlisted && config is Ok && epoch is Err ==> accepted == Err::<
                SupportedMint,
                Failure,
            >(Failure::Program(epoch->Err_0))
            &&& !unlisted && (config is Err || epoch is Ok) ==> accepted is Ok
        },
        accepted matches Ok(mint) ==> {
            &&& mint.decimals == decimals
            &&& config is Err ==> mint.basis_points == 0
            &&& config is Ok && epoch->Ok_0 < config->Ok_0.newer_transfer_fee.epoch
                ==> mint.basis_points == config->Ok_0.older_transfer_fee.transfer_fee_basis_points
            &&& config is Ok && epoch->Ok_0 >= config->Ok_0.newer_transfer_fee.epoch
                ==> mint.basis_points == config->Ok_0.newer_transfer_fee.transfer_fee_basis_points
        },
{
}

/// An accepted mint carries nothing but kinds on the list of supported extensions. What is reported
/// of it are the decimals in its bytes and the rate that is live, or zero where it has no rates.
pub proof fn law_accepted_mint_is_reported_as_it_is(
    accounts: AssertSupportedMint,
    data: &[u8],
    epoch: Result<u64, u64>,
    accepted: Result<SupportedMint, Failure>,
)
    requires
        call_ensures(crate::inspect::assert_supported_mint, (&accounts, data, epoch), accepted),
        accepted is Ok,
    ensures
        crate::layout::extension_codes(data@) is Ok,
        forall|i: int|
            0 <= i < crate::layout::extension_codes(data@)->Ok_0.len() ==> exists|j: int|
                0 <= j < SUPPORTED_EXTENSIONS@.len() && SUPPORTED_EXTENSIONS@[j].number()
                    == #[trigger] crate::layout::extension_codes(data@)->Ok_0[i],
        accepted->Ok_0.decimals == data@[44],
        match crate::layout::fee_config(data@) {
            Err(_) => accepted->Ok_0.basis_points == 0,
            Ok(config) => {
                &&& epoch is Ok
                &&& epoch->Ok_0 < config.newer_transfer_fee.epoch ==> accepted->Ok_0.basis_points
                    == config.older_transfer_fee.transfer_fee_basis_points
                &&& epoch->Ok_0 >= config.newer_transfer_fee.epoch ==> accepted->Ok_0.basis_points
                    == config.newer_transfer_fee.transfer_fee_basis_points
            },
        },
{
    assert(SUPPORTED_EXTENSIONS@[0].number() == 3);
    assert(SUPPORTED_EXTENSIONS@[1].number() == 18);
    assert(SUPPORTED_EXTENSIONS@[2].number() == 1);
}

/// A kind is found again by its number, each kind of a list at its own place.
pub proof fn law_kinds_are_found_by_their_numbers(
    kinds: Vec<ExtensionType>,
    codes: Vec<u16>,
    i: int,
    found: Option<ExtensionType>,
)
    requires
        call_ensures(crate::extension::codes, (&kinds,), codes),
        0 <= i < kinds@.len(),
        call_ensures(ExtensionType::from_code, (codes@[i],), found),
    ensures
        codes@.len() == kinds@.len(),
        found == Some(kinds@[i]),
{
    crate::extension::law_numbers_tell_kinds_apart(found->0, kinds@[i]);
}

} // verus!
