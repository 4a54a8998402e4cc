//! What the mints that are planned come to: each setting is the one that was asked for.

use vstd::prelude::*;

use crate::accounts::CreateMintDeclarative;
use crate::accounts::CreateMintWithFee;
use crate::accounts::CreateRemittanceMint;
use crate::accounts::ReissueRemittanceMint;
use crate::error::Failure;
use crate::extension::ExtensionType;
use crate::mint::MintKind;
use crate::mint::MintPlan;
use crate::step::AccountState;
use crate::step::Step;
use crate::step::ELGAMAL_PUBKEY_LEN;

verus! {

/// The calls that make a declared mint: an account that the payer pays for, or tops up to its rent
/// where it holds lamports already; a metadata pointer and a close authority, both in the hands of
/// the payer; and a mint with the decimals that were given, which nobody can freeze.
pub proof fn law_calls_of_declared_mint(
    accounts: CreateMintDeclarative,
    decimals: u8,
    space: u64,
    rent_minimum: u64,
    planned: Vec<Step>,
)
    requires
        call_ensures(
            CreateMintDeclarative::plan,
            (&accounts, decimals, space, rent_minimum),
            planned,
        ),
    ensures
        ({
            let steps = planned@;
            &&& steps.len() == 4
            &&& accounts.mint.lamports == 0 ==> steps[0] == Step::CreateAccount {
                from: accounts.payer.key,
                to: accounts.mint.key,
                lamports: rent_minimum,
                space,
                owner: accounts.token_program.key,
            }
            &&& accounts.mint.lamports > 0 ==> {
                &&& steps[0] matches Step::CreateAccountAllowPrefund {
                    from,
                    to,
                    lamports,
                    space: len,
                    owner,
                }
                &&& from == accounts.payer.key
                &&& to == accounts.mint.key
                &&& len == space
                &&& owner == accounts.token_program.key
                &&& accounts.mint.lamports < rent_minimum ==> accounts.mint.lamports + lamports
                    == rent_minimum
                &&& accounts.mint.lamports >= rent_minimum ==> lamports == 0
            }
            &&& steps[1] == Step::InitializeMetadataPointer {
                mint: accounts.mint.key,
                authority: Some(accounts.payer.key),
                metadata_address: Some(accounts.payer.key),
            }
            &&& steps[2] == Step::InitializeMintCloseAuthority {
                mint: accounts.mint.key,
                close_authority: Some(accounts.payer.key),
            }
            &&& steps[3] == Step::InitializeMint2 {
                mint: accounts.mint.key,
                decimals,
                mint_authority: accounts.payer.key,
                freeze_authority: None,
            }
        }),
{
}

/// `create_mint_declarative` makes those calls, for an account of the bytes that its two extensions
/// need.
pub proof fn law_declared_mint_is_made_as_asked(
    accounts: CreateMintDeclarative,
    decimals: u8,
    rent_minimum: u64,
    plan: Result<MintPlan, Failure>,
)
    requires
        call_ensures(
            crate::mint::create_mint_declarative,
            (&accounts, decimals, rent_minimum),
            plan,
        ),
        plan is Ok,
    ensures
        plan->Ok_0.token_program == accounts.token_program.key,
        ({
            let steps = plan->Ok_0.steps@;
            &&& steps.len() == 4
            &&& accounts.mint.lamports == 0 ==> steps[0] == Step::CreateAccount {
                from: accounts.payer.key,
                to: accounts.mint.key,
                lamports: rent_minimum,
                space: 270,
                owner: accounts.token_program.key,
            }
            &&& accounts.mint.lamports > 0 ==> {
                &&& steps[0] matches Step::CreateAccountAllowPrefund {
                    from,
                    to,
                    lamports,
                    space: len,
                    owner,
                }
                &&& from == accounts.payer.key
                &&& to == accounts.mint.key
                &&& len == 270u64
                &&& owner == accounts.token_program.key
                &&& accounts.mint.lamports < rent_minimum ==> accounts.mint.lamports + lamports
                    == rent_minimum
                &&& accounts.mint.lamports >= rent_minimum ==> lamports == 0
            }
            &&& steps[1] == Step::InitializeMetadataPointer {
                mint: accounts.mint.key,
                authority: Some(accounts.payer.key),
                metadata_address: Some(accounts.payer.key),
            }
            &&& steps[2] == Step::InitializeMintCloseAuthority {
                mint: accounts.mint.key,
                close_authority: Some(accounts.payer.key),
            }
            &&& steps[3] == Step::InitializeMint2 {
                mint: accounts.mint.key,
                decimals,
                mint_authority: accounts.payer.key,
                freeze_authority: None,
            }
        }),
{
    super::law_bytes_of_a_mint(MintKind::Declarative);
}

/// The calls that make a mint with a transfer fee: an account that the payer pays for, a close
/// authority, the rate and the cap that were given, and a mint with the decimals that were given,
/// which nobody can freeze.
pub proof fn law_calls_of_mint_with_fee(
    accounts: CreateMintWithFee,
    decimals: u8,
    basis_points: u16,
    maximum_fee: u64,
    space: u64,
    rent_minimum: u64,
    planned: Vec<Step>,
)
    requires
        call_ensures(
            CreateMintWithFee::plan,
            (&accounts, decimals, basis_points, maximum_fee, space, rent_minimum),
            planned,
        ),
    ensures
        ({
            let steps = planned@;
            &&& steps.len() == 4
            &&& steps[0] == Step::CreateAccount {
                from: accounts.payer.key,
                to: accounts.mint.key,
                lamports: rent_minimum,
                space,
                owner: accounts.token_program.key,
            }
            &&& steps[1] == Step::InitializeMintCloseAuthority {
                mint: accounts.mint.key,
                close_authority: Some(accounts.payer.key),
            }
            &&& steps[2] == Step::InitializeTransferFeeConfig {
                mint: accounts.mint.key,
                transfer_fee_config_authority: Some(accounts.payer.key),
                withdraw_withheld_authority: Some(accounts.payer.key),
                transfer_fee_basis_points: basis_points,
                maximum_fee,
            }
            &&& steps[3] == Step::InitializeMint2 {
                mint: accounts.mint.key,
                decimals,
                mint_authority: accounts.payer.key,
                freeze_authority: None,
            }
        }),
{
}

/// `create_mint_with_fee` makes those calls, for an account of the bytes that its two extensions
/// need.
pub proof fn law_mint_with_fee_is_made_as_asked(
    accounts: CreateMintWithFee,
    decimals: u8,
    basis_points: u16,
    maximum_fee: u64,
    rent_minimum: u64,
    plan: Result<MintPlan, Failure>,
)
    requires
        call_ensures(
            crate::mint::create_mint_with_fee,
            (&accounts, decimals, basis_points, maximum_fee, rent_minimum),
            plan,
        ),
        plan is Ok,
    ensures
        plan->Ok_0.token_program == accounts.token_program.key,
        ({
            let steps = plan->Ok_0.steps@;
            &&& steps.len() == 4
            &&& steps[0] == Step::CreateAccount {
                from: accounts.payer.key,
                to: accounts.mint.key,
                lamports: rent_minimum,
                space: 314,
                owner: accounts.token_program.key,
            }
            &&& steps[1] == Step::InitializeMintCloseAuthority {
                mint: accounts.mint.key,
                close_authority: Some(accounts.payer.key),
            }
            &&& steps[2] == Step::InitializeTransferFeeConfig {
                mint: accounts.mint.key,
                transfer_fee_config_authority: Some(accounts.payer.key),
                withdraw_withheld_authority: Some(accounts.payer.key),
                transfer_fee_basis_points: basis_points,
                maximum_fee,
            }
            &&& steps[3] == Step::InitializeMint2 {
                mint: accounts.mint.key,
                decimals,
                mint_authority: accounts.payer.key,
                freeze_authority: None,
            }
        }),
{
    super::law_bytes_of_a_mint(MintKind::WithFee);
}

/// The calls that make a remittance mint: an account that the payer pays for, the rate and the cap
/// that were given, metadata on the mint itself, token accounts that start frozen, a close
/// authority, and a mint with the decimals that were given, whose token accounts the payer can
/// thaw.
pub proof fn law_calls_of_remittance_mint(
    accounts: CreateRemittanceMint,
    decimals: u8,
    basis_points: u16,
    maximum_fee: u64,
    space: u64,
    rent_minimum: u64,
    planned: Vec<Step>,
)
    requires
        call_ensures(
            CreateRemittanceMint::plan,
            (&accounts, decimals, basis_points, maximum_fee, space, rent_minimum),
            planned,
        ),
    ensures
        ({
            let steps = planned@;
            &&& steps.len() == 6
            &&& steps[0] == Step::CreateAccount {
                from: accounts.payer.key,
                to: accounts.mint.key,
                lamports: rent_minimum,
                space,
                owner: accounts.token_program.key,
            }
            &&& steps[1] == Step::InitializeTransferFeeConfig {
                mint: accounts.mint.key,
                transfer_fee_config_authority: Some(accounts.payer.key),
                withdraw_withheld_authority: Some(accounts.payer.key),
                transfer_fee_basis_points: basis_points,
                maximum_fee,
            }
            &&& steps[2] == Step::InitializeMetadataPointer {
                mint: accounts.mint.key,
                authority: Some(accounts.payer.key),
                metadata_address: Some(accounts.mint.key),
            }
            &&& steps[3] == Step::InitializeDefaultAccountState {
                mint: accounts.mint.key,
                state: AccountState::Frozen,
            }
            &&& steps[4] == Step::InitializeMintCloseAuthority {
                mint: accounts.mint.key,
                close_authority: Some(accounts.payer.key),
            }
            &&& steps[5] == Step::InitializeMint2 {
                mint: accounts.mint.key,
                decimals,
                mint_authority: accounts.payer.key,
                freeze_authority: Some(accounts.payer.key),
            }
        }),
{
}

/// `create_remittance_mint` makes those calls, for an account of the bytes that its four extensions
/// need.
pub proof fn law_remittance_mint_is_made_as_asked(
    accounts: CreateRemittanceMint,
    decimals: u8,
    basis_points: u16,
    maximum_fee: u64,
    rent_minimum: u64,
    plan: Result<MintPlan, Failure>,
)
    requires
        call_ensures(
            crate::mint::create_remittance_mint,
            (&accounts, decimals, basis_points, maximum_fee, rent_minimum),
            plan,
        ),
        plan is Ok,
    ensures
        plan->Ok_0.token_program == accounts.token_program.key,
        ({
            let steps = plan->Ok_0.steps@;
            &&& steps.len() == 6
            &&& steps[0] == Step::CreateAccount {
                from: accounts.payer.key,
                to: accounts.mint.key,
                lamports: rent_minimum,
                space: 387,
                owner: accounts.token_program.key,
            }
            &&& steps[1] == Step::InitializeTransferFeeConfig {
                mint: accounts.mint.key,
                transfer_fee_config_authority: Some(accounts.payer.key),
                withdraw_withheld_authority: Some(accounts.payer.key),
                transfer_fee_basis_points: basis_points,
                maximum_fee,
            }
            &&& steps[2] == Step::InitializeMetadataPointer {
                mint: accounts.mint.key,
                authority: Some(accounts.payer.key),
                metadata_address: Some(accounts.mint.key),
            }
            &&& steps[3] == Step::InitializeDefaultAccountState {
                mint: accounts.mint.key,
                state: AccountState::Frozen,
            }
            &&& steps[4] == Step::InitializeMintCloseAuthority {
                mint: accounts.mint.key,
                close_authority: Some(accounts.payer.key),
            }
            &&& steps[5] == Step::InitializeMint2 {
                mint: accounts.mint.key,
                decimals,
                mint_authority: accounts.payer.key,
                freeze_authority: Some(accounts.payer.key),
            }
        }),
{
    super::law_bytes_of_a_mint(MintKind::Remittance);
}

/// The calls that make a re-issued mint: those of a remittance mint, with the rate, the cap and the
/// decimals that were given, and before the mint is initialized the payer as delegate over all
/// token accounts, confidential transfers that the payer approves one account at a time and no
/// auditor reads, and the key that was given for their fees.
pub proof fn law_calls_of_reissued_mint(
    accounts: ReissueRemittanceMint,
    decimals: u8,
    basis_points: u16,
    maximum_fee: u64,
    elgamal_pubkey: [u8; ELGAMAL_PUBKEY_LEN],
    space: u64,
    rent_minimum: u64,
    planned: Vec<Step>,
)
    requires
        call_ensures(
            ReissueRemittanceMint::plan,
            (&accounts, decimals, basis_points, maximum_fee, elgamal_pubkey, space, rent_minimum),
            planned,
        ),
    ensures
        ({
            let steps = planned@;
            &&& steps.len() == 9
            &&& steps[0] == Step::CreateAccount {
                from: accounts.payer.key,
                to: accounts.mint.key,
                lamports: rent_minimum,
                space,
                owner: accounts.token_program.key,
            }
            &&& steps[1] == Step::InitializeTransferFeeConfig {
                mint: accounts.mint.key,
                transfer_fee_config_authority: Some(accounts.payer.key),
                withdraw_withheld_authority: Some(accounts.payer.key),
                transfer_fee_basis_points: basis_points,
                maximum_fee,
            }
            &&& steps[2] == Step::InitializeMetadataPointer {
                mint: accounts.mint.key,
                authority: Some(accounts.payer.key),
                metadata_address: Some(accounts.mint.key),
            }
            &&& steps[3] == Step::InitializeDefaultAccountState {
                mint: accounts.mint.key,
                state: AccountState::Frozen,
            }
            &&& steps[4] == Step::InitializeMintCloseAuthority {
                mint: accounts.mint.key,
                close_authority: Some(accounts.payer.key),
            }
            &&& steps[5] == Step::InitializePermanentDelegate {
                mint: accounts.mint.key,
                delegate: accounts.payer.key,
            }
            &&& steps[6] == Step::InitializeConfidentialTransferMint {
                mint: accounts.mint.key,
                authority: Some(accounts.payer.key),
                auto_approve_new_accounts: false,
                auditor_elgamal_pubkey: None,
            }
            &&& steps[7] == Step::InitializeConfidentialTransferFeeConfig {
                mint: accounts.mint.key,
                authority: Some(accounts.payer.key),
                withdraw_withheld_authority_elgamal_pubkey: elgamal_pubkey,
            }
            &&& steps[8] == Step::InitializeMint2 {
                mint: accounts.mint.key,
                decimals,
                mint_authority: accounts.payer.key,
                freeze_authority: Some(accounts.payer.key),
            }
        }),
{
}

/// `reissue_remittance_mint` makes those calls, for an account of the bytes that its seven
/// extensions need.
pub proof fn law_reissued_mint_is_made_as_asked(
    accounts: ReissueRemittanceMint,
    decimals: u8,
    basis_points: u16,
    maximum_fee: u64,
    elgamal_pubkey: [u8; ELGAMAL_PUBKEY_LEN],
    rent_minimum: u64,
    plan: Result<MintPlan, Failure>,
)
    requires
        call_ensures(
            crate::mint::reissue_remittance_mint,
            (&accounts, decimals, basis_points, maximum_fee, elgamal_pubkey, rent_minimum),
            plan,
        ),
        plan is Ok,
    ensures
        plan->Ok_0.token_program == accounts.token_program.key,
        ({
            let steps = plan->Ok_0.steps@;
            &&& steps.len() == 9
            &&& steps[0] == Step::CreateAccount {
                from: accounts.payer.key,
                to: accounts.mint.key,
                lamports: rent_minimum,
                space: 625,
                owner: accounts.token_program.key,
            }
            &&& steps[1] == Step::InitializeTransferFeeConfig {
                mint: accounts.mint.key,
                transfer_fee_config_authority: Some(accounts.payer.key),
                withdraw_withheld_authority: Some(accounts.payer.key),
                transfer_fee_basis_points: basis_points,
                maximum_fee,
            }
            &&& steps[2] == Step::InitializeMetadataPointer {
                mint: accounts.mint.key,
                authority: Some(accounts.payer.key),
                metadata_address: Some(accounts.mint.key),
            }
            &&& steps[3] == Step::InitializeDefaultAccountState {
                mint: accounts.mint.key,
                state: AccountState::Frozen,
            }
            &&& steps[4] == Step::InitializeMintCloseAuthority {
                mint: accounts.mint.key,
                close_authority: Some(accounts.payer.key),
            }
            &&& steps[5] == Step::InitializePermanentDelegate {
                mint: accounts.mint.key,
                delegate: accounts.payer.key,
            }
            &&& steps[6] == Step::InitializeConfidentialTransferMint {
                mint: accounts.mint.key,
                authority: Some(accounts.payer.key),
                auto_approve_new_accounts: false,
                auditor_elgamal_pubkey: None,
            }
            &&& steps[7] == Step::InitializeConfidentialTransferFeeConfig {
                mint: accounts.mint.key,
                authority: Some(accounts.payer.key),
                withdraw_withheld_authority_elgamal_pubkey: elgamal_pubkey,
            }
            &&& steps[8] == Step::InitializeMint2 {
                mint: accounts.mint.key,
                decimals,
                mint_authority: accounts.payer.key,
                freeze_authority: Some(accounts.payer.key),
            }
        }),
{
    super::law_bytes_of_a_mint(MintKind::Reissued);
}

/// The extensions of each kind of mint, and the bytes that they come to.
pub proof fn law_each_kind_of_mint_has_its_extensions(
    kind: MintKind,
    extensions: Vec<ExtensionType>,
    space: usize,
)
    requires
        call_ensures(MintKind::extensions, (kind,), extensions),
        call_ensures(MintKind::space, (kind,), space),
    ensures
        extensions@ == match kind {
            MintKind::Declarative => seq![
                ExtensionType::MetadataPointer,
                ExtensionType::MintCloseAuthority,
            ],
            MintKind::WithFee => seq![
                ExtensionType::MintCloseAuthority,
                ExtensionType::TransferFeeConfig,
            ],
            MintKind::Remittance => seq![
                ExtensionType::TransferFeeConfig,
                ExtensionType::MetadataPointer,
                ExtensionType::DefaultAccountState,
                ExtensionType::MintCloseAuthority,
            ],
            MintKind::Reissued => seq![
                ExtensionType::TransferFeeConfig,
                ExtensionType::MetadataPointer,
                ExtensionType::DefaultAccountState,
                ExtensionType::MintCloseAuthority,
                ExtensionType::PermanentDelegate,
                ExtensionType::ConfidentialTransferMint,
                ExtensionType::ConfidentialTransferFeeConfig,
            ],
        },
        space == match kind {
            MintKind::Declarative => 270usize,
            MintKind::WithFee => 314usize,
            MintKind::Remittance => 387usize,
            MintKind::Reissued => 625usize,
        },
{
}

/// While the last call succeeded and calls are left, the one at the place that was reached follows;
/// once all were made, none follows; once one failed, its error does, wherever the plan stands.
pub proof fn law_next_call_stands_at_the_place_reached<E>(
    plan: MintPlan,
    done: usize,
    last: Result<(), E>,
    next: Result<Option<Step>, E>,
)
    requires
        call_ensures(crate::mint::next_step::<E>, (&plan, done, last), next),
    ensures
        last matches Err(error) ==> next == Err::<Option<Step>, E>(error),
        last is Ok && done < plan.steps@.len() ==> next == Ok::<Option<Step>, E>(
            Some(plan.steps@[done as int]),
        ),
        last is Ok && done >= plan.steps@.len() ==> next == Ok::<Option<Step>, E>(None),
{
}

} // verus!
