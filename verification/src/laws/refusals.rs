//! When each instruction is refused, and for which of its rules.

use vstd::prelude::*;

use crate::accounts::AccountView;
use crate::accounts::ApplyPendingBalance;
use crate::accounts::ApproveConfidentialAccount;
use crate::accounts::AssertSupportedMint;
use crate::accounts::ConfigureConfidentialAccount;
use crate::accounts::CreateMintDeclarative;
use crate::accounts::CreateMintWithFee;
use crate::accounts::CreateRemittanceMint;
use crate::accounts::DepositConfidential;
use crate::accounts::QuoteRemittanceFee;
use crate::accounts::ReissueRemittanceMint;
use crate::accounts::ThawAfterKyc;
use crate::accounts::TransferWithProtocolFee;
use crate::error::AccountName;
use crate::error::ErrorCode;
use crate::error::Failure;
use crate::error::MintError;
use crate::extension::SUPPORTED_EXTENSIONS;
use crate::inspect::SupportedMint;
use crate::key::Pubkey;
use crate::key::SPL_TOKEN_ID;
use crate::key::SYSTEM_PROGRAM_ID;
use crate::key::TOKEN_2022_ID;
use crate::mint::MintPlan;
use crate::step::Step;
use crate::step::AE_CIPHERTEXT_LEN;
use crate::step::ELGAMAL_PUBKEY_LEN;

verus! {

/// The failure of the account `name` to meet `code`.
pub open spec fn fails(name: AccountName, code: ErrorCode) -> Failure {
    Failure::Account { name, code }
}

/// Whether `failure` is what comes of these rules, each given by whether it holds and by its
/// failure: none where all hold, else that of a rule that does not hold while all before it do.
pub open spec fn refused_in_order(rules: Seq<(bool, Failure)>, failure: Option<Failure>) -> bool {
    match failure {
        None => forall|i: int| 0 <= i < rules.len() ==> (#[trigger] rules[i]).0,
        Some(failure) => exists|i: int|
            {
                &&& 0 <= i < rules.len()
                &&& !(#[trigger] rules[i]).0
                &&& rules[i].1 == failure
                &&& forall|j: int| 0 <= j < i ==> (#[trigger] rules[j]).0
            },
    }
}

/// Two failures that come of the same rules are the same.
pub proof fn law_refusal_is_determined_by_the_rules(
    rules: Seq<(bool, Failure)>,
    a: Option<Failure>,
    b: Option<Failure>,
)
    requires
        refused_in_order(rules, a),
        refused_in_order(rules, b),
    ensures
        a == b,
{
    if a is Some && b is Some {
        let i = choose|i: int|
            0 <= i < rules.len() && !(#[trigger] rules[i]).0 && rules[i].1 == a->0 && forall|j: int|
                0 <= j < i ==> (#[trigger] rules[j]).0;
        let k = choose|i: int|
            0 <= i < rules.len() && !(#[trigger] rules[i]).0 && rules[i].1 == b->0 && forall|j: int|
                0 <= j < i ==> (#[trigger] rules[j]).0;
        assert(!(i < k));
        assert(!(k < i));
    }
}

/// Each check of one account fails exactly where its rule does not hold, with the name that it was
/// given and its own rule.
pub proof fn law_each_check_finds_its_own_rule(
    account: AccountView,
    name: AccountName,
    owner: Pubkey,
    signer: Option<Failure>,
    writable: Option<Failure>,
    created: Option<Failure>,
    owned: Option<Failure>,
)
    requires
        call_ensures(AccountView::check_signer, (&account, name), signer),
        call_ensures(AccountView::check_mut, (&account, name), writable),
        call_ensures(AccountView::check_created, (&account, name), created),
        call_ensures(AccountView::check_owned, (&account, name, owner), owned),
    ensures
        refused_in_order(
            seq![(account.is_signer, fails(name, ErrorCode::AccountNotSigner))],
            signer,
        ),
        refused_in_order(
            seq![(account.is_writable, fails(name, ErrorCode::ConstraintMut))],
            writable,
        ),
        refused_in_order(
            seq![(account.is_signer, fails(name, ErrorCode::ConstraintSigner))],
            created,
        ),
        refused_in_order(
            seq![(account.owner == owner, fails(name, ErrorCode::ConstraintOwner))],
            owned,
        ),
{
    assert(seq![(account.is_signer, fails(name, ErrorCode::AccountNotSigner))][0].0
        == account.is_signer);
    assert(seq![(account.is_writable, fails(name, ErrorCode::ConstraintMut))][0].0
        == account.is_writable);
    assert(seq![(account.is_signer, fails(name, ErrorCode::ConstraintSigner))][0].0
        == account.is_signer);
    assert(seq![(account.owner == owner, fails(name, ErrorCode::ConstraintOwner))][0].1 == fails(
        name,
        ErrorCode::ConstraintOwner,
    ));
}

/// Two addresses are taken for the same exactly where all their bytes are the same.
pub proof fn law_addresses_are_compared_whole(a: Pubkey, b: Pubkey, same: bool)
    requires
        call_ensures(<Pubkey as PartialEq>::eq, (&a, &b), same),
    ensures
        same <==> forall|i: int| 0 <= i < 32 ==> #[trigger] a.0@[i] == b.0@[i],
{
    if forall|i: int| 0 <= i < 32 ==> #[trigger] a.0@[i] == b.0@[i] {
        assert(a.0@ =~= b.0@);
        assert(a.0 =~= b.0);
    }
}

/// A program passes only as itself: the token program as SPL Token or Token-2022, the system
/// program as the one that there is, and either only where it can be run.
pub proof fn law_program_passes_only_as_itself(
    account: AccountView,
    token: Option<Failure>,
    system: Option<Failure>,
)
    requires
        call_ensures(AccountView::check_token_program, (&account,), token),
        call_ensures(AccountView::check_system_program, (&account,), system),
    ensures
        refused_in_order(
            seq![
                (account.key == Pubkey(SPL_TOKEN_ID) || account.key == Pubkey(TOKEN_2022_ID), fails(
                    AccountName::TokenProgram,
                    ErrorCode::InvalidProgramId,
                )),
                (account.executable, fails(
                    AccountName::TokenProgram,
                    ErrorCode::InvalidProgramExecutable,
                )),
            ],
            token,
        ),
        refused_in_order(
            seq![
                (account.key == Pubkey(SYSTEM_PROGRAM_ID), fails(
                    AccountName::SystemProgram,
                    ErrorCode::InvalidProgramId,
                )),
                (account.executable, fails(
                    AccountName::SystemProgram,
                    ErrorCode::InvalidProgramExecutable,
                )),
            ],
            system,
        ),
{
}

/// `create_mint_declarative` is refused before its first call for the payer, for a program that is
/// not itself, and for a mint that holds lamports and is the payer; in that order, and for nothing
/// else.
pub proof fn law_declared_mint_is_refused_in_order(
    accounts: CreateMintDeclarative,
    decimals: u8,
    rent_minimum: u64,
    found: Option<Failure>,
    outcome: Result<MintPlan, Failure>,
)
    requires
        call_ensures(CreateMintDeclarative::check, (&accounts,), found),
        call_ensures(
            crate::mint::create_mint_declarative,
            (&accounts, decimals, rent_minimum),
            outcome,
        ),
    ensures
        refused_in_order(
            seq![
                (accounts.payer.is_signer, fails(
                    AccountName::Payer,
                    ErrorCode::AccountNotSigner,
                )),
                (
                    accounts.token_program.key == Pubkey(SPL_TOKEN_ID)
                        || accounts.token_program.key == Pubkey(TOKEN_2022_ID),
                    fails(AccountName::TokenProgram, ErrorCode::InvalidProgramId),
                ),
                (accounts.token_program.executable, fails(
                    AccountName::TokenProgram,
                    ErrorCode::InvalidProgramExecutable,
                )),
                (accounts.system_program.key == Pubkey(SYSTEM_PROGRAM_ID), fails(
                    AccountName::SystemProgram,
                    ErrorCode::InvalidProgramId,
                )),
                (accounts.system_program.executable, fails(
                    AccountName::SystemProgram,
                    ErrorCode::InvalidProgramExecutable,
                )),
                (
                    accounts.mint.lamports == 0 || accounts.payer.key != accounts.mint.key,
                    Failure::TryingToInitPayerAsProgramAccount,
                ),
            ],
            found,
        ),
        found matches Some(failure) ==> outcome == Err::<MintPlan, Failure>(failure),
        found is None ==> outcome is Ok,
{
}

/// A declared mint stands once its calls are made if it can be written, if it signed, if it holds
/// its rent and if the payer can be written; else it falls for the first of these that does not
/// hold.
pub proof fn law_declared_mint_stands_or_falls_in_order(
    accounts: CreateMintDeclarative,
    lamports: u64,
    rent_minimum: u64,
    found: Option<Failure>,
    outcome: Result<(), Failure>,
)
    requires
        call_ensures(CreateMintDeclarative::check_late, (&accounts, lamports, rent_minimum), found),
        call_ensures(
            crate::mint::confirm_mint_declarative,
            (&accounts, lamports, rent_minimum),
            outcome,
        ),
    ensures
        refused_in_order(
            seq![
                (accounts.mint.is_writable, fails(
                    AccountName::Mint,
                    ErrorCode::ConstraintMut,
                )),
                (accounts.mint.is_signer, fails(
                    AccountName::Mint,
                    ErrorCode::ConstraintSigner,
                )),
                (lamports >= rent_minimum, fails(
                    AccountName::Mint,
                    ErrorCode::ConstraintRentExempt,
                )),
                (accounts.payer.is_writable, fails(
                    AccountName::Payer,
                    ErrorCode::ConstraintMut,
                )),
            ],
            found,
        ),
        found matches Some(failure) ==> outcome == Err::<(), Failure>(failure),
        found is None ==> outcome is Ok,
{
}

/// `create_mint_with_fee` is refused for a payer who did not sign, for a program that is not
/// itself, for a payer or a mint that cannot be written, and for a mint that did not sign; in that
/// order, and for nothing else.
pub proof fn law_mint_with_fee_is_refused_in_order(
    accounts: CreateMintWithFee,
    decimals: u8,
    basis_points: u16,
    maximum_fee: u64,
    rent_minimum: u64,
    found: Option<Failure>,
    outcome: Result<MintPlan, Failure>,
)
    requires
        call_ensures(CreateMintWithFee::check, (&accounts,), found),
        call_ensures(
            crate::mint::create_mint_with_fee,
            (&accounts, decimals, basis_points, maximum_fee, rent_minimum),
            outcome,
        ),
    ensures
        refused_in_order(
            seq![
                (accounts.payer.is_signer, fails(
                    AccountName::Payer,
                    ErrorCode::AccountNotSigner,
                )),
                (
                    accounts.token_program.key == Pubkey(SPL_TOKEN_ID)
                        || accounts.token_program.key == Pubkey(TOKEN_2022_ID),
                    fails(AccountName::TokenProgram, ErrorCode::InvalidProgramId),
                ),
                (accounts.token_program.executable, fails(
                    AccountName::TokenProgram,
                    ErrorCode::InvalidProgramExecutable,
                )),
                (accounts.system_program.key == Pubkey(SYSTEM_PROGRAM_ID), fails(
                    AccountName::SystemProgram,
                    ErrorCode::InvalidProgramId,
                )),
                (accounts.system_program.executable, fails(
                    AccountName::SystemProgram,
                    ErrorCode::InvalidProgramExecutable,
                )),
                (accounts.payer.is_writable, fails(
                    AccountName::Payer,
                    ErrorCode::ConstraintMut,
                )),
                (accounts.mint.is_writable, fails(
                    AccountName::Mint,
                    ErrorCode::ConstraintMut,
                )),
                (accounts.mint.is_signer, fails(
                    AccountName::Mint,
                    ErrorCode::ConstraintSigner,
                )),
            ],
            found,
        ),
        found matches Some(failure) ==> outcome == Err::<MintPlan, Failure>(failure),
        found is None ==> outcome is Ok,
{
}

/// `create_remittance_mint` is refused for a payer who did not sign, for a program that is not
/// itself, for a payer or a mint that cannot be written, and for a mint that did not sign; in that
/// order, and for nothing else.
pub proof fn law_remittance_mint_is_refused_in_order(
    accounts: CreateRemittanceMint,
    decimals: u8,
    basis_points: u16,
    maximum_fee: u64,
    rent_minimum: u64,
    found: Option<Failure>,
    outcome: Result<MintPlan, Failure>,
)
    requires
        call_ensures(CreateRemittanceMint::check, (&accounts,), found),
        call_ensures(
            crate::mint::create_remittance_mint,
            (&accounts, decimals, basis_points, maximum_fee, rent_minimum),
            outcome,
        ),
    ensures
        refused_in_order(
            seq![
                (accounts.payer.is_signer, fails(
                    AccountName::Payer,
                    ErrorCode::AccountNotSigner,
                )),
                (
                    accounts.token_program.key == Pubkey(SPL_TOKEN_ID)
                        || accounts.token_program.key == Pubkey(TOKEN_2022_ID),
                    fails(AccountName::TokenProgram, ErrorCode::InvalidProgramId),
                ),
                (accounts.token_program.executable, fails(
                    AccountName::TokenProgram,
                    ErrorCode::InvalidProgramExecutable,
                )),
                (accounts.system_program.key == Pubkey(SYSTEM_PROGRAM_ID), fails(
                    AccountName::SystemProgram,
                    ErrorCode::InvalidProgramId,
                )),
                (accounts.system_program.executable, fails(
                    AccountName::SystemProgram,
                    ErrorCode::InvalidProgramExecutable,
                )),
                (accounts.payer.is_writable, fails(
                    AccountName::Payer,
                    ErrorCode::ConstraintMut,
                )),
                (accounts.mint.is_writable, fails(
                    AccountName::Mint,
                    ErrorCode::ConstraintMut,
                )),
                (accounts.mint.is_signer, fails(
                    AccountName::Mint,
                    ErrorCode::ConstraintSigner,
                )),
            ],
            found,
        ),
        found matches Some(failure) ==> outcome == Err::<MintPlan, Failure>(failure),
        found is None ==> outcome is Ok,
{
}

/// `reissue_remittance_mint` is refused for a payer who did not sign, for a program that is not
/// itself, for a payer or a mint that cannot be written, and for a mint that did not sign; in that
/// order, and for nothing else.
pub proof fn law_reissued_mint_is_refused_in_order(
    accounts: ReissueRemittanceMint,
    decimals: u8,
    basis_points: u16,
    maximum_fee: u64,
    elgamal_pubkey: [u8; ELGAMAL_PUBKEY_LEN],
    rent_minimum: u64,
    found: Option<Failure>,
    outcome: Result<MintPlan, Failure>,
)
    requires
        call_ensures(ReissueRemittanceMint::check, (&accounts,), found),
        call_ensures(
            crate::mint::reissue_remittance_mint,
            (&accounts, decimals, basis_points, maximum_fee, elgamal_pubkey, rent_minimum),
            outcome,
        ),
    ensures
        refused_in_order(
            seq![
                (accounts.payer.is_signer, fails(
                    AccountName::Payer,
                    ErrorCode::AccountNotSigner,
                )),
                (
                    accounts.token_program.key == Pubkey(SPL_TOKEN_ID)
                        || accounts.token_program.key == Pubkey(TOKEN_2022_ID),
                    fails(AccountName::TokenProgram, ErrorCode::InvalidProgramId),
                ),
                (accounts.token_program.executable, fails(
                    AccountName::TokenProgram,
                    ErrorCode::InvalidProgramExecutable,
                )),
                (accounts.system_program.key == Pubkey(SYSTEM_PROGRAM_ID), fails(
                    AccountName::SystemProgram,
                    ErrorCode::InvalidProgramId,
                )),
                (accounts.system_program.executable, fails(
                    AccountName::SystemProgram,
                    ErrorCode::InvalidProgramExecutable,
                )),
                (accounts.payer.is_writable, fails(
                    AccountName::Payer,
                    ErrorCode::ConstraintMut,
                )),
                (accounts.mint.is_writable, fails(
                    AccountName::Mint,
                    ErrorCode::ConstraintMut,
                )),
                (accounts.mint.is_signer, fails(
                    AccountName::Mint,
                    ErrorCode::ConstraintSigner,
                )),
            ],
            found,
        ),
        found matches Some(failure) ==> outcome == Err::<MintPlan, Failure>(failure),
        found is None ==> outcome is Ok,
{
}

/// `assert_supported_mint` is refused for a program that is not a token program, for a mint of
/// another program, for bytes that are no mint or whose records cannot be walked, for any extension
/// that is not on the list of those that are supported, and for an epoch that cannot be had where
/// the mint has fee rates; in that order, and for nothing else.
pub proof fn law_inspected_mint_is_refused_in_order(
    accounts: AssertSupportedMint,
    data: &[u8],
    epoch: Result<u64, u64>,
    found: Option<Failure>,
    outcome: Result<SupportedMint, Failure>,
)
    requires
        call_ensures(AssertSupportedMint::check, (&accounts,), found),
        call_ensures(
            crate::inspect::assert_supported_mint,
            (&accounts, data, epoch),
            outcome,
        ),
    ensures
        refused_in_order(
            seq![
                (
                    accounts.token_program.key == Pubkey(SPL_TOKEN_ID)
                        || accounts.token_program.key == Pubkey(TOKEN_2022_ID),
                    fails(AccountName::TokenProgram, ErrorCode::InvalidProgramId),
                ),
                (accounts.token_program.executable, fails(
                    AccountName::TokenProgram,
                    ErrorCode::InvalidProgramExecutable,
                )),
                (accounts.mint.owner == accounts.token_program.key, fails(
                    AccountName::Mint,
                    ErrorCode::ConstraintOwner,
                )),
            ],
            found,
        ),
        found matches Some(failure) ==> outcome == Err::<SupportedMint, Failure>(failure),
        found is None ==> refused_in_order(
            seq![
                (crate::layout::unpacked_decimals(data@) is Ok, Failure::Program(
                    crate::layout::unpacked_decimals(data@)->Err_0,
                )),
                (crate::layout::extension_codes(data@) is Ok, Failure::Program(
                    crate::layout::extension_codes(data@)->Err_0,
                )),
                (
                    forall|i: int|
                        0 <= i < crate::layout::extension_codes(data@)->Ok_0.len() ==> exists|j: int|
                            0 <= j < SUPPORTED_EXTENSIONS@.len() && SUPPORTED_EXTENSIONS@[j].number()
                                == #[trigger] crate::layout::extension_codes(data@)->Ok_0[i],
                    Failure::Mint(MintError::UnsupportedExtension),
                ),
                (crate::layout::fee_config(data@) is Ok ==> epoch is Ok, Failure::Program(
                    epoch->Err_0,
                )),
            ],
            match outcome {
                Ok(_) => None,
                Err(failure) => Some(failure),
            },
        ),
{
}

/// A quote is refused for a program that is not a token program, for a mint of another program, for
/// bytes that are no mint, for a mint without fee rates, for an epoch that cannot be had, and for a
/// fee that does not fit in 64 bits; in that order, and for nothing else.
pub proof fn law_quote_is_refused_in_order(
    accounts: QuoteRemittanceFee,
    data: &[u8],
    epoch: Result<u64, u64>,
    amount: u64,
    found: Option<Failure>,
    outcome: Result<u64, Failure>,
)
    requires
        call_ensures(QuoteRemittanceFee::check, (&accounts,), found),
        call_ensures(
            crate::remittance::quote_remittance_fee,
            (&accounts, data, epoch, amount),
            outcome,
        ),
    ensures
        refused_in_order(
            seq![
                (
                    accounts.token_program.key == Pubkey(SPL_TOKEN_ID)
                        || accounts.token_program.key == Pubkey(TOKEN_2022_ID),
                    fails(AccountName::TokenProgram, ErrorCode::InvalidProgramId),
                ),
                (accounts.token_program.executable, fails(
                    AccountName::TokenProgram,
                    ErrorCode::InvalidProgramExecutable,
                )),
                (accounts.mint.owner == accounts.token_program.key, fails(
                    AccountName::Mint,
                    ErrorCode::ConstraintOwner,
                )),
            ],
            found,
        ),
        found matches Some(failure) ==> outcome == Err::<u64, Failure>(failure),
        found is None ==> refused_in_order(
            seq![
                (crate::layout::unpacked_decimals(data@) is Ok, Failure::Program(
                    crate::layout::unpacked_decimals(data@)->Err_0,
                )),
                (crate::layout::fee_config(data@) is Ok, Failure::Program(
                    crate::layout::fee_config(data@)->Err_0,
                )),
                (epoch is Ok, Failure::Program(epoch->Err_0)),
                (
                    amount * (if epoch->Ok_0
                        >= crate::layout::fee_config(data@)->Ok_0.newer_transfer_fee.epoch {
                        crate::layout::fee_config(data@)->Ok_0.newer_transfer_fee
                    } else {
                        crate::layout::fee_config(data@)->Ok_0.older_transfer_fee
                    }).transfer_fee_basis_points <= u64::MAX * 10_000,
                    Failure::FeeOverflow,
                ),
            ],
            match outcome {
                Ok(_) => None,
                Err(failure) => Some(failure),
            },
        ),
{
}

/// A transfer is refused for an authority that did not sign, for a program that is not a token
/// program, for accounts that cannot be written and a mint of another program, and then for
/// whatever its fee is refused a quote; in that order, and for nothing else.
pub proof fn law_transfer_is_refused_in_order(
    accounts: TransferWithProtocolFee,
    data: &[u8],
    epoch: Result<u64, u64>,
    amount: u64,
    found: Option<Failure>,
    outcome: Result<Step, Failure>,
)
    requires
        call_ensures(TransferWithProtocolFee::check, (&accounts,), found),
        call_ensures(
            crate::remittance::transfer_with_protocol_fee,
            (&accounts, data, epoch, amount),
            outcome,
        ),
    ensures
        refused_in_order(
            seq![
                (accounts.authority.is_signer, fails(
                    AccountName::Authority,
                    ErrorCode::AccountNotSigner,
                )),
                (
                    accounts.token_program.key == Pubkey(SPL_TOKEN_ID)
                        || accounts.token_program.key == Pubkey(TOKEN_2022_ID),
                    fails(AccountName::TokenProgram, ErrorCode::InvalidProgramId),
                ),
                (accounts.token_program.executable, fails(
                    AccountName::TokenProgram,
                    ErrorCode::InvalidProgramExecutable,
                )),
                (accounts.source.is_writable, fails(
                    AccountName::Source,
                    ErrorCode::ConstraintMut,
                )),
                (accounts.mint.owner == accounts.token_program.key, fails(
                    AccountName::Mint,
                    ErrorCode::ConstraintOwner,
                )),
                (accounts.destination.is_writable, fails(
                    AccountName::Destination,
                    ErrorCode::ConstraintMut,
                )),
            ],
            found,
        ),
        found matches Some(failure) ==> outcome == Err::<Step, Failure>(failure),
        found is None ==> refused_in_order(
            seq![
                (crate::layout::unpacked_decimals(data@) is Ok, Failure::Program(
                    crate::layout::unpacked_decimals(data@)->Err_0,
                )),
                (crate::layout::fee_config(data@) is Ok, Failure::Program(
                    crate::layout::fee_config(data@)->Err_0,
                )),
                (epoch is Ok, Failure::Program(epoch->Err_0)),
                (
                    amount * (if epoch->Ok_0
                        >= crate::layout::fee_config(data@)->Ok_0.newer_transfer_fee.epoch {
                        crate::layout::fee_config(data@)->Ok_0.newer_transfer_fee
                    } else {
                        crate::layout::fee_config(data@)->Ok_0.older_transfer_fee
                    }).transfer_fee_basis_points <= u64::MAX * 10_000,
                    Failure::FeeOverflow,
                ),
            ],
            match outcome {
                Ok(_) => None,
                Err(failure) => Some(failure),
            },
        ),
{
}

/// `thaw_after_kyc` is refused where its freeze authority did not sign, for a program that is not a
/// token program, and for a token account that cannot be written; in that order, and for nothing
/// else.
pub proof fn law_thaw_is_refused_in_order(
    accounts: ThawAfterKyc,
    found: Option<Failure>,
    outcome: Result<Step, Failure>,
)
    requires
        call_ensures(ThawAfterKyc::check, (&accounts,), found),
        call_ensures(
            crate::remittance::thaw_after_kyc,
            (&accounts,),
            outcome,
        ),
    ensures
        refused_in_order(
            seq![
                (accounts.freeze_authority.is_signer, fails(
                    AccountName::FreezeAuthority,
                    ErrorCode::AccountNotSigner,
                )),
                (
                    accounts.token_program.key == Pubkey(SPL_TOKEN_ID)
                        || accounts.token_program.key == Pubkey(TOKEN_2022_ID),
                    fails(AccountName::TokenProgram, ErrorCode::InvalidProgramId),
                ),
                (accounts.token_program.executable, fails(
                    AccountName::TokenProgram,
                    ErrorCode::InvalidProgramExecutable,
                )),
                (accounts.token_account.is_writable, fails(
                    AccountName::TokenAccount,
                    ErrorCode::ConstraintMut,
                )),
            ],
            found,
        ),
        found matches Some(failure) ==> outcome == Err::<Step, Failure>(failure),
        found is None ==> outcome is Ok,
{
}

/// `configure_confidential_account` is refused where its owner did not sign, for a program that is
/// not a token program, and for a token account that cannot be written; in that order, and for
/// nothing else.
pub proof fn law_configuring_is_refused_in_order(
    accounts: ConfigureConfidentialAccount,
    decryptable_zero_balance: [u8; AE_CIPHERTEXT_LEN],
    maximum_pending_balance_credit_counter: u64,
    found: Option<Failure>,
    outcome: Result<Step, Failure>,
)
    requires
        call_ensures(ConfigureConfidentialAccount::check, (&accounts,), found),
        call_ensures(
            crate::confidential::configure_confidential_account,
            (&accounts, decryptable_zero_balance, maximum_pending_balance_credit_counter),
            outcome,
        ),
    ensures
        refused_in_order(
            seq![
                (accounts.owner.is_signer, fails(
                    AccountName::Owner,
                    ErrorCode::AccountNotSigner,
                )),
                (
                    accounts.token_program.key == Pubkey(SPL_TOKEN_ID)
                        || accounts.token_program.key == Pubkey(TOKEN_2022_ID),
                    fails(AccountName::TokenProgram, ErrorCode::InvalidProgramId),
                ),
                (accounts.token_program.executable, fails(
                    AccountName::TokenProgram,
                    ErrorCode::InvalidProgramExecutable,
                )),
                (accounts.token_account.is_writable, fails(
                    AccountName::TokenAccount,
                    ErrorCode::ConstraintMut,
                )),
            ],
            found,
        ),
        found matches Some(failure) ==> outcome == Err::<Step, Failure>(failure),
        found is None ==> outcome is Ok,
{
}

/// `approve_confidential_account` is refused where its confidential authority did not sign, for a
/// program that is not a token program, and for a token account that cannot be written; in that
/// order, and for nothing else.
pub proof fn law_approval_is_refused_in_order(
    accounts: ApproveConfidentialAccount,
    found: Option<Failure>,
    outcome: Result<Step, Failure>,
)
    requires
        call_ensures(ApproveConfidentialAccount::check, (&accounts,), found),
        call_ensures(
            crate::confidential::approve_confidential_account,
            (&accounts,),
            outcome,
        ),
    ensures
        refused_in_order(
            seq![
                (accounts.confidential_authority.is_signer, fails(
                    AccountName::ConfidentialAuthority,
                    ErrorCode::AccountNotSigner,
                )),
                (
                    accounts.token_program.key == Pubkey(SPL_TOKEN_ID)
                        || accounts.token_program.key == Pubkey(TOKEN_2022_ID),
                    fails(AccountName::TokenProgram, ErrorCode::InvalidProgramId),
                ),
                (accounts.token_program.executable, fails(
                    AccountName::TokenProgram,
                    ErrorCode::InvalidProgramExecutable,
                )),
                (accounts.token_account.is_writable, fails(
                    AccountName::TokenAccount,
                    ErrorCode::ConstraintMut,
                )),
            ],
            found,
        ),
        found matches Some(failure) ==> outcome == Err::<Step, Failure>(failure),
        found is None ==> outcome is Ok,
{
}

/// `deposit_confidential` is refused where its authority did not sign, for a program that is not a
/// token program, and for a token account that cannot be written; in that order, and for nothing
/// else.
pub proof fn law_deposit_is_refused_in_order(
    accounts: DepositConfidential,
    amount: u64,
    decimals: u8,
    found: Option<Failure>,
    outcome: Result<Step, Failure>,
)
    requires
        call_ensures(DepositConfidential::check, (&accounts,), found),
        call_ensures(
            crate::confidential::deposit_confidential,
            (&accounts, amount, decimals),
            outcome,
        ),
    ensures
        refused_in_order(
            seq![
                (accounts.authority.is_signer, fails(
                    AccountName::Authority,
                    ErrorCode::AccountNotSigner,
                )),
                (
                    accounts.token_program.key == Pubkey(SPL_TOKEN_ID)
                        || accounts.token_program.key == Pubkey(TOKEN_2022_ID),
                    fails(AccountName::TokenProgram, ErrorCode::InvalidProgramId),
                ),
                (accounts.token_program.executable, fails(
                    AccountName::TokenProgram,
                    ErrorCode::InvalidProgramExecutable,
                )),
                (accounts.token_account.is_writable, fails(
                    AccountName::TokenAccount,
                    ErrorCode::ConstraintMut,
                )),
            ],
            found,
        ),
        found matches Some(failure) ==> outcome == Err::<Step, Failure>(failure),
        found is None ==> outcome is Ok,
{
}

/// `apply_pending_balance` is refused where its authority did not sign, for a program that is not a
/// token program, and for a token account that cannot be written; in that order, and for nothing
/// else.
pub proof fn law_applying_is_refused_in_order(
    accounts: ApplyPendingBalance,
    expected_pending_balance_credit_counter: u64,
    new_decryptable_available_balance: [u8; AE_CIPHERTEXT_LEN],
    found: Option<Failure>,
    outcome: Result<Step, Failure>,
)
    requires
        call_ensures(ApplyPendingBalance::check, (&accounts,), found),
        call_ensures(
            crate::confidential::apply_pending_balance,
            (&accounts, expected_pending_balance_credit_counter, new_decryptable_available_balance),
            outcome,
        ),
    ensures
        refused_in_order(
            seq![
                (accounts.authority.is_signer, fails(
                    AccountName::Authority,
                    ErrorCode::AccountNotSigner,
                )),
                (
                    accounts.token_program.key == Pubkey(SPL_TOKEN_ID)
                        || accounts.token_program.key == Pubkey(TOKEN_2022_ID),
                    fails(AccountName::TokenProgram, ErrorCode::InvalidProgramId),
                ),
                (accounts.token_program.executable, fails(
                    AccountName::TokenProgram,
                    ErrorCode::InvalidProgramExecutable,
                )),
                (accounts.token_account.is_writable, fails(
                    AccountName::TokenAccount,
                    ErrorCode::ConstraintMut,
                )),
            ],
            found,
        ),
        found matches Some(failure) ==> outcome == Err::<Step, Failure>(failure),
        found is None ==> outcome is Ok,
{
}

} // verus!
