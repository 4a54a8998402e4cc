//! What the instructions plan and refuse, without a virtual machine.

use anchor_lang::prelude::ProgramError;
use anchor_spl::token_interface::spl_token_2022;
use spl_token_2022::error::TokenError;
use spl_token_2022::extension::mint_close_authority::MintCloseAuthority;
use spl_token_2022::extension::permanent_delegate::PermanentDelegate;
use spl_token_2022::extension::transfer_fee::TransferFee as InterfaceFee;
use spl_token_2022::extension::transfer_fee::TransferFeeConfig as InterfaceConfig;
use spl_token_2022::extension::BaseStateWithExtensionsMut;
use spl_token_2022::extension::ExtensionType as InterfaceExtension;
use spl_token_2022::extension::StateWithExtensionsMut;
use spl_token_2022::state::Mint as MintState;
use t22::accounts;
use t22::error::AccountName;
use t22::error::ErrorCode;
use t22::error::EXTENSION_NOT_FOUND;
use t22::error::INVALID_ACCOUNT_DATA;
use t22::error::INVALID_ARGUMENT;
use t22::error::UNINITIALIZED_ACCOUNT;
use t22::extension::codes;
use t22::extension::ExtensionType;
use t22::extension::EXTENSION_LENS;
use t22::extension::MAX_EXTENSION_CODE;
use t22::extension::SUPPORTED_EXTENSIONS;
use t22::fee::TransferFee;
use t22::fee::TransferFeeConfig;
use t22::inspect::accept_mint;
use t22::inspect::check_extensions;
use t22::key::SPL_TOKEN_ID;
use t22::key::SYSTEM_PROGRAM_ID;
use t22::key::TOKEN_2022_ID;
use t22::mint::MintKind;
use t22::remittance::quote_fee;
use t22::step::AccountState;
use t22::step::ELGAMAL_PUBKEY_LEN;
use t22::AccountView;
use t22::Failure;
use t22::MintError;
use t22::MintPlan;
use t22::Pubkey;
use t22::Step;
use t22::SupportedMint;
use t22::AE_CIPHERTEXT_LEN;

const RENT: u64 = 2_000_000;

fn key(n: u8) -> Pubkey {
    Pubkey([n; 32])
}

fn account(n: u8, is_signer: bool, is_writable: bool) -> AccountView {
    AccountView {
        key: key(n),
        owner: Pubkey(SYSTEM_PROGRAM_ID),
        lamports: 0,
        is_signer,
        is_writable,
        executable: false,
    }
}

fn program(id: [u8; 32]) -> AccountView {
    AccountView { key: Pubkey(id), executable: true, ..account(0, false, false) }
}

fn owned(n: u8, owner: [u8; 32]) -> AccountView {
    AccountView { owner: Pubkey(owner), ..account(n, false, false) }
}

fn declarative() -> accounts::CreateMintDeclarative {
    accounts::CreateMintDeclarative {
        payer: AccountView { lamports: 9_000_000, ..account(1, true, true) },
        mint: account(2, true, true),
        token_program: program(TOKEN_2022_ID),
        system_program: program(SYSTEM_PROGRAM_ID),
    }
}

fn with_fee() -> accounts::CreateMintWithFee {
    accounts::CreateMintWithFee {
        payer: account(1, true, true),
        mint: account(2, true, true),
        token_program: program(TOKEN_2022_ID),
        system_program: program(SYSTEM_PROGRAM_ID),
    }
}

fn remittance() -> accounts::CreateRemittanceMint {
    accounts::CreateRemittanceMint {
        payer: account(1, true, true),
        mint: account(2, true, true),
        token_program: program(TOKEN_2022_ID),
        system_program: program(SYSTEM_PROGRAM_ID),
    }
}

fn reissue() -> accounts::ReissueRemittanceMint {
    accounts::ReissueRemittanceMint {
        payer: account(1, true, true),
        mint: account(2, true, true),
        token_program: program(TOKEN_2022_ID),
        system_program: program(SYSTEM_PROGRAM_ID),
    }
}

fn broken(name: AccountName, code: ErrorCode) -> Failure {
    Failure::Account { name, code }
}

fn rate(epoch: u64, maximum_fee: u64, transfer_fee_basis_points: u16) -> TransferFee {
    TransferFee { epoch, maximum_fee, transfer_fee_basis_points }
}

fn config() -> TransferFeeConfig {
    TransferFeeConfig {
        older_transfer_fee: rate(0, 1_000, 250),
        newer_transfer_fee: rate(2, 700, 500),
    }
}

fn base_mint(decimals: u8) -> MintState {
    MintState {
        mint_authority: None.into(),
        supply: 0,
        decimals,
        is_initialized: true,
        freeze_authority: None.into(),
    }
}

/// The bytes of a mint, with the extensions that `set_up` adds.
fn mint_bytes(
    decimals: u8,
    kinds: &[InterfaceExtension],
    set_up: fn(&mut StateWithExtensionsMut<MintState>),
) -> Vec<u8> {
    let len = InterfaceExtension::try_calculate_account_len::<MintState>(kinds).unwrap();
    let mut data = vec![0u8; len];
    let mut state = StateWithExtensionsMut::<MintState>::unpack_uninitialized(&mut data).unwrap();
    set_up(&mut state);
    state.base = base_mint(decimals);
    state.pack_base();
    if !kinds.is_empty() {
        state.init_account_type().unwrap();
    }
    data
}

fn add_fee(state: &mut StateWithExtensionsMut<MintState>) {
    let fee = state.init_extension::<InterfaceConfig>(true).unwrap();
    fee.older_transfer_fee.epoch = 0.into();
    fee.older_transfer_fee.maximum_fee = 1_000.into();
    fee.older_transfer_fee.transfer_fee_basis_points = 250.into();
    fee.newer_transfer_fee.epoch = 2.into();
    fee.newer_transfer_fee.maximum_fee = 700.into();
    fee.newer_transfer_fee.transfer_fee_basis_points = 500.into();
}

fn fee_mint() -> Vec<u8> {
    mint_bytes(6, &[InterfaceExtension::TransferFeeConfig], add_fee)
}

fn plain_mint() -> Vec<u8> {
    mint_bytes(9, &[], |_| {})
}

fn inspected(data: &[u8], epoch: Result<u64, u64>) -> Result<SupportedMint, Failure> {
    let accounts = accounts::AssertSupportedMint {
        mint: owned(2, TOKEN_2022_ID),
        token_program: program(TOKEN_2022_ID),
    };
    t22::assert_supported_mint(&accounts, data, epoch)
}

#[test]
fn program_ids_are_those_of_the_programs() {
    assert_eq!(SYSTEM_PROGRAM_ID, anchor_lang::system_program::ID.to_bytes());
    assert_eq!(SPL_TOKEN_ID, anchor_spl::token::ID.to_bytes());
    assert_eq!(TOKEN_2022_ID, anchor_spl::token_2022::ID.to_bytes());
}

#[test]
fn program_error_numbers_are_those_of_the_runtime() {
    assert_eq!(INVALID_ARGUMENT, u64::from(ProgramError::InvalidArgument));
    assert_eq!(INVALID_ACCOUNT_DATA, u64::from(ProgramError::InvalidAccountData));
    assert_eq!(UNINITIALIZED_ACCOUNT, u64::from(ProgramError::UninitializedAccount));
    let not_found = ProgramError::from(TokenError::ExtensionNotFound);
    assert_eq!(EXTENSION_NOT_FOUND, u64::from(not_found));
}

#[test]
fn extension_numbers_are_those_on_chain() {
    for code in 0..=MAX_EXTENSION_CODE {
        let ours = ExtensionType::from_code(code).unwrap();
        let theirs = InterfaceExtension::try_from(code).unwrap();
        assert_eq!(format!("{ours:?}"), format!("{theirs:?}"));
        assert_eq!(ours.code(), code);
    }
    assert_eq!(ExtensionType::from_code(MAX_EXTENSION_CODE + 1), None);
    assert!(InterfaceExtension::try_from(MAX_EXTENSION_CODE + 1).is_err());
}

#[test]
fn lengths_of_extensions_are_those_on_chain() {
    assert_eq!(EXTENSION_LENS.len(), usize::from(MAX_EXTENSION_CODE) + 1);
    for code in 0..=MAX_EXTENSION_CODE {
        let kind = InterfaceExtension::try_from(code).unwrap();
        let len = InterfaceExtension::try_calculate_account_len::<MintState>(&[kind, kind]);
        if kind == InterfaceExtension::TokenMetadata {
            assert_eq!(len, Err(ProgramError::InvalidArgument));
        } else {
            assert_eq!(len, Ok(166 + 4 + EXTENSION_LENS[usize::from(code)]));
        }
    }
    assert_eq!(InterfaceExtension::try_calculate_account_len::<MintState>(&[]), Ok(82));
}

#[test]
fn numbers_of_a_list_keep_its_order() {
    let kinds = vec![ExtensionType::MetadataPointer, ExtensionType::MintCloseAuthority];
    assert_eq!(codes(&kinds), vec![18, 3]);
}

#[test]
fn three_extensions_are_supported() {
    let mut supported: Vec<ExtensionType> = Vec::new();
    for code in 0..=MAX_EXTENSION_CODE {
        let kind = ExtensionType::from_code(code).unwrap();
        if kind.is_supported() {
            supported.push(kind);
        }
    }
    assert_eq!(supported.len(), 3);
    for kind in SUPPORTED_EXTENSIONS {
        assert!(supported.contains(&kind));
    }
    assert!(check_extensions(&vec![]));
    assert!(check_extensions(&vec![3, 18, 1]));
    assert!(check_extensions(&vec![1, 1]));
    assert!(!check_extensions(&vec![3, 12]));
    assert!(!check_extensions(&vec![0]));
    assert!(!check_extensions(&vec![28]));
}

#[test]
fn mints_have_the_length_of_their_extensions() {
    assert_eq!(MintKind::Declarative.space(), 270);
    assert_eq!(MintKind::WithFee.space(), 314);
    assert_eq!(MintKind::Remittance.space(), 387);
    assert_eq!(MintKind::Reissued.space(), 625);
    for kind in
        [MintKind::Declarative, MintKind::WithFee, MintKind::Remittance, MintKind::Reissued]
    {
        let kinds: Vec<InterfaceExtension> = codes(&kind.extensions())
            .into_iter()
            .map(|code| InterfaceExtension::try_from(code).unwrap())
            .collect();
        let expected = InterfaceExtension::try_calculate_account_len::<MintState>(&kinds).unwrap();
        assert_eq!(kind.space(), expected);
    }
}

#[test]
fn declared_mint_is_planned_in_order() {
    let plan = t22::create_mint_declarative(&declarative(), 6, RENT).unwrap();
    assert_eq!(plan.token_program, Pubkey(TOKEN_2022_ID));
    assert_eq!(
        plan.steps,
        vec![
            Step::CreateAccount {
                from: key(1),
                to: key(2),
                lamports: RENT,
                space: 270,
                owner: Pubkey(TOKEN_2022_ID),
            },
            Step::InitializeMetadataPointer {
                mint: key(2),
                authority: Some(key(1)),
                metadata_address: Some(key(1)),
            },
            Step::InitializeMintCloseAuthority { mint: key(2), close_authority: Some(key(1)) },
            Step::InitializeMint2 {
                mint: key(2),
                decimals: 6,
                mint_authority: key(1),
                freeze_authority: None,
            },
        ]
    );
}

#[test]
fn prefunded_declared_mint_is_topped_up() {
    let mut accounts = declarative();
    let cases: [(u64, u64, u64); 5] = [
        (500, RENT, RENT - 500),
        (RENT, RENT, 0),
        (RENT + 1, RENT, 0),
        (1, 0, 0),
        (u64::MAX, RENT, 0),
    ];
    for (held, minimum, missing) in cases {
        accounts.mint.lamports = held;
        let plan = t22::create_mint_declarative(&accounts, 6, minimum).unwrap();
        assert_eq!(
            plan.steps[0],
            Step::CreateAccountAllowPrefund {
                from: key(1),
                to: key(2),
                lamports: missing,
                space: 270,
                owner: Pubkey(TOKEN_2022_ID),
            }
        );
        assert_eq!(plan.steps.len(), 4);
    }
}

#[test]
fn payer_cannot_be_the_declared_mint() {
    let mut accounts = declarative();
    accounts.mint = accounts.payer;
    let refused = t22::create_mint_declarative(&accounts, 6, RENT).unwrap_err();
    assert_eq!(refused, Failure::TryingToInitPayerAsProgramAccount);
}

#[test]
fn declared_mint_is_refused_for_the_first_broken_rule() {
    let mut accounts = declarative();
    accounts.system_program.executable = false;
    let refused = t22::create_mint_declarative(&accounts, 6, RENT).unwrap_err();
    assert_eq!(refused, broken(AccountName::SystemProgram, ErrorCode::InvalidProgramExecutable));
    accounts.system_program.key = key(7);
    let refused = t22::create_mint_declarative(&accounts, 6, RENT).unwrap_err();
    assert_eq!(refused, broken(AccountName::SystemProgram, ErrorCode::InvalidProgramId));
    accounts.token_program.executable = false;
    let refused = t22::create_mint_declarative(&accounts, 6, RENT).unwrap_err();
    assert_eq!(refused, broken(AccountName::TokenProgram, ErrorCode::InvalidProgramExecutable));
    accounts.token_program.key = key(8);
    let refused = t22::create_mint_declarative(&accounts, 6, RENT).unwrap_err();
    assert_eq!(refused, broken(AccountName::TokenProgram, ErrorCode::InvalidProgramId));
    accounts.payer.is_signer = false;
    let refused = t22::create_mint_declarative(&accounts, 6, RENT).unwrap_err();
    assert_eq!(refused, broken(AccountName::Payer, ErrorCode::AccountNotSigner));
}

#[test]
fn declared_mint_is_confirmed_after_its_calls() {
    let mut accounts = declarative();
    assert_eq!(t22::confirm_mint_declarative(&accounts, RENT, RENT), Ok(()));
    assert_eq!(t22::confirm_mint_declarative(&accounts, 0, 0), Ok(()));
    let planned = t22::create_mint_declarative(&accounts, 6, RENT).unwrap();
    accounts.payer.is_writable = false;
    let refused = t22::confirm_mint_declarative(&accounts, RENT, RENT);
    assert_eq!(refused, Err(broken(AccountName::Payer, ErrorCode::ConstraintMut)));
    let refused = t22::confirm_mint_declarative(&accounts, RENT - 1, RENT);
    assert_eq!(refused, Err(broken(AccountName::Mint, ErrorCode::ConstraintRentExempt)));
    accounts.mint.is_signer = false;
    let refused = t22::confirm_mint_declarative(&accounts, RENT - 1, RENT);
    assert_eq!(refused, Err(broken(AccountName::Mint, ErrorCode::ConstraintSigner)));
    accounts.mint.is_writable = false;
    let refused = t22::confirm_mint_declarative(&accounts, RENT - 1, RENT);
    assert_eq!(refused, Err(broken(AccountName::Mint, ErrorCode::ConstraintMut)));
    let plan = t22::create_mint_declarative(&accounts, 6, RENT).unwrap();
    assert_eq!(plan.steps, planned.steps);
}

/// The calls that are made where the call at `failing` gives the error 5, and what comes of it.
fn follow(plan: &MintPlan, failing: usize) -> (Vec<Step>, Result<(), u64>) {
    let mut calls: Vec<Step> = Vec::new();
    let mut last = Ok(());
    loop {
        match t22::next_step(plan, calls.len(), last) {
            Ok(Some(step)) => calls.push(step),
            Ok(None) => return (calls, Ok(())),
            Err(error) => return (calls, Err(error)),
        }
        last = if calls.len() == failing + 1 { Err(5) } else { Ok(()) };
    }
}

#[test]
fn first_failing_call_ends_a_plan() {
    let elgamal = [5u8; ELGAMAL_PUBKEY_LEN];
    let plan = t22::reissue_remittance_mint(&reissue(), 6, 250, 1_000, elgamal, RENT).unwrap();
    for failing in 0..9 {
        assert_eq!(follow(&plan, failing), (plan.steps[..failing + 1].to_vec(), Err(5)));
    }
    assert_eq!(follow(&plan, 9), (plan.steps.clone(), Ok(())));
    assert_eq!(t22::next_step(&plan, 9, Err(6u8)), Err(6));
    assert_eq!(t22::next_step(&plan, 100, Ok::<(), u8>(())), Ok(None));
}

#[test]
fn mint_with_fee_is_planned_in_order() {
    let plan = t22::create_mint_with_fee(&with_fee(), 6, 250, 1_000, RENT).unwrap();
    assert_eq!(plan.token_program, Pubkey(TOKEN_2022_ID));
    assert_eq!(
        plan.steps,
        vec![
            Step::CreateAccount {
                from: key(1),
                to: key(2),
                lamports: RENT,
                space: 314,
                owner: Pubkey(TOKEN_2022_ID),
            },
            Step::InitializeMintCloseAuthority { mint: key(2), close_authority: Some(key(1)) },
            Step::InitializeTransferFeeConfig {
                mint: key(2),
                transfer_fee_config_authority: Some(key(1)),
                withdraw_withheld_authority: Some(key(1)),
                transfer_fee_basis_points: 250,
                maximum_fee: 1_000,
            },
            Step::InitializeMint2 {
                mint: key(2),
                decimals: 6,
                mint_authority: key(1),
                freeze_authority: None,
            },
        ]
    );
}

#[test]
fn mint_with_fee_must_sign_and_be_writable() {
    let mut accounts = with_fee();
    accounts.mint.is_signer = false;
    let refused = t22::create_mint_with_fee(&accounts, 6, 250, 1_000, RENT).unwrap_err();
    assert_eq!(refused, broken(AccountName::Mint, ErrorCode::ConstraintSigner));
    accounts.mint.is_writable = false;
    let refused = t22::create_mint_with_fee(&accounts, 6, 250, 1_000, RENT).unwrap_err();
    assert_eq!(refused, broken(AccountName::Mint, ErrorCode::ConstraintMut));
    accounts.payer.is_writable = false;
    let refused = t22::create_mint_with_fee(&accounts, 6, 250, 1_000, RENT).unwrap_err();
    assert_eq!(refused, broken(AccountName::Payer, ErrorCode::ConstraintMut));
}

#[test]
fn remittance_mint_is_planned_in_order() {
    let plan = t22::create_remittance_mint(&remittance(), 6, 250, 1_000, RENT).unwrap();
    assert_eq!(
        plan.steps,
        vec![
            Step::CreateAccount {
                from: key(1),
                to: key(2),
                lamports: RENT,
                space: 387,
                owner: Pubkey(TOKEN_2022_ID),
            },
            Step::InitializeTransferFeeConfig {
                mint: key(2),
                transfer_fee_config_authority: Some(key(1)),
                withdraw_withheld_authority: Some(key(1)),
                transfer_fee_basis_points: 250,
                maximum_fee: 1_000,
            },
            Step::InitializeMetadataPointer {
                mint: key(2),
                authority: Some(key(1)),
                metadata_address: Some(key(2)),
            },
            Step::InitializeDefaultAccountState { mint: key(2), state: AccountState::Frozen },
            Step::InitializeMintCloseAuthority { mint: key(2), close_authority: Some(key(1)) },
            Step::InitializeMint2 {
                mint: key(2),
                decimals: 6,
                mint_authority: key(1),
                freeze_authority: Some(key(1)),
            },
        ]
    );
    let mut accounts = remittance();
    accounts.payer.is_signer = false;
    let refused = t22::create_remittance_mint(&accounts, 6, 250, 1_000, RENT).unwrap_err();
    assert_eq!(refused, broken(AccountName::Payer, ErrorCode::AccountNotSigner));
}

#[test]
fn reissued_mint_repeats_the_remittance_mint_and_adds_three_extensions() {
    let elgamal = [5u8; ELGAMAL_PUBKEY_LEN];
    let first = t22::create_remittance_mint(&remittance(), 6, 250, 1_000, RENT).unwrap();
    let second =
        t22::reissue_remittance_mint(&reissue(), 6, 250, 1_000, elgamal, 2 * RENT).unwrap();
    assert_eq!(
        first.steps[0],
        Step::CreateAccount {
            from: key(1),
            to: key(2),
            lamports: RENT,
            space: 387,
            owner: Pubkey(TOKEN_2022_ID),
        }
    );
    assert_eq!(second.steps.len(), first.steps.len() + 3);
    assert_eq!(
        second.steps[0],
        Step::CreateAccount {
            from: key(1),
            to: key(2),
            lamports: 2 * RENT,
            space: 625,
            owner: Pubkey(TOKEN_2022_ID),
        }
    );
    assert_eq!(second.steps[1..5], first.steps[1..5]);
    assert_eq!(
        second.steps[5],
        Step::InitializePermanentDelegate { mint: key(2), delegate: key(1) }
    );
    assert_eq!(
        second.steps[6],
        Step::InitializeConfidentialTransferMint {
            mint: key(2),
            authority: Some(key(1)),
            auto_approve_new_accounts: false,
            auditor_elgamal_pubkey: None,
        }
    );
    assert_eq!(
        second.steps[7],
        Step::InitializeConfidentialTransferFeeConfig {
            mint: key(2),
            authority: Some(key(1)),
            withdraw_withheld_authority_elgamal_pubkey: elgamal,
        }
    );
    assert_eq!(second.steps[8], first.steps[5]);
    let mut accounts = reissue();
    accounts.mint.is_signer = false;
    let refused =
        t22::reissue_remittance_mint(&accounts, 6, 250, 1_000, elgamal, RENT).unwrap_err();
    assert_eq!(refused, broken(AccountName::Mint, ErrorCode::ConstraintSigner));
}

#[test]
fn mint_without_extensions_is_accepted_from_either_token_program() {
    for id in [SPL_TOKEN_ID, TOKEN_2022_ID] {
        let accounts = accounts::AssertSupportedMint {
            mint: owned(2, id),
            token_program: program(id),
        };
        let accepted = t22::assert_supported_mint(&accounts, &plain_mint(), Err(7));
        assert_eq!(accepted, Ok(SupportedMint { decimals: 9, basis_points: 0 }));
    }
}

#[test]
fn mint_of_another_program_is_refused() {
    let accounts = accounts::AssertSupportedMint {
        mint: owned(2, SPL_TOKEN_ID),
        token_program: program(TOKEN_2022_ID),
    };
    let refused = t22::assert_supported_mint(&accounts, &plain_mint(), Ok(0));
    assert_eq!(refused, Err(broken(AccountName::Mint, ErrorCode::ConstraintOwner)));
    let accounts = accounts::AssertSupportedMint {
        mint: owned(2, [9; 32]),
        token_program: program([9; 32]),
    };
    let refused = t22::assert_supported_mint(&accounts, &plain_mint(), Ok(0));
    assert_eq!(refused, Err(broken(AccountName::TokenProgram, ErrorCode::InvalidProgramId)));
}

#[test]
fn bytes_that_are_no_mint_are_refused() {
    let no_mint = Err(Failure::Program(INVALID_ACCOUNT_DATA));
    assert_eq!(inspected(&[], Ok(0)), no_mint);
    assert_eq!(inspected(&plain_mint()[..81], Ok(0)), no_mint);
    let mut padded = fee_mint();
    padded.resize(355, 0);
    assert_eq!(inspected(&padded, Ok(0)), no_mint);
    let uninitialized = Err(Failure::Program(UNINITIALIZED_ACCOUNT));
    assert_eq!(inspected(&[0; 82], Ok(0)), uninitialized);
    let mut both = vec![0u8; 166];
    both[100] = 1;
    assert_eq!(inspected(&both, Ok(0)), uninitialized);
}

#[test]
fn bytes_of_a_mint_are_read_strictly() {
    let no_mint = Err(Failure::Program(INVALID_ACCOUNT_DATA));
    let accepted = Ok(SupportedMint { decimals: 9, basis_points: 0 });
    for (at, value) in [(0, 2), (1, 1), (2, 1), (3, 1), (45, 2), (46, 2), (47, 1), (49, 1)] {
        let mut data = plain_mint();
        data[at] = value;
        assert_eq!(inspected(&data, Ok(0)), no_mint, "byte {at}");
    }
    for (at, value) in [(0, 1), (4, 9), (36, 7), (46, 1), (50, 9), (81, 9)] {
        let mut data = plain_mint();
        data[at] = value;
        assert_eq!(inspected(&data, Ok(0)), accepted, "byte {at}");
    }
    for len in [83, 100, 165] {
        let mut data = plain_mint();
        data.resize(len, 0);
        assert_eq!(inspected(&data, Ok(0)), no_mint, "{len} bytes");
    }
    let mut data = plain_mint();
    data.resize(166, 0);
    assert_eq!(inspected(&data, Ok(0)), no_mint);
    data[165] = 2;
    assert_eq!(inspected(&data, Ok(0)), no_mint);
    data[165] = 1;
    assert_eq!(inspected(&data, Ok(0)), accepted);
    data[164] = 1;
    assert_eq!(inspected(&data, Ok(0)), no_mint);
    data[164] = 0;
    data[82] = 1;
    assert_eq!(inspected(&data, Ok(0)), no_mint);
}

/// The bytes of a mint without extensions, up to where the first record stands, and `records`.
fn with_records(records: &[u8]) -> Vec<u8> {
    let mut data = plain_mint();
    data.resize(165, 0);
    data.push(1);
    data.extend_from_slice(records);
    data
}

#[test]
fn records_of_a_mint_are_walked_to_their_end() {
    let accepted = Ok(SupportedMint { decimals: 9, basis_points: 0 });
    let cut_short = Err(Failure::Program(INVALID_ACCOUNT_DATA));
    let unsupported = Err(Failure::Mint(MintError::UnsupportedExtension));
    assert_eq!(inspected(&with_records(&[9]), Ok(0)), accepted);
    assert_eq!(inspected(&with_records(&[0, 0]), Ok(0)), accepted);
    assert_eq!(inspected(&with_records(&[0, 0, 9, 9, 9]), Ok(0)), accepted);
    assert_eq!(inspected(&with_records(&[3, 0, 0, 0]), Ok(0)), accepted);
    assert_eq!(inspected(&with_records(&[3, 0, 2, 0, 7, 7]), Ok(0)), accepted);
    assert_eq!(inspected(&with_records(&[3, 0, 2, 0, 7, 7, 12]), Ok(0)), accepted);
    assert_eq!(inspected(&with_records(&[3, 0, 0, 0, 12, 0, 0, 0]), Ok(0)), unsupported);
    assert_eq!(inspected(&with_records(&[27, 0, 0, 0]), Ok(0)), unsupported);
    assert_eq!(inspected(&with_records(&[3, 0]), Ok(0)), cut_short);
    assert_eq!(inspected(&with_records(&[3, 0, 0]), Ok(0)), cut_short);
    assert_eq!(inspected(&with_records(&[3, 0, 3, 0, 7, 7]), Ok(0)), cut_short);
    assert_eq!(inspected(&with_records(&[3, 0, 0, 1, 7, 7]), Ok(0)), cut_short);
    assert_eq!(inspected(&with_records(&[28, 0, 0, 0]), Ok(0)), cut_short);
    assert_eq!(inspected(&with_records(&[0, 1, 0, 0]), Ok(0)), cut_short);
    assert_eq!(inspected(&with_records(&[12, 0, 0, 0, 28, 0]), Ok(0)), cut_short);
}

#[test]
fn rates_are_read_from_their_own_record() {
    let quoting = accounts::QuoteRemittanceFee {
        mint: owned(2, TOKEN_2022_ID),
        token_program: program(TOKEN_2022_ID),
    };
    let quoted = |records: &[u8], epoch: u64| {
        t22::quote_remittance_fee(&quoting, &with_records(records), Ok(epoch), 1_000_000)
    };
    let mut rates = vec![0u8; 112];
    rates[0] = 1;
    rates[2] = 108;
    rates[4..76].fill(9);
    rates[76..84].copy_from_slice(&1u64.to_le_bytes());
    rates[84..92].copy_from_slice(&u64::MAX.to_le_bytes());
    rates[92..94].copy_from_slice(&300u16.to_le_bytes());
    rates[94..102].copy_from_slice(&0x0102_0304_0506_0708u64.to_le_bytes());
    rates[102..110].copy_from_slice(&0x1122u64.to_le_bytes());
    rates[110..112].copy_from_slice(&500u16.to_le_bytes());
    assert_eq!(quoted(&rates, 0), Ok(30_000));
    assert_eq!(quoted(&rates, 0x0102_0304_0506_0707), Ok(30_000));
    assert_eq!(quoted(&rates, 0x0102_0304_0506_0708), Ok(0x1122));
    let behind = [&[99, 1, 3, 0, 7, 7, 7], &rates[..]].concat();
    assert_eq!(quoted(&behind, 0), Ok(30_000));
    let twice = [&rates[..], &[1, 0, 0, 0]].concat();
    assert_eq!(quoted(&twice, 0), Ok(30_000));
    let cut_short = Err(Failure::Program(INVALID_ACCOUNT_DATA));
    assert_eq!(quoted(&rates[..111], 0), cut_short);
    assert_eq!(quoted(&rates[..3], 0), cut_short);
    assert_eq!(quoted(&[3, 0, 2, 0, 7, 7], 0), cut_short);
    assert_eq!(quoted(&[3, 0, 9, 0, 7, 7], 0), cut_short);
    assert_eq!(quoted(&[0, 0], 0), cut_short);
    let missing = Err(Failure::Program(EXTENSION_NOT_FOUND));
    assert_eq!(quoted(&[0, 0, 0, 0], 0), missing);
    assert_eq!(quoted(&[3, 0, 0, 0, 0, 0, 0, 0], 0), missing);
    assert_eq!(quoted(&[1, 0, 0, 0], 0), Err(Failure::Program(INVALID_ARGUMENT)));
    rates.push(0);
    rates[2] = 109;
    assert_eq!(quoted(&rates, 0), Err(Failure::Program(INVALID_ARGUMENT)));
}

#[test]
fn fees_are_those_of_the_token_program() {
    let interface = |fee: TransferFee| InterfaceFee {
        epoch: fee.epoch.into(),
        maximum_fee: fee.maximum_fee.into(),
        transfer_fee_basis_points: fee.transfer_fee_basis_points.into(),
    };
    let amounts = [0, 1, 39, 40, 41, 9_999, 10_000, 10_001, u64::MAX / 2, u64::MAX - 1, u64::MAX];
    let maxima = [0, 1, 1_000, u64::MAX];
    for basis_points in [0u16, 1, 250, 9_999, 10_000, 10_001, 20_000, u16::MAX] {
        for (i, maximum_fee) in maxima.into_iter().enumerate() {
            let older = rate(0, maximum_fee, basis_points);
            let newer = rate(7, maxima[(i + 1) % 4], basis_points / 2);
            let rates = TransferFeeConfig { older_transfer_fee: older, newer_transfer_fee: newer };
            let outside = InterfaceConfig {
                older_transfer_fee: interface(older),
                newer_transfer_fee: interface(newer),
                ..Default::default()
            };
            for epoch in [0, 6, 7, 8, u64::MAX] {
                let live = rates.get_epoch_fee(epoch);
                assert_eq!(interface(live), *outside.get_epoch_fee(epoch));
                for amount in amounts {
                    let fee = outside.calculate_epoch_fee(epoch, amount);
                    assert_eq!(rates.calculate_epoch_fee(epoch, amount), fee);
                    assert_eq!(live.calculate_fee(amount), fee);
                }
            }
        }
    }
}

#[test]
fn live_rate_of_a_mint_is_reported() {
    let data = fee_mint();
    assert_eq!(inspected(&data, Ok(0)), Ok(SupportedMint { decimals: 6, basis_points: 250 }));
    assert_eq!(inspected(&data, Ok(1)), Ok(SupportedMint { decimals: 6, basis_points: 250 }));
    assert_eq!(inspected(&data, Ok(2)), Ok(SupportedMint { decimals: 6, basis_points: 500 }));
    assert_eq!(inspected(&data, Err(7)), Err(Failure::Program(7)));
}

#[test]
fn mint_with_an_unsupported_extension_is_refused() {
    let kinds = [InterfaceExtension::MintCloseAuthority, InterfaceExtension::PermanentDelegate];
    let data = mint_bytes(6, &kinds, |state| {
        state.init_extension::<MintCloseAuthority>(true).unwrap();
        state.init_extension::<PermanentDelegate>(true).unwrap();
    });
    let refused = Err(Failure::Mint(MintError::UnsupportedExtension));
    assert_eq!(inspected(&data, Ok(0)), refused);
    let data = mint_bytes(6, &kinds[..1], |state| {
        state.init_extension::<MintCloseAuthority>(true).unwrap();
    });
    assert_eq!(inspected(&data, Ok(0)), Ok(SupportedMint { decimals: 6, basis_points: 0 }));
}

#[test]
fn acceptance_follows_from_what_was_read() {
    let rates = config();
    let accepted = accept_mint(6, &Ok(vec![3, 1]), Ok(rates), Ok(2));
    assert_eq!(accepted, Ok(SupportedMint { decimals: 6, basis_points: 500 }));
    let accepted = accept_mint(6, &Ok(vec![1, 3]), Ok(rates), Ok(2));
    assert_eq!(accepted, Ok(SupportedMint { decimals: 6, basis_points: 500 }));
    let accepted = accept_mint(6, &Ok(vec![18]), Err(1), Err(2));
    assert_eq!(accepted, Ok(SupportedMint { decimals: 6, basis_points: 0 }));
    assert_eq!(accept_mint(6, &Ok(vec![1]), Ok(rates), Err(2)), Err(Failure::Program(2)));
    assert_eq!(accept_mint(6, &Err(3), Ok(rates), Ok(0)), Err(Failure::Program(3)));
    let refused = Err(Failure::Mint(MintError::UnsupportedExtension));
    assert_eq!(accept_mint(6, &Ok(vec![1, 6]), Ok(rates), Err(2)), refused);
    for kind in [MintKind::Declarative, MintKind::WithFee] {
        assert!(accept_mint(6, &Ok(codes(&kind.extensions())), Err(0), Err(0)).is_ok());
    }
    for kind in [MintKind::Remittance, MintKind::Reissued] {
        let listed = codes(&kind.extensions());
        assert_eq!(accept_mint(6, &Ok(listed), Err(0), Err(0)), refused);
    }
}

#[test]
fn fee_is_the_share_rounded_up_and_capped() {
    let rates = config();
    let quotes: [(u64, u64, u64); 9] = [
        (0, 0, 0),
        (0, 1, 1),
        (0, 40, 1),
        (0, 41, 2),
        (0, 10_000, 250),
        (1, 40_000, 1_000),
        (1, 50_000, 1_000),
        (2, 10_000, 500),
        (3, 50_000, 700),
    ];
    for (epoch, amount, fee) in quotes {
        assert_eq!(quote_fee(Ok(rates), Ok(epoch), amount), Ok(fee));
    }
    assert_eq!(quote_fee(Ok(rates), Ok(0), u64::MAX), Ok(1_000));
    assert_eq!(quote_fee(Ok(rates), Err(4), 1), Err(Failure::Program(4)));
    assert_eq!(quote_fee(Err(5), Ok(0), 1), Err(Failure::Program(5)));
}

#[test]
fn fee_at_a_rate_of_one_is_the_amount() {
    let whole = rate(0, u64::MAX, 10_000);
    let rates = TransferFeeConfig { older_transfer_fee: whole, newer_transfer_fee: whole };
    assert_eq!(quote_fee(Ok(rates), Ok(0), u64::MAX), Ok(u64::MAX));
    assert_eq!(quote_fee(Ok(rates), Ok(0), 12_345), Ok(12_345));
    let free = rate(0, u64::MAX, 0);
    let rates = TransferFeeConfig { older_transfer_fee: free, newer_transfer_fee: free };
    assert_eq!(quote_fee(Ok(rates), Ok(0), u64::MAX), Ok(0));
}

#[test]
fn fee_that_does_not_fit_is_an_error() {
    let double = rate(0, 5, 20_000);
    let rates = TransferFeeConfig { older_transfer_fee: double, newer_transfer_fee: double };
    assert_eq!(quote_fee(Ok(rates), Ok(0), u64::MAX), Err(Failure::FeeOverflow));
    assert_eq!(quote_fee(Ok(rates), Ok(0), u64::MAX / 2), Ok(5));
}

#[test]
fn quote_and_transfer_name_the_same_fee() {
    let data = fee_mint();
    let quoting = accounts::QuoteRemittanceFee {
        mint: owned(2, TOKEN_2022_ID),
        token_program: program(TOKEN_2022_ID),
    };
    let transfer = accounts::TransferWithProtocolFee {
        source: account(3, false, true),
        mint: owned(2, TOKEN_2022_ID),
        destination: account(4, false, true),
        authority: account(5, true, false),
        token_program: program(TOKEN_2022_ID),
    };
    for (epoch, expected) in [(0u64, 250u64), (2, 500)] {
        let fee = t22::quote_remittance_fee(&quoting, &data, Ok(epoch), 10_000).unwrap();
        assert_eq!(fee, expected);
        let step = t22::transfer_with_protocol_fee(&transfer, &data, Ok(epoch), 10_000);
        assert_eq!(
            step,
            Ok(Step::TransferCheckedWithFee {
                source: key(3),
                mint: key(2),
                destination: key(4),
                authority: key(5),
                amount: 10_000,
                decimals: 6,
                fee,
            })
        );
    }
    let without_fee = t22::quote_remittance_fee(&quoting, &plain_mint(), Ok(0), 10_000);
    assert_eq!(without_fee, Err(Failure::Program(INVALID_ACCOUNT_DATA)));
    let without_fee = t22::transfer_with_protocol_fee(&transfer, &plain_mint(), Ok(0), 10_000);
    assert_eq!(without_fee, Err(Failure::Program(INVALID_ACCOUNT_DATA)));
    let short = t22::transfer_with_protocol_fee(&transfer, &data[..10], Ok(0), 10_000);
    assert_eq!(short, Err(Failure::Program(INVALID_ACCOUNT_DATA)));
    let late = t22::transfer_with_protocol_fee(&transfer, &data, Err(6), 10_000);
    assert_eq!(late, Err(Failure::Program(6)));
}

#[test]
fn transfer_needs_its_authority_and_writable_accounts() {
    let data = fee_mint();
    let mut accounts = accounts::TransferWithProtocolFee {
        source: account(3, false, true),
        mint: owned(2, TOKEN_2022_ID),
        destination: account(4, false, false),
        authority: account(5, true, false),
        token_program: program(TOKEN_2022_ID),
    };
    let refused = t22::transfer_with_protocol_fee(&accounts, &data, Ok(0), 1);
    assert_eq!(refused, Err(broken(AccountName::Destination, ErrorCode::ConstraintMut)));
    accounts.mint.owner = key(9);
    let refused = t22::transfer_with_protocol_fee(&accounts, &data, Ok(0), 1);
    assert_eq!(refused, Err(broken(AccountName::Mint, ErrorCode::ConstraintOwner)));
    accounts.source.is_writable = false;
    let refused = t22::transfer_with_protocol_fee(&accounts, &data, Ok(0), 1);
    assert_eq!(refused, Err(broken(AccountName::Source, ErrorCode::ConstraintMut)));
    accounts.authority.is_signer = false;
    let refused = t22::transfer_with_protocol_fee(&accounts, &data, Ok(0), 1);
    assert_eq!(refused, Err(broken(AccountName::Authority, ErrorCode::AccountNotSigner)));
}

#[test]
fn thaw_is_signed_by_the_freeze_authority() {
    let mut accounts = accounts::ThawAfterKyc {
        token_account: account(3, false, true),
        mint: owned(2, TOKEN_2022_ID),
        freeze_authority: account(5, true, false),
        token_program: program(TOKEN_2022_ID),
    };
    assert_eq!(
        t22::thaw_after_kyc(&accounts),
        Ok(Step::ThawAccount { account: key(3), mint: key(2), authority: key(5) })
    );
    accounts.token_account.is_writable = false;
    let refused = t22::thaw_after_kyc(&accounts);
    assert_eq!(refused, Err(broken(AccountName::TokenAccount, ErrorCode::ConstraintMut)));
    accounts.freeze_authority.is_signer = false;
    let refused = t22::thaw_after_kyc(&accounts);
    assert_eq!(refused, Err(broken(AccountName::FreezeAuthority, ErrorCode::AccountNotSigner)));
}

#[test]
fn configure_is_signed_by_the_owner() {
    let mut accounts = accounts::ConfigureConfidentialAccount {
        token_account: account(3, false, true),
        mint: owned(2, TOKEN_2022_ID),
        proof_context: account(6, false, false),
        owner: account(5, true, false),
        token_program: program(TOKEN_2022_ID),
    };
    let zero = [1u8; AE_CIPHERTEXT_LEN];
    assert_eq!(
        t22::configure_confidential_account(&accounts, zero, 65_536),
        Ok(Step::ConfigureConfidentialAccount {
            account: key(3),
            mint: key(2),
            proof_context: key(6),
            owner: key(5),
            decryptable_zero_balance: zero,
            maximum_pending_balance_credit_counter: 65_536,
        })
    );
    accounts.owner.is_signer = false;
    let refused = t22::configure_confidential_account(&accounts, zero, 65_536);
    assert_eq!(refused, Err(broken(AccountName::Owner, ErrorCode::AccountNotSigner)));
}

#[test]
fn approve_is_signed_by_the_confidential_authority() {
    let mut accounts = accounts::ApproveConfidentialAccount {
        token_account: account(3, false, true),
        mint: owned(2, TOKEN_2022_ID),
        confidential_authority: account(5, true, false),
        token_program: program(TOKEN_2022_ID),
    };
    assert_eq!(
        t22::approve_confidential_account(&accounts),
        Ok(Step::ApproveConfidentialAccount { account: key(3), mint: key(2), authority: key(5) })
    );
    accounts.confidential_authority.is_signer = false;
    let refused = t22::approve_confidential_account(&accounts);
    let code = ErrorCode::AccountNotSigner;
    assert_eq!(refused, Err(broken(AccountName::ConfidentialAuthority, code)));
}

#[test]
fn deposit_and_apply_pass_on_what_the_owner_gives() {
    let mut deposit = accounts::DepositConfidential {
        token_account: account(3, false, true),
        mint: owned(2, TOKEN_2022_ID),
        authority: account(5, true, false),
        token_program: program(TOKEN_2022_ID),
    };
    assert_eq!(
        t22::deposit_confidential(&deposit, 10_000, 6),
        Ok(Step::DepositConfidential {
            account: key(3),
            mint: key(2),
            authority: key(5),
            amount: 10_000,
            decimals: 6,
        })
    );
    deposit.token_program.key = key(9);
    let refused = t22::deposit_confidential(&deposit, 10_000, 6);
    assert_eq!(refused, Err(broken(AccountName::TokenProgram, ErrorCode::InvalidProgramId)));

    let mut apply = accounts::ApplyPendingBalance {
        token_account: account(3, false, true),
        authority: account(5, true, false),
        token_program: program(TOKEN_2022_ID),
    };
    let balance = [8u8; AE_CIPHERTEXT_LEN];
    assert_eq!(
        t22::apply_pending_balance(&apply, 1, balance),
        Ok(Step::ApplyPendingBalance {
            account: key(3),
            authority: key(5),
            expected_pending_balance_credit_counter: 1,
            new_decryptable_available_balance: balance,
        })
    );
    apply.authority.is_signer = false;
    let refused = t22::apply_pending_balance(&apply, 1, balance);
    assert_eq!(refused, Err(broken(AccountName::Authority, ErrorCode::AccountNotSigner)));
}
