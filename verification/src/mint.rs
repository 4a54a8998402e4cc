//! Creating mints.
//!
//! Every mint is made in three phases: its account is created at the full length that its
//! extensions need, each extension is set up, and only then is the mint itself initialized. Most
//! extensions cannot be added afterwards.

use vstd::prelude::*;

use crate::accounts::CreateMintDeclarative;
use crate::accounts::CreateMintWithFee;
use crate::accounts::CreateRemittanceMint;
use crate::accounts::ReissueRemittanceMint;
use crate::error::Failure;
use crate::extension::codes;
use crate::extension::ExtensionType;
use crate::key::Pubkey;
use crate::step::AccountState;
use crate::step::Step;
use crate::step::ELGAMAL_PUBKEY_LEN;
use crate::token_interface::try_calculate_account_len;

verus! {

/// The kinds of mint that this program creates.
#[derive(Debug, Clone, Copy, PartialEq, Eq, Structural)]
pub enum MintKind {
    /// Made by `create_mint_declarative`.
    Declarative,
    /// Made by `create_mint_with_fee`.
    WithFee,
    /// Made by `create_remittance_mint`.
    Remittance,
    /// Made by `reissue_remittance_mint`.
    Reissued,
}

/// The calls that create a mint, in order, and the token program that they go to.
#[derive(Debug)]
pub struct MintPlan {
    /// The token program.
    pub token_program: Pubkey,
    /// The calls.
    pub steps: Vec<Step>,
}

impl MintPlan {
    /// What follows when `done` calls have been made and the last of them gave `last`: the error
    /// that it gave, or the next call, or nothing where all have been made.
    pub open spec fn next<E>(self, done: nat, last: Result<(), E>) -> Result<Option<Step>, E> {
        match last {
            Err(error) => Err(error),
            Ok(_) => if done < self.steps@.len() {
                Ok(Some(self.steps@[done as int]))
            } else {
                Ok(None)
            },
        }
    }
}

/// Says which call to make next, when `done` calls of a plan have been made and the last of them, if
/// there was one, gave `last`. An error ends the plan and is handed on.
pub fn next_step<E>(plan: &MintPlan, done: usize, last: Result<(), E>) -> (next: Result<
    Option<Step>,
    E,
>)
    ensures
        next == plan.next(done as nat, last),
{
    match last {
        Err(error) => Err(error),
        Ok(_) => if done < plan.steps.len() {
            Ok(Some(plan.steps[done]))
        } else {
            Ok(None)
        },
    }
}

impl MintKind {
    /// The extensions of a mint of this kind, in the order in which they are set up.
    pub open spec fn kinds(self) -> Seq<ExtensionType> {
        match self {
            MintKind::Declarative => seq![
                ExtensionType::MetadataPointer,
                ExtensionType::MintCloseAuthority,
            ],
            MintKind::WithFee => seq![
                ExtensionType::MintCloseAuthority,
                ExtensionType::TransferFeeConfig,
            ],
            MintKind::Remittance => seq![
                ExtensionType::TransferFeeConfig,
                ExtensionType::MetadataPointer,
                ExtensionType::DefaultAccountState,
                ExtensionType::MintCloseAuthority,
            ],
            MintKind::Reissued => seq![
                ExtensionType::TransferFeeConfig,
                ExtensionType::MetadataPointer,
                ExtensionType::DefaultAccountState,
                ExtensionType::MintCloseAuthority,
                ExtensionType::PermanentDelegate,
                ExtensionType::ConfidentialTransferMint,
                ExtensionType::ConfidentialTransferFeeConfig,
            ],
        }
    }

    /// The bytes of a mint of this kind: what its extensions need, neither more nor less.
    pub open spec fn len(self) -> nat {
        crate::layout::mint_account_len(crate::extension::numbers(self.kinds()))
    }

    /// The extensions of a mint of this kind, in the order in which they are set up.
    pub fn extensions(self) -> (kinds: Vec<ExtensionType>)
        ensures
            kinds@ == self.kinds(),
    {
        match self {
            MintKind::Declarative => vec![
                ExtensionType::MetadataPointer,
                ExtensionType::MintCloseAuthority,
            ],
            MintKind::WithFee => vec![
                ExtensionType::MintCloseAuthority,
                ExtensionType::TransferFeeConfig,
            ],
            MintKind::Remittance => vec![
                ExtensionType::TransferFeeConfig,
                ExtensionType::MetadataPointer,
                ExtensionType::DefaultAccountState,
                ExtensionType::MintCloseAuthority,
            ],
            MintKind::Reissued => vec![
                ExtensionType::TransferFeeConfig,
                ExtensionType::MetadataPointer,
                ExtensionType::DefaultAccountState,
                ExtensionType::MintCloseAuthority,
                ExtensionType::PermanentDelegate,
                ExtensionType::ConfidentialTransferMint,
                ExtensionType::ConfidentialTransferFeeConfig,
            ],
        }
    }

    /// The bytes of a mint of this kind.
    ///
    /// This is also the length whose rent the caller asks for before it plans the mint.
    pub fn space(self) -> (space: usize)
        ensures
            space == self.len(),
            space == match self {
                MintKind::Declarative => 270usize,
                MintKind::WithFee => 314usize,
                MintKind::Remittance => 387usize,
                MintKind::Reissued => 625usize,
            },
    {
        let kinds = self.extensions();
        let numbers = codes(&kinds);
        proof {
            crate::laws::law_bytes_of_a_mint(self);
        }
        assert forall|i: int| 0 <= i < numbers@.len() implies numbers@[i]
            != ExtensionType::TokenMetadata.number() by {
            assert(numbers@[i] == kinds@[i].number());
        }
        try_calculate_account_len(&numbers).unwrap()
    }
}

impl CreateMintDeclarative {
    /// The call that creates the account of the mint.
    ///
    /// An account that holds lamports already is only topped up to what it needs, or to one
    /// lamport where it needs nothing.
    pub open spec fn creation(self, space: u64, rent_minimum: u64) -> Step {
        if self.mint.lamports == 0 {
            Step::CreateAccount {
                from: self.payer.key,
                to: self.mint.key,
                lamports: rent_minimum,
                space,
                owner: self.token_program.key,
            }
        } else {
            let needed: u64 = if rent_minimum == 0 {
                1
            } else {
                rent_minimum
            };
            Step::CreateAccountAllowPrefund {
                from: self.payer.key,
                to: self.mint.key,
                lamports: if needed > self.mint.lamports {
                    (needed - self.mint.lamports) as u64
                } else {
                    0
                },
                space,
                owner: self.token_program.key,
            }
        }
    }

    /// The calls that make the declared mint: its account, the metadata pointer, the close
    /// authority, the mint. All authorities, and the metadata, are with the payer.
    pub open spec fn steps(
        self,
        decimals: u8,
        space: u64,
        rent_minimum: u64,
    ) -> Seq<Step> {
        seq![
            self.creation(space, rent_minimum),
            Step::InitializeMetadataPointer {
                mint: self.mint.key,
                authority: Some(self.payer.key),
                metadata_address: Some(self.payer.key),
            },
            Step::InitializeMintCloseAuthority {
                mint: self.mint.key,
                close_authority: Some(self.payer.key),
            },
            Step::InitializeMint2 {
                mint: self.mint.key,
                decimals,
                mint_authority: self.payer.key,
                freeze_authority: None,
            },
        ]
    }

    /// The calls that make the declared mint: its account, the metadata pointer, the close
    /// authority, the mint. All authorities, and the metadata, are with the payer.
    pub fn plan(
        &self,
        decimals: u8,
        space: u64,
        rent_minimum: u64,
    ) -> (steps: Vec<Step>)
        ensures
            steps@ == self.steps(
                decimals,
                space,
                rent_minimum,
            ),
    {
        let creation = if self.mint.lamports == 0 {
            Step::CreateAccount {
                from: self.payer.key,
                to: self.mint.key,
                lamports: rent_minimum,
                space,
                owner: self.token_program.key,
            }
        } else {
            let needed: u64 = if rent_minimum == 0 {
                1
            } else {
                rent_minimum
            };
            let missing: u64 = if needed > self.mint.lamports {
                needed - self.mint.lamports
            } else {
                0
            };
            Step::CreateAccountAllowPrefund {
                from: self.payer.key,
                to: self.mint.key,
                lamports: missing,
                space,
                owner: self.token_program.key,
            }
        };
        vec![
            creation,
            Step::InitializeMetadataPointer {
                mint: self.mint.key,
                authority: Some(self.payer.key),
                metadata_address: Some(self.payer.key),
            },
            Step::InitializeMintCloseAuthority {
                mint: self.mint.key,
                close_authority: Some(self.payer.key),
            },
            Step::InitializeMint2 {
                mint: self.mint.key,
                decimals,
                mint_authority: self.payer.key,
                freeze_authority: None,
            },
        ]
    }
}

/// Plans the mint that its accounts declare: with a metadata pointer and a close authority, at the
/// length of `MintKind::Declarative`.
///
/// `rent_minimum` is the balance with which an account of that length is exempt from rent. Behind
/// the last call, `confirm_mint_declarative` decides whether the mint stands.
pub fn create_mint_declarative(
    accounts: &CreateMintDeclarative,
    decimals: u8,
    rent_minimum: u64,
) -> (plan: Result<MintPlan, Failure>)
    ensures
        plan is Err <==> accounts.violation() is Some,
        plan is Err ==> plan->Err_0 == accounts.violation()->0,
        plan is Ok ==> plan->Ok_0.token_program == accounts.token_program.key,
        plan is Ok ==> plan->Ok_0.steps@ == accounts.steps(
            decimals,
            MintKind::Declarative.len() as u64,
            rent_minimum,
        ),
        plan is Ok ==> plan->Ok_0.steps@[0].creates() == Some(
            (270u64, accounts.token_program.key),
        ),
        plan is Ok ==> crate::laws::in_three_phases(
            plan->Ok_0.steps@,
            accounts.mint.key,
            MintKind::Declarative.kinds(),
            MintKind::Declarative.len() as u64,
            accounts.token_program.key,
        ),
{
    if let Some(failure) = accounts.check() {
        return Err(failure);
    }
    let space: usize = MintKind::Declarative.space();
    let steps = accounts.plan(
        decimals,
        space as u64,
        rent_minimum,
    );
    proof {
        crate::laws::law_declared_mint_in_three_phases(
            *accounts,
            decimals,
            space as u64,
            rent_minimum,
        );
    }
    Ok(MintPlan { token_program: accounts.token_program.key, steps })
}

/// Decides on the declared mint once every call of its plan has been made and it holds `lamports`.
///
/// `rent_minimum` is the balance with which an account of its length is exempt from rent.
pub fn confirm_mint_declarative(
    accounts: &CreateMintDeclarative,
    lamports: u64,
    rent_minimum: u64,
) -> (confirmed: Result<(), Failure>)
    ensures
        confirmed is Err <==> accounts.late_violation(lamports, rent_minimum) is Some,
        confirmed is Err ==> confirmed->Err_0 == accounts.late_violation(
            lamports,
            rent_minimum,
        )->0,
{
    match accounts.check_late(lamports, rent_minimum) {
        Some(failure) => Err(failure),
        None => Ok(()),
    }
}

impl CreateMintWithFee {
    /// The calls that make a mint with a transfer fee: its account, the close authority, the fee,
    /// the mint. All authorities are with the payer.
    pub open spec fn steps(
        self,
        decimals: u8,
        basis_points: u16,
        maximum_fee: u64,
        space: u64,
        rent_minimum: u64,
    ) -> Seq<Step> {
        seq![
            Step::CreateAccount {
                from: self.payer.key,
                to: self.mint.key,
                lamports: rent_minimum,
                space,
                owner: self.token_program.key,
            },
            Step::InitializeMintCloseAuthority {
                mint: self.mint.key,
                close_authority: Some(self.payer.key),
            },
            Step::InitializeTransferFeeConfig {
                mint: self.mint.key,
                transfer_fee_config_authority: Some(self.payer.key),
                withdraw_withheld_authority: Some(self.payer.key),
                transfer_fee_basis_points: basis_points,
                maximum_fee,
            },
            Step::InitializeMint2 {
                mint: self.mint.key,
                decimals,
                mint_authority: self.payer.key,
                freeze_authority: None,
            },
        ]
    }

    /// The calls that make a mint with a transfer fee: its account, the close authority, the fee,
    /// the mint. All authorities are with the payer.
    pub fn plan(
        &self,
        decimals: u8,
        basis_points: u16,
        maximum_fee: u64,
        space: u64,
        rent_minimum: u64,
    ) -> (steps: Vec<Step>)
        ensures
            steps@ == self.steps(
                decimals,
                basis_points,
                maximum_fee,
                space,
                rent_minimum,
            ),
    {
        vec![
            Step::CreateAccount {
                from: self.payer.key,
                to: self.mint.key,
                lamports: rent_minimum,
                space,
                owner: self.token_program.key,
            },
            Step::InitializeMintCloseAuthority {
                mint: self.mint.key,
                close_authority: Some(self.payer.key),
            },
            Step::InitializeTransferFeeConfig {
                mint: self.mint.key,
                transfer_fee_config_authority: Some(self.payer.key),
                withdraw_withheld_authority: Some(self.payer.key),
                transfer_fee_basis_points: basis_points,
                maximum_fee,
            },
            Step::InitializeMint2 {
                mint: self.mint.key,
                decimals,
                mint_authority: self.payer.key,
                freeze_authority: None,
            },
        ]
    }
}

/// Plans a mint with a close authority and a transfer fee, at the length of `MintKind::WithFee`.
///
/// `rent_minimum` is the balance with which an account of that length is exempt from rent.
pub fn create_mint_with_fee(
    accounts: &CreateMintWithFee,
    decimals: u8,
    basis_points: u16,
    maximum_fee: u64,
    rent_minimum: u64,
) -> (plan: Result<MintPlan, Failure>)
    ensures
        plan is Err <==> accounts.violation() is Some,
        plan is Err ==> plan->Err_0 == accounts.violation()->0,
        plan is Ok ==> plan->Ok_0.token_program == accounts.token_program.key,
        plan is Ok ==> plan->Ok_0.steps@ == accounts.steps(
            decimals,
            basis_points,
            maximum_fee,
            MintKind::WithFee.len() as u64,
            rent_minimum,
        ),
        plan is Ok ==> plan->Ok_0.steps@[0].creates() == Some(
            (314u64, accounts.token_program.key),
        ),
        plan is Ok ==> crate::laws::in_three_phases(
            plan->Ok_0.steps@,
            accounts.mint.key,
            MintKind::WithFee.kinds(),
            MintKind::WithFee.len() as u64,
            accounts.token_program.key,
        ),
{
    if let Some(failure) = accounts.check() {
        return Err(failure);
    }
    let space: usize = MintKind::WithFee.space();
    let steps = accounts.plan(
        decimals,
        basis_points,
        maximum_fee,
        space as u64,
        rent_minimum,
    );
    proof {
        crate::laws::law_mint_with_fee_in_three_phases(
            *accounts,
            decimals,
            basis_points,
            maximum_fee,
            space as u64,
            rent_minimum,
        );
    }
    Ok(MintPlan { token_program: accounts.token_program.key, steps })
}

impl CreateRemittanceMint {
    /// The calls that make a remittance mint: its account, the fee, the pointer to metadata in the
    /// mint itself, token accounts that start frozen, the close authority, the mint. All
    /// authorities are with the payer, the one that thaws among them.
    pub open spec fn steps(
        self,
        decimals: u8,
        basis_points: u16,
        maximum_fee: u64,
        space: u64,
        rent_minimum: u64,
    ) -> Seq<Step> {
        seq![
            Step::CreateAccount {
                from: self.payer.key,
                to: self.mint.key,
                lamports: rent_minimum,
                space,
                owner: self.token_program.key,
            },
            Step::InitializeTransferFeeConfig {
                mint: self.mint.key,
                transfer_fee_config_authority: Some(self.payer.key),
                withdraw_withheld_authority: Some(self.payer.key),
                transfer_fee_basis_points: basis_points,
                maximum_fee,
            },
            Step::InitializeMetadataPointer {
                mint: self.mint.key,
                authority: Some(self.payer.key),
                metadata_address: Some(self.mint.key),
            },
            Step::InitializeDefaultAccountState {
                mint: self.mint.key,
                state: AccountState::Frozen,
            },
            Step::InitializeMintCloseAuthority {
                mint: self.mint.key,
                close_authority: Some(self.payer.key),
            },
            Step::InitializeMint2 {
                mint: self.mint.key,
                decimals,
                mint_authority: self.payer.key,
                freeze_authority: Some(self.payer.key),
            },
        ]
    }

    /// The calls that make a remittance mint: its account, the fee, the pointer to metadata in the
    /// mint itself, token accounts that start frozen, the close authority, the mint. All
    /// authorities are with the payer, the one that thaws among them.
    pub fn plan(
        &self,
        decimals: u8,
        basis_points: u16,
        maximum_fee: u64,
        space: u64,
        rent_minimum: u64,
    ) -> (steps: Vec<Step>)
        ensures
            steps@ == self.steps(
                decimals,
                basis_points,
                maximum_fee,
                space,
                rent_minimum,
            ),
    {
        vec![
            Step::CreateAccount {
                from: self.payer.key,
                to: self.mint.key,
                lamports: rent_minimum,
                space,
                owner: self.token_program.key,
            },
            Step::InitializeTransferFeeConfig {
                mint: self.mint.key,
                transfer_fee_config_authority: Some(self.payer.key),
                withdraw_withheld_authority: Some(self.payer.key),
                transfer_fee_basis_points: basis_points,
                maximum_fee,
            },
            Step::InitializeMetadataPointer {
                mint: self.mint.key,
                authority: Some(self.payer.key),
                metadata_address: Some(self.mint.key),
            },
            Step::InitializeDefaultAccountState {
                mint: self.mint.key,
                state: AccountState::Frozen,
            },
            Step::InitializeMintCloseAuthority {
                mint: self.mint.key,
                close_authority: Some(self.payer.key),
            },
            Step::InitializeMint2 {
                mint: self.mint.key,
                decimals,
                mint_authority: self.payer.key,
                freeze_authority: Some(self.payer.key),
            },
        ]
    }
}

/// Plans a remittance mint, at the length of `MintKind::Remittance`.
///
/// `rent_minimum` is the balance with which an account of that length is exempt from rent.
pub fn create_remittance_mint(
    accounts: &CreateRemittanceMint,
    decimals: u8,
    basis_points: u16,
    maximum_fee: u64,
    rent_minimum: u64,
) -> (plan: Result<MintPlan, Failure>)
    ensures
        plan is Err <==> accounts.violation() is Some,
        plan is Err ==> plan->Err_0 == accounts.violation()->0,
        plan is Ok ==> plan->Ok_0.token_program == accounts.token_program.key,
        plan is Ok ==> plan->Ok_0.steps@ == accounts.steps(
            decimals,
            basis_points,
            maximum_fee,
            MintKind::Remittance.len() as u64,
            rent_minimum,
        ),
        plan is Ok ==> plan->Ok_0.steps@[0].creates() == Some(
            (387u64, accounts.token_program.key),
        ),
        plan is Ok ==> crate::laws::in_three_phases(
            plan->Ok_0.steps@,
            accounts.mint.key,
            MintKind::Remittance.kinds(),
            MintKind::Remittance.len() as u64,
            accounts.token_program.key,
        ),
{
    if let Some(failure) = accounts.check() {
        return Err(failure);
    }
    let space: usize = MintKind::Remittance.space();
    let steps = accounts.plan(
        decimals,
        basis_points,
        maximum_fee,
        space as u64,
        rent_minimum,
    );
    proof {
        crate::laws::law_remittance_mint_in_three_phases(
            *accounts,
            decimals,
            basis_points,
            maximum_fee,
            space as u64,
            rent_minimum,
        );
    }
    Ok(MintPlan { token_program: accounts.token_program.key, steps })
}

impl ReissueRemittanceMint {
    /// The calls that make a remittance mint again, as `create_remittance_mint` does, with three
    /// extensions more: the payer may seize, token accounts may transfer confidentially once the
    /// payer approves them, and fees of such transfers are withheld under the key that is given.
    pub open spec fn steps(
        self,
        decimals: u8,
        basis_points: u16,
        maximum_fee: u64,
        withdraw_withheld_authority_elgamal_pubkey: [u8; ELGAMAL_PUBKEY_LEN],
        space: u64,
        rent_minimum: u64,
    ) -> Seq<Step> {
        seq![
            Step::CreateAccount {
                from: self.payer.key,
                to: self.mint.key,
                lamports: rent_minimum,
                space,
                owner: self.token_program.key,
            },
            Step::InitializeTransferFeeConfig {
                mint: self.mint.key,
                transfer_fee_config_authority: Some(self.payer.key),
                withdraw_withheld_authority: Some(self.payer.key),
                transfer_fee_basis_points: basis_points,
                maximum_fee,
            },
            Step::InitializeMetadataPointer {
                mint: self.mint.key,
                authority: Some(self.payer.key),
                metadata_address: Some(self.mint.key),
            },
            Step::InitializeDefaultAccountState {
                mint: self.mint.key,
                state: AccountState::Frozen,
            },
            Step::InitializeMintCloseAuthority {
                mint: self.mint.key,
                close_authority: Some(self.payer.key),
            },
            Step::InitializePermanentDelegate {
                mint: self.mint.key,
                delegate: self.payer.key,
            },
            Step::InitializeConfidentialTransferMint {
                mint: self.mint.key,
                authority: Some(self.payer.key),
                auto_approve_new_accounts: false,
                auditor_elgamal_pubkey: None,
            },
            Step::InitializeConfidentialTransferFeeConfig {
                mint: self.mint.key,
                authority: Some(self.payer.key),
                withdraw_withheld_authority_elgamal_pubkey,
            },
            Step::InitializeMint2 {
                mint: self.mint.key,
                decimals,
                mint_authority: self.payer.key,
                freeze_authority: Some(self.payer.key),
            },
        ]
    }

    /// The calls that make a remittance mint again, as `create_remittance_mint` does, with three
    /// extensions more: the payer may seize, token accounts may transfer confidentially once the
    /// payer approves them, and fees of such transfers are withheld under the key that is given.
    pub fn plan(
        &self,
        decimals: u8,
        basis_points: u16,
        maximum_fee: u64,
        withdraw_withheld_authority_elgamal_pubkey: [u8; ELGAMAL_PUBKEY_LEN],
        space: u64,
        rent_minimum: u64,
    ) -> (steps: Vec<Step>)
        ensures
            steps@ == self.steps(
                decimals,
                basis_points,
                maximum_fee,
                withdraw_withheld_authority_elgamal_pubkey,
                space,
                rent_minimum,
            ),
    {
        vec![
            Step::CreateAccount {
                from: self.payer.key,
                to: self.mint.key,
                lamports: rent_minimum,
                space,
                owner: self.token_program.key,
            },
            Step::InitializeTransferFeeConfig {
                mint: self.mint.key,
                transfer_fee_config_authority: Some(self.payer.key),
                withdraw_withheld_authority: Some(self.payer.key),
                transfer_fee_basis_points: basis_points,
                maximum_fee,
            },
            Step::InitializeMetadataPointer {
                mint: self.mint.key,
                authority: Some(self.payer.key),
                metadata_address: Some(self.mint.key),
            },
            Step::InitializeDefaultAccountState {
                mint: self.mint.key,
                state: AccountState::Frozen,
            },
            Step::InitializeMintCloseAuthority {
                mint: self.mint.key,
                close_authority: Some(self.payer.key),
            },
            Step::InitializePermanentDelegate {
                mint: self.mint.key,
                delegate: self.payer.key,
            },
            Step::InitializeConfidentialTransferMint {
                mint: self.mint.key,
                authority: Some(self.payer.key),
                auto_approve_new_accounts: false,
                auditor_elgamal_pubkey: None,
            },
            Step::InitializeConfidentialTransferFeeConfig {
                mint: self.mint.key,
                authority: Some(self.payer.key),
                withdraw_withheld_authority_elgamal_pubkey,
            },
            Step::InitializeMint2 {
                mint: self.mint.key,
                decimals,
                mint_authority: self.payer.key,
                freeze_authority: Some(self.payer.key),
            },
        ]
    }
}

/// Plans a remittance mint with seizure and confidential transfers, at the length of
/// `MintKind::Reissued`.
///
/// `rent_minimum` is the balance with which an account of that length is exempt from rent.
pub fn reissue_remittance_mint(
    accounts: &ReissueRemittanceMint,
    decimals: u8,
    basis_points: u16,
    maximum_fee: u64,
    withdraw_withheld_authority_elgamal_pubkey: [u8; ELGAMAL_PUBKEY_LEN],
    rent_minimum: u64,
) -> (plan: Result<MintPlan, Failure>)
    ensures
        plan is Err <==> accounts.violation() is Some,
        plan is Err ==> plan->Err_0 == accounts.violation()->0,
        plan is Ok ==> plan->Ok_0.token_program == accounts.token_program.key,
        plan is Ok ==> plan->Ok_0.steps@ == accounts.steps(
            decimals,
            basis_points,
            maximum_fee,
            withdraw_withheld_authority_elgamal_pubkey,
            MintKind::Reissued.len() as u64,
            rent_minimum,
        ),
        plan is Ok ==> plan->Ok_0.steps@[0].creates() == Some(
            (625u64, accounts.token_program.key),
        ),
        plan is Ok ==> crate::laws::in_three_phases(
            plan->Ok_0.steps@,
            accounts.mint.key,
            MintKind::Reissued.kinds(),
            MintKind::Reissued.len() as u64,
            accounts.token_program.key,
        ),
{
    if let Some(failure) = accounts.check() {
        return Err(failure);
    }
    let space: usize = MintKind::Reissued.space();
    let steps = accounts.plan(
        decimals,
        basis_points,
        maximum_fee,
        withdraw_withheld_authority_elgamal_pubkey,
        space as u64,
        rent_minimum,
    );
    proof {
        crate::laws::law_reissued_mint_in_three_phases(
            *accounts,
            decimals,
            basis_points,
            maximum_fee,
            withdraw_withheld_authority_elgamal_pubkey,
            space as u64,
            rent_minimum,
        );
    }
    Ok(MintPlan { token_program: accounts.token_program.key, steps })
}

} // verus!
