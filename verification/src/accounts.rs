//! The accounts that each instruction takes, and the rules they must meet before it runs.

use vstd::prelude::*;

use crate::error::AccountName;
use crate::error::ErrorCode;
use crate::error::Failure;
use crate::key::Pubkey;
use crate::key::SPL_TOKEN_ID;
use crate::key::SYSTEM_PROGRAM_ID;
use crate::key::TOKEN_2022_ID;

verus! {

/// What an instruction is told of an account.
#[derive(Debug, Clone, Copy)]
pub struct AccountView {
    /// The address.
    pub key: Pubkey,
    /// The program that the account belongs to.
    pub owner: Pubkey,
    /// The balance.
    pub lamports: u64,
    /// Whether the account signed.
    pub is_signer: bool,
    /// Whether the account may be written.
    pub is_writable: bool,
    /// Whether the account is a program.
    pub executable: bool,
}

/// The first of two outcomes that is a failure.
pub open spec fn first(a: Option<Failure>, b: Option<Failure>) -> Option<Failure> {
    if a is Some {
        a
    } else {
        b
    }
}

/// The failure `code` of the account `name`, where `broken` holds.
pub open spec fn broken(broken: bool, name: AccountName, code: ErrorCode) -> Option<Failure> {
    if broken {
        Some(Failure::Account { name, code })
    } else {
        None
    }
}

impl AccountView {
    /// Fails where an account that stands for a signer did not sign.
    pub open spec fn as_signer(self, name: AccountName) -> Option<Failure> {
        broken(!self.is_signer, name, ErrorCode::AccountNotSigner)
    }

    /// Fails where the account is not writable.
    pub open spec fn as_mut(self, name: AccountName) -> Option<Failure> {
        broken(!self.is_writable, name, ErrorCode::ConstraintMut)
    }

    /// Fails where an account that is to be created at its own address did not sign.
    pub open spec fn as_created(self, name: AccountName) -> Option<Failure> {
        broken(!self.is_signer, name, ErrorCode::ConstraintSigner)
    }

    /// Fails where the account does not belong to `owner`.
    pub open spec fn as_owned(self, name: AccountName, owner: Pubkey) -> Option<Failure> {
        broken(self.owner != owner, name, ErrorCode::ConstraintOwner)
    }

    /// Fails where the account is not the program SPL Token or Token-2022.
    pub open spec fn as_token_program(self) -> Option<Failure> {
        first(
            broken(
                self.key != Pubkey(SPL_TOKEN_ID) && self.key != Pubkey(TOKEN_2022_ID),
                AccountName::TokenProgram,
                ErrorCode::InvalidProgramId,
            ),
            broken(!self.executable, AccountName::TokenProgram, ErrorCode::InvalidProgramExecutable),
        )
    }

    /// Fails where the account is not the system program.
    pub open spec fn as_system_program(self) -> Option<Failure> {
        first(
            broken(
                self.key != Pubkey(SYSTEM_PROGRAM_ID),
                AccountName::SystemProgram,
                ErrorCode::InvalidProgramId,
            ),
            broken(
                !self.executable,
                AccountName::SystemProgram,
                ErrorCode::InvalidProgramExecutable,
            ),
        )
    }

    /// Checks that an account that stands for a signer signed.
    pub fn check_signer(&self, name: AccountName) -> (failure: Option<Failure>)
        ensures
            failure == self.as_signer(name),
    {
        if self.is_signer {
            None
        } else {
            Some(Failure::Account { name, code: ErrorCode::AccountNotSigner })
        }
    }

    /// Checks that the account is writable.
    pub fn check_mut(&self, name: AccountName) -> (failure: Option<Failure>)
        ensures
            failure == self.as_mut(name),
    {
        if self.is_writable {
            None
        } else {
            Some(Failure::Account { name, code: ErrorCode::ConstraintMut })
        }
    }

    /// Checks that an account that is to be created at its own address signed.
    pub fn check_created(&self, name: AccountName) -> (failure: Option<Failure>)
        ensures
            failure == self.as_created(name),
    {
        if self.is_signer {
            None
        } else {
            Some(Failure::Account { name, code: ErrorCode::ConstraintSigner })
        }
    }

    /// Checks that the account belongs to `owner`.
    pub fn check_owned(&self, name: AccountName, owner: Pubkey) -> (failure: Option<Failure>)
        ensures
            failure == self.as_owned(name, owner),
    {
        if self.owner == owner {
            None
        } else {
            Some(Failure::Account { name, code: ErrorCode::ConstraintOwner })
        }
    }

    /// Checks that the account is the program SPL Token or Token-2022.
    pub fn check_token_program(&self) -> (failure: Option<Failure>)
        ensures
            failure == self.as_token_program(),
    {
        let name = AccountName::TokenProgram;
        if self.key != Pubkey(SPL_TOKEN_ID) && self.key != Pubkey(TOKEN_2022_ID) {
            Some(Failure::Account { name, code: ErrorCode::InvalidProgramId })
        } else if !self.executable {
            Some(Failure::Account { name, code: ErrorCode::InvalidProgramExecutable })
        } else {
            None
        }
    }

    /// Checks that the account is the system program.
    pub fn check_system_program(&self) -> (failure: Option<Failure>)
        ensures
            failure == self.as_system_program(),
    {
        let name = AccountName::SystemProgram;
        if self.key != Pubkey(SYSTEM_PROGRAM_ID) {
            Some(Failure::Account { name, code: ErrorCode::InvalidProgramId })
        } else if !self.executable {
            Some(Failure::Account { name, code: ErrorCode::InvalidProgramExecutable })
        } else {
            None
        }
    }
}

/// The first of two outcomes that is a failure.
fn either(a: Option<Failure>, b: Option<Failure>) -> (r: Option<Failure>)
    ensures
        r == first(a, b),
{
    if a.is_some() {
        a
    } else {
        b
    }
}

/// The first rule that the accounts of an instruction that makes a mint by its own calls break.
pub open spec fn creation_violation(
    payer: AccountView,
    mint: AccountView,
    token_program: AccountView,
    system_program: AccountView,
) -> Option<Failure> {
    first(
        payer.as_signer(AccountName::Payer),
        first(
            token_program.as_token_program(),
            first(
                system_program.as_system_program(),
                first(
                    payer.as_mut(AccountName::Payer),
                    first(
                        mint.as_mut(AccountName::Mint),
                        mint.as_created(AccountName::Mint),
                    ),
                ),
            ),
        ),
    )
}

/// Finds the first rule that the accounts of an instruction that makes a mint by its own calls break.
fn check_creation(
    payer: &AccountView,
    mint: &AccountView,
    token_program: &AccountView,
    system_program: &AccountView,
) -> (failure: Option<Failure>)
    ensures
        failure == creation_violation(*payer, *mint, *token_program, *system_program),
{
    either(
        payer.check_signer(AccountName::Payer),
        either(
            token_program.check_token_program(),
            either(
                system_program.check_system_program(),
                either(
                    payer.check_mut(AccountName::Payer),
                    either(
                        mint.check_mut(AccountName::Mint),
                        mint.check_created(AccountName::Mint),
                    ),
                ),
            ),
        ),
    )
}

/// The first rule that the accounts of a call on one token account break, in the name of `signer`.
pub open spec fn touch_violation(
    token_account: AccountView,
    signer: AccountView,
    name: AccountName,
    token_program: AccountView,
) -> Option<Failure> {
    first(
        signer.as_signer(name),
        first(
            token_program.as_token_program(),
            token_account.as_mut(AccountName::TokenAccount),
        ),
    )
}

/// Finds the first rule that the accounts of a call on one token account break, in the name of
/// `signer`.
fn check_touch(
    token_account: &AccountView,
    signer: &AccountView,
    name: AccountName,
    token_program: &AccountView,
) -> (failure: Option<Failure>)
    ensures
        failure == touch_violation(*token_account, *signer, name, *token_program),
{
    either(
        signer.check_signer(name),
        either(
            token_program.check_token_program(),
            token_account.check_mut(AccountName::TokenAccount),
        ),
    )
}

/// Accounts of `create_mint_declarative`.
///
/// The mint is declared, not built: whoever lists these accounts asks for a mint with a close
/// authority and a metadata pointer, both in the hands of the payer. A mint that already holds
/// lamports is accepted, unless it is the payer itself. That the mint signed, and that it and the
/// payer can be written, is checked only behind the calls: where it does not hold, it is for the
/// first call to fail.
#[derive(Debug, Clone, Copy)]
pub struct CreateMintDeclarative {
    /// Pays for the mint and becomes its authority.
    pub payer: AccountView,
    /// The mint.
    pub mint: AccountView,
    /// SPL Token or Token-2022.
    pub token_program: AccountView,
    /// The system program.
    pub system_program: AccountView,
}

impl CreateMintDeclarative {
    /// Fails where the mint already holds lamports and is the payer.
    pub open spec fn prefunded_by_itself(self) -> Option<Failure> {
        if self.mint.lamports != 0 && self.payer.key == self.mint.key {
            Some(Failure::TryingToInitPayerAsProgramAccount)
        } else {
            None
        }
    }

    /// The first rule that these accounts break before the mint is created.
    pub open spec fn violation(self) -> Option<Failure> {
        first(
            self.payer.as_signer(AccountName::Payer),
            first(
                self.token_program.as_token_program(),
                first(self.system_program.as_system_program(), self.prefunded_by_itself()),
            ),
        )
    }

    /// The first rule that these accounts break once the mint is created and holds `lamports`, where
    /// it needs `rent_minimum` to be exempt from rent.
    pub open spec fn late_violation(self, lamports: u64, rent_minimum: u64) -> Option<Failure> {
        first(
            self.mint.as_mut(AccountName::Mint),
            first(
                self.mint.as_created(AccountName::Mint),
                first(
                    broken(
                        lamports < rent_minimum,
                        AccountName::Mint,
                        ErrorCode::ConstraintRentExempt,
                    ),
                    self.payer.as_mut(AccountName::Payer),
                ),
            ),
        )
    }

    /// Finds the first rule that these accounts break before the mint is created.
    pub fn check(&self) -> (failure: Option<Failure>)
        ensures
            failure == self.violation(),
    {
        let prefunded = if self.mint.lamports != 0 && self.payer.key == self.mint.key {
            Some(Failure::TryingToInitPayerAsProgramAccount)
        } else {
            None
        };
        either(
            self.payer.check_signer(AccountName::Payer),
            either(
                self.token_program.check_token_program(),
                either(self.system_program.check_system_program(), prefunded),
            ),
        )
    }

    /// Finds the first rule that these accounts break once the mint is created.
    pub fn check_late(&self, lamports: u64, rent_minimum: u64) -> (failure: Option<Failure>)
        ensures
            failure == self.late_violation(lamports, rent_minimum),
    {
        let rent = if lamports < rent_minimum {
            Some(
                Failure::Account { name: AccountName::Mint, code: ErrorCode::ConstraintRentExempt },
            )
        } else {
            None
        };
        either(
            self.mint.check_mut(AccountName::Mint),
            either(
                self.mint.check_created(AccountName::Mint),
                either(rent, self.payer.check_mut(AccountName::Payer)),
            ),
        )
    }
}

/// Accounts of `create_mint_with_fee`.
///
/// The mint does not exist yet. It must sign, because it is made at its own address.
#[derive(Debug, Clone, Copy)]
pub struct CreateMintWithFee {
    /// Pays for the mint and becomes its authority.
    pub payer: AccountView,
    /// The mint.
    pub mint: AccountView,
    /// SPL Token or Token-2022.
    pub token_program: AccountView,
    /// The system program.
    pub system_program: AccountView,
}

impl CreateMintWithFee {
    /// The first rule that these accounts break.
    pub open spec fn violation(self) -> Option<Failure> {
        creation_violation(self.payer, self.mint, self.token_program, self.system_program)
    }

    /// Finds the first rule that these accounts break.
    pub fn check(&self) -> (failure: Option<Failure>)
        ensures
            failure == self.violation(),
    {
        check_creation(&self.payer, &self.mint, &self.token_program, &self.system_program)
    }
}

/// Accounts of `assert_supported_mint`.
///
/// The mint must belong to the token program that is given with it: its bytes alone show only a
/// layout, which an account of any program could have.
#[derive(Debug, Clone, Copy)]
pub struct AssertSupportedMint {
    /// The mint.
    pub mint: AccountView,
    /// SPL Token or Token-2022.
    pub token_program: AccountView,
}

impl AssertSupportedMint {
    /// The first rule that these accounts break.
    pub open spec fn violation(self) -> Option<Failure> {
        first(
            self.token_program.as_token_program(),
            self.mint.as_owned(AccountName::Mint, self.token_program.key),
        )
    }

    /// Finds the first rule that these accounts break.
    pub fn check(&self) -> (failure: Option<Failure>)
        ensures
            failure == self.violation(),
    {
        either(
            self.token_program.check_token_program(),
            self.mint.check_owned(AccountName::Mint, self.token_program.key),
        )
    }
}

/// Accounts of `create_remittance_mint`.
#[derive(Debug, Clone, Copy)]
pub struct CreateRemittanceMint {
    /// Pays for the mint and becomes its authority.
    pub payer: AccountView,
    /// The mint.
    pub mint: AccountView,
    /// SPL Token or Token-2022.
    pub token_program: AccountView,
    /// The system program.
    pub system_program: AccountView,
}

impl CreateRemittanceMint {
    /// The first rule that these accounts break.
    pub open spec fn violation(self) -> Option<Failure> {
        creation_violation(self.payer, self.mint, self.token_program, self.system_program)
    }

    /// Finds the first rule that these accounts break.
    pub fn check(&self) -> (failure: Option<Failure>)
        ensures
            failure == self.violation(),
    {
        check_creation(&self.payer, &self.mint, &self.token_program, &self.system_program)
    }
}

/// Accounts of `reissue_remittance_mint`.
#[derive(Debug, Clone, Copy)]
pub struct ReissueRemittanceMint {
    /// Pays for the mint and becomes its authority.
    pub payer: AccountView,
    /// The mint.
    pub mint: AccountView,
    /// SPL Token or Token-2022.
    pub token_program: AccountView,
    /// The system program.
    pub system_program: AccountView,
}

impl ReissueRemittanceMint {
    /// The first rule that these accounts break.
    pub open spec fn violation(self) -> Option<Failure> {
        creation_violation(self.payer, self.mint, self.token_program, self.system_program)
    }

    /// Finds the first rule that these accounts break.
    pub fn check(&self) -> (failure: Option<Failure>)
        ensures
            failure == self.violation(),
    {
        check_creation(&self.payer, &self.mint, &self.token_program, &self.system_program)
    }
}

/// Accounts of `quote_remittance_fee`.
#[derive(Debug, Clone, Copy)]
pub struct QuoteRemittanceFee {
    /// The mint.
    pub mint: AccountView,
    /// SPL Token or Token-2022.
    pub token_program: AccountView,
}

impl QuoteRemittanceFee {
    /// The first rule that these accounts break.
    pub open spec fn violation(self) -> Option<Failure> {
        first(
            self.token_program.as_token_program(),
            self.mint.as_owned(AccountName::Mint, self.token_program.key),
        )
    }

    /// Finds the first rule that these accounts break.
    pub fn check(&self) -> (failure: Option<Failure>)
        ensures
            failure == self.violation(),
    {
        either(
            self.token_program.check_token_program(),
            self.mint.check_owned(AccountName::Mint, self.token_program.key),
        )
    }
}

/// Accounts of `transfer_with_protocol_fee`.
#[derive(Debug, Clone, Copy)]
pub struct TransferWithProtocolFee {
    /// The token account that is debited.
    pub source: AccountView,
    /// The mint.
    pub mint: AccountView,
    /// The token account that is credited.
    pub destination: AccountView,
    /// The authority over the token account.
    pub authority: AccountView,
    /// SPL Token or Token-2022.
    pub token_program: AccountView,
}

impl TransferWithProtocolFee {
    /// The first rule that these accounts break.
    pub open spec fn violation(self) -> Option<Failure> {
        first(
            self.authority.as_signer(AccountName::Authority),
            first(
                self.token_program.as_token_program(),
                first(
                    self.source.as_mut(AccountName::Source),
                    first(
                        self.mint.as_owned(AccountName::Mint, self.token_program.key),
                        self.destination.as_mut(AccountName::Destination),
                    ),
                ),
            ),
        )
    }

    /// Finds the first rule that these accounts break.
    pub fn check(&self) -> (failure: Option<Failure>)
        ensures
            failure == self.violation(),
    {
        either(
            self.authority.check_signer(AccountName::Authority),
            either(
                self.token_program.check_token_program(),
                either(
                    self.source.check_mut(AccountName::Source),
                    either(
                        self.mint.check_owned(AccountName::Mint, self.token_program.key),
                        self.destination.check_mut(AccountName::Destination),
                    ),
                ),
            ),
        )
    }
}

/// Accounts of `thaw_after_kyc`.
#[derive(Debug, Clone, Copy)]
pub struct ThawAfterKyc {
    /// The token account.
    pub token_account: AccountView,
    /// The mint.
    pub mint: AccountView,
    /// The freeze authority of the mint.
    pub freeze_authority: AccountView,
    /// SPL Token or Token-2022.
    pub token_program: AccountView,
}

impl ThawAfterKyc {
    /// The first rule that these accounts break.
    pub open spec fn violation(self) -> Option<Failure> {
        touch_violation(self.token_account, self.freeze_authority, AccountName::FreezeAuthority, self.token_program)
    }

    /// Finds the first rule that these accounts break.
    pub fn check(&self) -> (failure: Option<Failure>)
        ensures
            failure == self.violation(),
    {
        check_touch(&self.token_account, &self.freeze_authority, AccountName::FreezeAuthority, &self.token_program)
    }
}

/// Accounts of `configure_confidential_account`.
#[derive(Debug, Clone, Copy)]
pub struct ConfigureConfidentialAccount {
    /// The token account.
    pub token_account: AccountView,
    /// The mint.
    pub mint: AccountView,
    /// The account that holds the verified proof of the encryption key.
    pub proof_context: AccountView,
    /// The owner of the token account.
    pub owner: AccountView,
    /// SPL Token or Token-2022.
    pub token_program: AccountView,
}

impl ConfigureConfidentialAccount {
    /// The first rule that these accounts break.
    pub open spec fn violation(self) -> Option<Failure> {
        touch_violation(self.token_account, self.owner, AccountName::Owner, self.token_program)
    }

    /// Finds the first rule that these accounts break.
    pub fn check(&self) -> (failure: Option<Failure>)
        ensures
            failure == self.violation(),
    {
        check_touch(&self.token_account, &self.owner, AccountName::Owner, &self.token_program)
    }
}

/// Accounts of `approve_confidential_account`.
#[derive(Debug, Clone, Copy)]
pub struct ApproveConfidentialAccount {
    /// The token account.
    pub token_account: AccountView,
    /// The mint.
    pub mint: AccountView,
    /// The authority over confidential transfers of the mint.
    pub confidential_authority: AccountView,
    /// SPL Token or Token-2022.
    pub token_program: AccountView,
}

impl ApproveConfidentialAccount {
    /// The first rule that these accounts break.
    pub open spec fn violation(self) -> Option<Failure> {
        touch_violation(self.token_account, self.confidential_authority, AccountName::ConfidentialAuthority, self.token_program)
    }

    /// Finds the first rule that these accounts break.
    pub fn check(&self) -> (failure: Option<Failure>)
        ensures
            failure == self.violation(),
    {
        check_touch(&self.token_account, &self.confidential_authority, AccountName::ConfidentialAuthority, &self.token_program)
    }
}

/// Accounts of `deposit_confidential`.
#[derive(Debug, Clone, Copy)]
pub struct DepositConfidential {
    /// The token account.
    pub token_account: AccountView,
    /// The mint.
    pub mint: AccountView,
    /// The authority over the token account.
    pub authority: AccountView,
    /// SPL Token or Token-2022.
    pub token_program: AccountView,
}

impl DepositConfidential {
    /// The first rule that these accounts break.
    pub open spec fn violation(self) -> Option<Failure> {
        touch_violation(self.token_account, self.authority, AccountName::Authority, self.token_program)
    }

    /// Finds the first rule that these accounts break.
    pub fn check(&self) -> (failure: Option<Failure>)
        ensures
            failure == self.violation(),
    {
        check_touch(&self.token_account, &self.authority, AccountName::Authority, &self.token_program)
    }
}

/// Accounts of `apply_pending_balance`.
#[derive(Debug, Clone, Copy)]
pub struct ApplyPendingBalance {
    /// The token account.
    pub token_account: AccountView,
    /// The authority over the token account.
    pub authority: AccountView,
    /// SPL Token or Token-2022.
    pub token_program: AccountView,
}

impl ApplyPendingBalance {
    /// The first rule that these accounts break.
    pub open spec fn violation(self) -> Option<Failure> {
        touch_violation(self.token_account, self.authority, AccountName::Authority, self.token_program)
    }

    /// Finds the first rule that these accounts break.
    pub fn check(&self) -> (failure: Option<Failure>)
        ensures
            failure == self.violation(),
    {
        check_touch(&self.token_account, &self.authority, AccountName::Authority, &self.token_program)
    }
}

} // verus!
