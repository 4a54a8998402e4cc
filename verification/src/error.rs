//! How an instruction fails.

use vstd::prelude::*;

verus! {

/// The number of the program error `InvalidArgument`.
pub const INVALID_ARGUMENT: u64 = 0x2_0000_0000;

/// The number of the program error `InvalidAccountData`.
pub const INVALID_ACCOUNT_DATA: u64 = 0x4_0000_0000;

/// The number of the program error `UninitializedAccount`.
pub const UNINITIALIZED_ACCOUNT: u64 = 0xa_0000_0000;

/// The number of the token program's error `ExtensionNotFound`.
pub const EXTENSION_NOT_FOUND: u64 = 48;

/// Errors of this program itself.
#[derive(Debug, Clone, Copy, PartialEq, Eq, Structural)]
pub enum MintError {
    /// The mint carries an extension this program has not been written to handle.
    UnsupportedExtension,
}

/// A rule on the accounts of an instruction that an account breaks.
#[derive(Debug, Clone, Copy, PartialEq, Eq, Structural)]
pub enum ErrorCode {
    /// The account must be writable.
    ConstraintMut,
    /// The account must sign.
    ConstraintSigner,
    /// The account must belong to the token program that was given.
    ConstraintOwner,
    /// The account must be one of the programs that may stand there.
    InvalidProgramId,
    /// The account must hold enough to be exempt from rent.
    ConstraintRentExempt,
    /// The program account must be executable.
    InvalidProgramExecutable,
    /// The account that stands for a signer must sign.
    AccountNotSigner,
}

/// The place of an account in an instruction.
#[derive(Debug, Clone, Copy, PartialEq, Eq, Structural)]
pub enum AccountName {
    /// Pays for a new account and becomes its authority.
    Payer,
    /// The mint.
    Mint,
    /// SPL Token or Token-2022.
    TokenProgram,
    /// The system program.
    SystemProgram,
    /// The token account that is debited.
    Source,
    /// The token account that is credited.
    Destination,
    /// The authority over a token account.
    Authority,
    /// The token account that an instruction is about.
    TokenAccount,
    /// The authority that freezes and thaws token accounts of a mint.
    FreezeAuthority,
    /// The owner of a token account.
    Owner,
    /// The authority that approves token accounts for confidential transfers.
    ConfidentialAuthority,
}

/// Why an instruction fails.
#[derive(Debug, Clone, Copy, PartialEq, Eq, Structural)]
pub enum Failure {
    /// An account breaks a rule.
    Account {
        /// The account.
        name: AccountName,
        /// The rule.
        code: ErrorCode,
    },
    /// The account to be created already holds lamports and is the payer's own.
    TryingToInitPayerAsProgramAccount,
    /// An error of this program.
    Mint(MintError),
    /// A program error, by the number that the runtime gives it.
    Program(u64),
    /// The fee on an amount does not fit in 64 bits.
    FeeOverflow,
}

} // verus!
