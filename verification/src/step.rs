//! The calls that an instruction makes into the system program and the token program.

use vstd::prelude::*;

use crate::extension::ExtensionType;
use crate::key::Pubkey;

verus! {

/// Bytes of a balance encrypted under a holder's own symmetric key.
pub const AE_CIPHERTEXT_LEN: usize = 36;

/// Bytes of a public key for encrypted amounts.
pub const ELGAMAL_PUBKEY_LEN: usize = 32;

/// The state of a token account.
#[derive(Debug, Clone, Copy, PartialEq, Eq, Structural)]
pub enum AccountState {
    /// Not in use yet.
    Uninitialized,
    /// The owner may move funds.
    Initialized,
    /// Nobody may move funds.
    Frozen,
}

/// One call into another program.
///
/// The two calls that create an account go to the system program, the others to the token program
/// of the instruction.
#[allow(inconsistent_fields)]
#[derive(Debug, Clone, Copy, PartialEq, Eq)]
pub enum Step {
    /// Creates an account that holds no lamports yet.
    CreateAccount {
        /// Pays.
        from: Pubkey,
        /// The new account.
        to: Pubkey,
        /// What is paid.
        lamports: u64,
        /// Bytes of the new account.
        space: u64,
        /// The program that the new account belongs to.
        owner: Pubkey,
    },
    /// Creates an account that may hold lamports already.
    CreateAccountAllowPrefund {
        /// Pays what is missing.
        from: Pubkey,
        /// The new account.
        to: Pubkey,
        /// What is missing.
        lamports: u64,
        /// Bytes of the new account.
        space: u64,
        /// The program that the new account belongs to.
        owner: Pubkey,
    },
    /// Gives a mint a close authority.
    InitializeMintCloseAuthority {
        /// The mint.
        mint: Pubkey,
        /// The authority.
        close_authority: Option<Pubkey>,
    },
    /// Says where the metadata of a mint stands.
    InitializeMetadataPointer {
        /// The mint.
        mint: Pubkey,
        /// May change the pointer.
        authority: Option<Pubkey>,
        /// Where the metadata stands.
        metadata_address: Option<Pubkey>,
    },
    /// Gives a mint its transfer fee.
    InitializeTransferFeeConfig {
        /// The mint.
        mint: Pubkey,
        /// May change the rate.
        transfer_fee_config_authority: Option<Pubkey>,
        /// May collect what was withheld.
        withdraw_withheld_authority: Option<Pubkey>,
        /// The rate.
        transfer_fee_basis_points: u16,
        /// The cap.
        maximum_fee: u64,
    },
    /// Sets the state in which token accounts of a mint start.
    InitializeDefaultAccountState {
        /// The mint.
        mint: Pubkey,
        /// The state.
        state: AccountState,
    },
    /// Gives a mint a delegate over all its token accounts.
    InitializePermanentDelegate {
        /// The mint.
        mint: Pubkey,
        /// The delegate.
        delegate: Pubkey,
    },
    /// Lets a mint have confidential transfers.
    InitializeConfidentialTransferMint {
        /// The mint.
        mint: Pubkey,
        /// Approves token accounts.
        authority: Option<Pubkey>,
        /// Whether token accounts are approved as soon as they are configured.
        auto_approve_new_accounts: bool,
        /// Key under which an auditor reads amounts.
        auditor_elgamal_pubkey: Option<[u8; ELGAMAL_PUBKEY_LEN]>,
    },
    /// Says under which key the fees of confidential transfers are withheld.
    InitializeConfidentialTransferFeeConfig {
        /// The mint.
        mint: Pubkey,
        /// May change the key.
        authority: Option<Pubkey>,
        /// The key.
        withdraw_withheld_authority_elgamal_pubkey: [u8; ELGAMAL_PUBKEY_LEN],
    },
    /// Initializes the mint itself. No extension can be added after this.
    InitializeMint2 {
        /// The mint.
        mint: Pubkey,
        /// Decimals of an amount.
        decimals: u8,
        /// May mint.
        mint_authority: Pubkey,
        /// May freeze and thaw token accounts.
        freeze_authority: Option<Pubkey>,
    },
    /// Transfers, naming the fee that is expected.
    TransferCheckedWithFee {
        /// Debited.
        source: Pubkey,
        /// The mint.
        mint: Pubkey,
        /// Credited, less the fee.
        destination: Pubkey,
        /// The authority over the source.
        authority: Pubkey,
        /// The amount.
        amount: u64,
        /// The decimals that the mint is expected to have.
        decimals: u8,
        /// The fee that is expected.
        fee: u64,
    },
    /// Thaws one token account.
    ThawAccount {
        /// The token account.
        account: Pubkey,
        /// The mint.
        mint: Pubkey,
        /// The freeze authority.
        authority: Pubkey,
    },
    /// Registers encryption keys on a token account.
    ConfigureConfidentialAccount {
        /// The token account.
        account: Pubkey,
        /// The mint.
        mint: Pubkey,
        /// Holds the verified proof of the key.
        proof_context: Pubkey,
        /// The owner.
        owner: Pubkey,
        /// A balance of zero under the owner's symmetric key.
        decryptable_zero_balance: [u8; AE_CIPHERTEXT_LEN],
        /// Credits that may be pending at once.
        maximum_pending_balance_credit_counter: u64,
    },
    /// Approves a token account for confidential transfers.
    ApproveConfidentialAccount {
        /// The token account.
        account: Pubkey,
        /// The mint.
        mint: Pubkey,
        /// The authority over confidential transfers.
        authority: Pubkey,
    },
    /// Moves a public amount into the pending confidential balance.
    DepositConfidential {
        /// The token account.
        account: Pubkey,
        /// The mint.
        mint: Pubkey,
        /// The owner.
        authority: Pubkey,
        /// The amount.
        amount: u64,
        /// The decimals that the mint is expected to have.
        decimals: u8,
    },
    /// Moves the pending confidential balance into the available one.
    ApplyPendingBalance {
        /// The token account.
        account: Pubkey,
        /// The owner.
        authority: Pubkey,
        /// Credits that the owner expects to be pending.
        expected_pending_balance_credit_counter: u64,
        /// The new available balance under the owner's symmetric key.
        new_decryptable_available_balance: [u8; AE_CIPHERTEXT_LEN],
    },
}

impl Step {
    /// The extension that this call sets up on a mint.
    pub open spec fn extension(self) -> Option<ExtensionType> {
        match self {
            Step::InitializeMintCloseAuthority { .. } => Some(ExtensionType::MintCloseAuthority),
            Step::InitializeMetadataPointer { .. } => Some(ExtensionType::MetadataPointer),
            Step::InitializeTransferFeeConfig { .. } => Some(ExtensionType::TransferFeeConfig),
            Step::InitializeDefaultAccountState { .. } => Some(ExtensionType::DefaultAccountState),
            Step::InitializePermanentDelegate { .. } => Some(ExtensionType::PermanentDelegate),
            Step::InitializeConfidentialTransferMint { .. } => Some(
                ExtensionType::ConfidentialTransferMint,
            ),
            Step::InitializeConfidentialTransferFeeConfig { .. } => Some(
                ExtensionType::ConfidentialTransferFeeConfig,
            ),
            _ => None,
        }
    }

    /// The mint that this call sets up: creates, gives an extension or initializes.
    pub open spec fn sets_up(self) -> Option<Pubkey> {
        match self {
            Step::CreateAccount { to, .. } => Some(to),
            Step::CreateAccountAllowPrefund { to, .. } => Some(to),
            Step::InitializeMintCloseAuthority { mint, .. } => Some(mint),
            Step::InitializeMetadataPointer { mint, .. } => Some(mint),
            Step::InitializeTransferFeeConfig { mint, .. } => Some(mint),
            Step::InitializeDefaultAccountState { mint, .. } => Some(mint),
            Step::InitializePermanentDelegate { mint, .. } => Some(mint),
            Step::InitializeConfidentialTransferMint { mint, .. } => Some(mint),
            Step::InitializeConfidentialTransferFeeConfig { mint, .. } => Some(mint),
            Step::InitializeMint2 { mint, .. } => Some(mint),
            _ => None,
        }
    }

    /// The bytes and the owner of the account that this call creates.
    pub open spec fn creates(self) -> Option<(u64, Pubkey)> {
        match self {
            Step::CreateAccount { space, owner, .. } => Some((space, owner)),
            Step::CreateAccountAllowPrefund { space, owner, .. } => Some((space, owner)),
            _ => None,
        }
    }
}

} // verus!
