//! Token-2022 mints for a remittance stablecoin: a protocol fee on every transfer, token accounts
//! that stay frozen until their holder has been identified, metadata on the mint itself, a mint that
//! can be closed, and a re-issued mint that adds seizure and confidential transfers.
//!
//! Each instruction is a function from its accounts and arguments to the calls that it makes into
//! other programs, in order, or to the reason why it makes none. What is read from the chain (the
//! bytes of a mint, the epoch, the rent) comes in as an argument; whoever calls the library makes
//! the calls, and asks it after each what follows.

pub mod accounts;
pub mod confidential;
pub mod error;
pub mod extension;
pub mod fee;
pub mod inspect;
pub mod key;
pub mod laws;
pub mod layout;
pub mod mint;
pub mod remittance;
pub mod step;
pub mod token_interface;

pub use crate::accounts::AccountView;
pub use crate::accounts::ApplyPendingBalance;
pub use crate::accounts::ApproveConfidentialAccount;
pub use crate::accounts::AssertSupportedMint;
pub use crate::accounts::ConfigureConfidentialAccount;
pub use crate::accounts::CreateMintDeclarative;
pub use crate::accounts::CreateMintWithFee;
pub use crate::accounts::CreateRemittanceMint;
pub use crate::accounts::DepositConfidential;
pub use crate::accounts::QuoteRemittanceFee;
pub use crate::accounts::ReissueRemittanceMint;
pub use crate::accounts::ThawAfterKyc;
pub use crate::accounts::TransferWithProtocolFee;
pub use crate::confidential::apply_pending_balance;
pub use crate::confidential::approve_confidential_account;
pub use crate::confidential::configure_confidential_account;
pub use crate::confidential::deposit_confidential;
pub use crate::error::Failure;
pub use crate::error::MintError;
pub use crate::inspect::assert_supported_mint;
pub use crate::inspect::SupportedMint;
pub use crate::key::Pubkey;
pub use crate::mint::confirm_mint_declarative;
pub use crate::mint::create_mint_declarative;
pub use crate::mint::create_mint_with_fee;
pub use crate::mint::create_remittance_mint;
pub use crate::mint::next_step;
pub use crate::mint::reissue_remittance_mint;
pub use crate::mint::MintPlan;
pub use crate::remittance::quote_remittance_fee;
pub use crate::remittance::thaw_after_kyc;
pub use crate::remittance::transfer_with_protocol_fee;
pub use crate::step::Step;
pub use crate::step::AE_CIPHERTEXT_LEN;
