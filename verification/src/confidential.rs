//! The confidential life of a token account of a re-issued mint: configured by its owner, approved
//! by the issuer, credited from its public balance, and made available.

use vstd::prelude::*;

use crate::accounts::ApplyPendingBalance;
use crate::accounts::ApproveConfidentialAccount;
use crate::accounts::ConfigureConfidentialAccount;
use crate::accounts::DepositConfidential;
use crate::error::Failure;
use crate::step::Step;
use crate::step::AE_CIPHERTEXT_LEN;

verus! {

/// Plans the registration of encryption keys on a token account. Only the owner can do this, though
/// anyone may have created the account.
pub fn configure_confidential_account(
    accounts: &ConfigureConfidentialAccount,
    decryptable_zero_balance: [u8; AE_CIPHERTEXT_LEN],
    maximum_pending_balance_credit_counter: u64,
) -> (step: Result<Step, Failure>)
    ensures
        step == match accounts.violation() {
            Some(failure) => Err(failure),
            None => Ok(
                Step::ConfigureConfidentialAccount {
                    account: accounts.token_account.key,
                    mint: accounts.mint.key,
                    proof_context: accounts.proof_context.key,
                    owner: accounts.owner.key,
                    decryptable_zero_balance,
                    maximum_pending_balance_credit_counter,
                },
            ),
        },
{
    if let Some(failure) = accounts.check() {
        return Err(failure);
    }
    Ok(
        Step::ConfigureConfidentialAccount {
            account: accounts.token_account.key,
            mint: accounts.mint.key,
            proof_context: accounts.proof_context.key,
            owner: accounts.owner.key,
            decryptable_zero_balance,
            maximum_pending_balance_credit_counter,
        },
    )
}

/// Plans the approval of a configured token account by the authority over confidential transfers.
pub fn approve_confidential_account(accounts: &ApproveConfidentialAccount) -> (step: Result<
    Step,
    Failure,
>)
    ensures
        step == match accounts.violation() {
            Some(failure) => Err(failure),
            None => Ok(
                Step::ApproveConfidentialAccount {
                    account: accounts.token_account.key,
                    mint: accounts.mint.key,
                    authority: accounts.confidential_authority.key,
                },
            ),
        },
{
    if let Some(failure) = accounts.check() {
        return Err(failure);
    }
    Ok(
        Step::ApproveConfidentialAccount {
            account: accounts.token_account.key,
            mint: accounts.mint.key,
            authority: accounts.confidential_authority.key,
        },
    )
}

/// Plans the move of a public `amount` into the pending confidential balance.
pub fn deposit_confidential(accounts: &DepositConfidential, amount: u64, decimals: u8) -> (step:
    Result<Step, Failure>)
    ensures
        step == match accounts.violation() {
            Some(failure) => Err(failure),
            None => Ok(
                Step::DepositConfidential {
                    account: accounts.token_account.key,
                    mint: accounts.mint.key,
                    authority: accounts.authority.key,
                    amount,
                    decimals,
                },
            ),
        },
{
    if let Some(failure) = accounts.check() {
        return Err(failure);
    }
    Ok(
        Step::DepositConfidential {
            account: accounts.token_account.key,
            mint: accounts.mint.key,
            authority: accounts.authority.key,
            amount,
            decimals,
        },
    )
}

/// Plans the move of the pending confidential balance into the available one.
///
/// The two values that come from the owner are passed on as they are: the token program can check
/// neither the ciphertext nor, beyond recording it, the counter.
pub fn apply_pending_balance(
    accounts: &ApplyPendingBalance,
    expected_pending_balance_credit_counter: u64,
    new_decryptable_available_balance: [u8; AE_CIPHERTEXT_LEN],
) -> (step: Result<Step, Failure>)
    ensures
        step == match accounts.violation() {
            Some(failure) => Err(failure),
            None => Ok(
                Step::ApplyPendingBalance {
                    account: accounts.token_account.key,
                    authority: accounts.authority.key,
                    expected_pending_balance_credit_counter,
                    new_decryptable_available_balance,
                },
            ),
        },
{
    if let Some(failure) = accounts.check() {
        return Err(failure);
    }
    Ok(
        Step::ApplyPendingBalance {
            account: accounts.token_account.key,
            authority: accounts.authority.key,
            expected_pending_balance_credit_counter,
            new_decryptable_available_balance,
        },
    )
}

} // verus!
