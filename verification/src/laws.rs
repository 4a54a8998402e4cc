//! What holds of the instructions taken together.

pub mod fees;
pub mod funds;
pub mod mints;
pub mod records;
pub mod refusals;

use vstd::prelude::*;

use crate::accounts::ApplyPendingBalance;
use crate::accounts::ApproveConfidentialAccount;
use crate::accounts::AssertSupportedMint;
use crate::accounts::ConfigureConfidentialAccount;
use crate::accounts::CreateMintDeclarative;
use crate::accounts::CreateMintWithFee;
use crate::accounts::CreateRemittanceMint;
use crate::accounts::DepositConfidential;
use crate::accounts::ReissueRemittanceMint;
use crate::accounts::ThawAfterKyc;
use crate::accounts::TransferWithProtocolFee;
use crate::error::Failure;
use crate::error::MintError;
use crate::extension::ExtensionType;
use crate::extension::EXTENSION_LENS;
use crate::fee::TransferFeeConfig;
use crate::fee::ONE_IN_BASIS_POINTS;
use crate::inspect::SupportedMint;
use crate::key::Pubkey;
use crate::key::SPL_TOKEN_ID;
use crate::key::TOKEN_2022_ID;
use crate::layout::EXTENSION_HEADER_LEN;
use crate::mint::MintKind;
use crate::mint::MintPlan;
use crate::step::AccountState;
use crate::step::Step;
use crate::step::ELGAMAL_PUBKEY_LEN;

verus! {

/// Whether `steps` make one mint in three phases: create its account, with `space` bytes and for
/// the program `owner`; set up exactly `kinds`, in order; initialize the mint, and then nothing.
pub open spec fn in_three_phases(
    steps: Seq<Step>,
    mint: Pubkey,
    kinds: Seq<ExtensionType>,
    space: u64,
    owner: Pubkey,
) -> bool {
    &&& steps.len() == kinds.len() + 2
    &&& steps[0].creates() == Some((space, owner))
    &&& forall|i: int|
        0 <= i < kinds.len() ==> (#[trigger] steps[i + 1]).extension() == Some(kinds[i])
    &&& steps.last() is InitializeMint2
    &&& forall|i: int| 0 <= i < steps.len() ==> (#[trigger] steps[i]).sets_up() == Some(mint)
}

/// A declared mint is made in three phases, with its own extensions and no others.
pub proof fn law_declared_mint_in_three_phases(
    accounts: CreateMintDeclarative,
    decimals: u8,
    space: u64,
    rent_minimum: u64,
)
    ensures
        in_three_phases(
            accounts.steps(decimals, space, rent_minimum),
            accounts.mint.key,
            MintKind::Declarative.kinds(),
            space,
            accounts.token_program.key,
        ),
{
}

/// A mint with a transfer fee is made in three phases, with its own extensions and no others.
pub proof fn law_mint_with_fee_in_three_phases(
    accounts: CreateMintWithFee,
    decimals: u8,
    basis_points: u16,
    maximum_fee: u64,
    space: u64,
    rent_minimum: u64,
)
    ensures
        in_three_phases(
            accounts.steps(decimals, basis_points, maximum_fee, space, rent_minimum),
            accounts.mint.key,
            MintKind::WithFee.kinds(),
            space,
            accounts.token_program.key,
        ),
{
}

/// A remittance mint is made in three phases, with its own extensions and no others.
pub proof fn law_remittance_mint_in_three_phases(
    accounts: CreateRemittanceMint,
    decimals: u8,
    basis_points: u16,
    maximum_fee: u64,
    space: u64,
    rent_minimum: u64,
)
    ensures
        in_three_phases(
            accounts.steps(decimals, basis_points, maximum_fee, space, rent_minimum),
            accounts.mint.key,
            MintKind::Remittance.kinds(),
            space,
            accounts.token_program.key,
        ),
{
}

/// A re-issued mint is made in three phases, with its own extensions and no others.
pub proof fn law_reissued_mint_in_three_phases(
    accounts: ReissueRemittanceMint,
    decimals: u8,
    basis_points: u16,
    maximum_fee: u64,
    elgamal_pubkey: [u8; ELGAMAL_PUBKEY_LEN],
    space: u64,
    rent_minimum: u64,
)
    ensures
        in_three_phases(
            accounts.steps(
                decimals,
                basis_points,
                maximum_fee,
                elgamal_pubkey,
                space,
                rent_minimum,
            ),
            accounts.mint.key,
            MintKind::Reissued.kinds(),
            space,
            accounts.token_program.key,
        ),
{
}

/// In a mint made in three phases no extension comes after the mint was initialized, and none comes
/// twice if its kinds are told apart.
pub proof fn law_no_extension_after_the_mint_is_initialized(
    steps: Seq<Step>,
    mint: Pubkey,
    kinds: Seq<ExtensionType>,
    space: u64,
    owner: Pubkey,
    i: int,
    j: int,
)
    requires
        in_three_phases(steps, mint, kinds, space, owner),
        0 <= i < steps.len(),
        0 <= j < steps.len(),
        steps[i].extension() is Some,
    ensures
        steps[j] is InitializeMint2 ==> i < j,
        steps[j].creates() is Some ==> j < i,
        kinds.no_duplicates() && steps[i].extension() == steps[j].extension() ==> i == j,
{
    assert(steps[steps.len() - 1] is InitializeMint2);
    assert(steps[0].creates() is Some);
    assert(0 < i < steps.len() - 1);
    assert(steps[i - 1 + 1].extension() == Some(kinds[i - 1]));
    if 0 < j < steps.len() - 1 {
        assert(steps[j - 1 + 1].extension() == Some(kinds[j - 1]));
    }
}

/// One more extension takes up its own bytes and its header.
proof fn lemma_one_more_extension(codes: Seq<u16>, code: u16)
    requires
        !codes.contains(code),
    ensures
        crate::layout::extensions_len(codes.push(code))
            == crate::layout::extensions_len(codes) + EXTENSION_HEADER_LEN
            + EXTENSION_LENS@[code as int],
{
    assert(codes.push(code).drop_last() =~= codes);
}

/// What the extensions of a remittance mint take up.
proof fn lemma_remittance_extensions()
    ensures
        crate::layout::extensions_len(
            Seq::<u16>::empty().push(1).push(18).push(6).push(3),
        ) == 4 * EXTENSION_HEADER_LEN + EXTENSION_LENS@[1] + EXTENSION_LENS@[18]
            + EXTENSION_LENS@[6] + EXTENSION_LENS@[3],
{
    let none = Seq::<u16>::empty();
    lemma_one_more_extension(none, 1);
    lemma_one_more_extension(none.push(1), 18);
    lemma_one_more_extension(none.push(1).push(18), 6);
    lemma_one_more_extension(none.push(1).push(18).push(6), 3);
}

/// The bytes of the four kinds of mint.
pub proof fn law_bytes_of_a_mint(kind: MintKind)
    ensures
        kind.len() == match kind {
            MintKind::Declarative => 270nat,
            MintKind::WithFee => 314nat,
            MintKind::Remittance => 387nat,
            MintKind::Reissued => 625nat,
        },
{
    let codes = crate::extension::numbers(kind.kinds());
    let none = Seq::<u16>::empty();
    match kind {
        MintKind::Declarative => {
            lemma_one_more_extension(none, 18);
            lemma_one_more_extension(none.push(18), 3);
            assert(codes =~= none.push(18).push(3));
        },
        MintKind::WithFee => {
            lemma_one_more_extension(none, 3);
            lemma_one_more_extension(none.push(3), 1);
            assert(codes =~= none.push(3).push(1));
        },
        MintKind::Remittance => {
            lemma_remittance_extensions();
            assert(codes =~= none.push(1).push(18).push(6).push(3));
        },
        MintKind::Reissued => {
            let four = none.push(1).push(18).push(6).push(3);
            lemma_remittance_extensions();
            lemma_one_more_extension(four, 12);
            lemma_one_more_extension(four.push(12), 4);
            lemma_one_more_extension(four.push(12).push(4), 16);
            assert(codes =~= four.push(12).push(4).push(16));
        },
    }
    assert(EXTENSION_LENS@[1] == 108);
    assert(EXTENSION_LENS@[3] == 32);
    assert(EXTENSION_LENS@[4] == 65);
    assert(EXTENSION_LENS@[6] == 1);
    assert(EXTENSION_LENS@[12] == 32);
    assert(EXTENSION_LENS@[16] == 129);
    assert(EXTENSION_LENS@[18] == 64);
}

/// No kind of mint carries an extension twice, and its length can always be had.
pub proof fn law_extensions_of_a_mint_are_told_apart(kind: MintKind)
    ensures
        kind.kinds().no_duplicates(),
        !kind.kinds().contains(ExtensionType::TokenMetadata),
{
}

/// Whether these extensions may stand on one mint: fees of confidential transfers have a key
/// exactly where there are both fees and confidential transfers.
pub open spec fn combinable(kinds: Seq<ExtensionType>) -> bool {
    kinds.contains(ExtensionType::ConfidentialTransferFeeConfig) <==> (kinds.contains(
        ExtensionType::TransferFeeConfig,
    ) && kinds.contains(ExtensionType::ConfidentialTransferMint))
}

/// Every mint that is created has extensions that may stand together.
pub proof fn law_extensions_of_a_mint_are_combinable(kind: MintKind)
    ensures
        combinable(kind.kinds()),
{
    let kinds = kind.kinds();
    match kind {
        MintKind::Reissued => {
            assert(kinds[0] == ExtensionType::TransferFeeConfig);
            assert(kinds[5] == ExtensionType::ConfidentialTransferMint);
            assert(kinds[6] == ExtensionType::ConfidentialTransferFeeConfig);
        },
        _ => {},
    }
}

/// A mint made by `create_mint_declarative` or `create_mint_with_fee` is accepted: its extensions
/// never refuse it.
pub proof fn law_plain_mints_are_accepted(
    kind: MintKind,
    decimals: u8,
    config: Result<TransferFeeConfig, u64>,
    epoch: u64,
)
    requires
        kind == MintKind::Declarative || kind == MintKind::WithFee,
    ensures
        crate::inspect::acceptance(
            decimals,
            Ok(crate::extension::numbers(kind.kinds())),
            config,
            Ok(epoch),
        ) == Ok::<SupportedMint, Failure>(
            SupportedMint {
                decimals,
                basis_points: match config {
                    Ok(config) => config.live(epoch).transfer_fee_basis_points,
                    Err(_) => 0,
                },
            },
        ),
{
}

/// A remittance mint is refused, re-issued or not: its token accounts start frozen, and that
/// extension is not supported.
pub proof fn law_remittance_mints_are_refused(
    kind: MintKind,
    decimals: u8,
    config: Result<TransferFeeConfig, u64>,
    epoch: Result<u64, u64>,
)
    requires
        kind == MintKind::Remittance || kind == MintKind::Reissued,
    ensures
        crate::inspect::acceptance(
            decimals,
            Ok(crate::extension::numbers(kind.kinds())),
            config,
            epoch,
        ) == Err::<SupportedMint, Failure>(Failure::Mint(MintError::UnsupportedExtension)),
{
    assert(crate::extension::numbers(kind.kinds())[2] == ExtensionType::DefaultAccountState.number());
}

/// Whether this call makes the token accounts of its mint start frozen.
pub open spec fn starts_frozen(step: Step) -> bool {
    match step {
        Step::InitializeDefaultAccountState { state, .. } => state == AccountState::Frozen,
        _ => false,
    }
}

/// Whether this call gives its mint someone who can thaw token accounts.
pub open spec fn can_thaw(step: Step) -> bool {
    match step {
        Step::InitializeMint2 { freeze_authority, .. } => freeze_authority is Some,
        _ => false,
    }
}

/// A mint whose token accounts start frozen has someone who can thaw them.
pub open spec fn frozen_can_be_thawed(steps: Seq<Step>) -> bool {
    (exists|i: int| 0 <= i < steps.len() && starts_frozen(#[trigger] steps[i])) ==> can_thaw(
        steps.last(),
    )
}

/// Token accounts of a remittance mint start frozen, and the payer can thaw them.
pub proof fn law_remittance_accounts_start_frozen_and_can_be_thawed(
    accounts: CreateRemittanceMint,
    decimals: u8,
    basis_points: u16,
    maximum_fee: u64,
    space: u64,
    rent_minimum: u64,
)
    ensures
        ({
            let steps = accounts.steps(decimals, basis_points, maximum_fee, space, rent_minimum);
            &&& frozen_can_be_thawed(steps)
            &&& steps.contains(
                Step::InitializeDefaultAccountState {
                    mint: accounts.mint.key,
                    state: AccountState::Frozen,
                },
            )
            &&& steps.contains(
                Step::InitializeMetadataPointer {
                    mint: accounts.mint.key,
                    authority: Some(accounts.payer.key),
                    metadata_address: Some(accounts.mint.key),
                },
            )
        }),
{
    let steps = accounts.steps(decimals, basis_points, maximum_fee, space, rent_minimum);
    assert(steps[2] is InitializeMetadataPointer);
    assert(steps[3] is InitializeDefaultAccountState);
}

/// A re-issued mint does everything that the mint it replaces does, call for call, at its own
/// address and in the name of its own payer, and adds exactly three extensions: seizure,
/// confidential transfers that need approval, and the key for their fees. The account is created
/// alike, with another length and the rent for it.
pub proof fn law_reissue_carries_the_remittance_mint_forward(
    remittance: CreateRemittanceMint,
    reissue: ReissueRemittanceMint,
    decimals: u8,
    basis_points: u16,
    maximum_fee: u64,
    elgamal_pubkey: [u8; ELGAMAL_PUBKEY_LEN],
    space: u64,
    longer: u64,
    rent_minimum: u64,
    longer_rent_minimum: u64,
)
    ensures
        ({
            let replaced = CreateRemittanceMint {
                payer: reissue.payer,
                mint: reissue.mint,
                ..remittance
            };
            let old_steps = replaced.steps(
                decimals,
                basis_points,
                maximum_fee,
                space,
                rent_minimum,
            );
            let new_steps = reissue.steps(
                decimals,
                basis_points,
                maximum_fee,
                elgamal_pubkey,
                longer,
                longer_rent_minimum,
            );
            &&& new_steps.len() == old_steps.len() + 3
            &&& old_steps[0] == Step::CreateAccount {
                from: reissue.payer.key,
                to: reissue.mint.key,
                lamports: rent_minimum,
                space,
                owner: remittance.token_program.key,
            }
            &&& new_steps[0] == Step::CreateAccount {
                from: reissue.payer.key,
                to: reissue.mint.key,
                lamports: longer_rent_minimum,
                space: longer,
                owner: reissue.token_program.key,
            }
            &&& new_steps.subrange(1, 5) == old_steps.subrange(1, 5)
            &&& new_steps.last() == old_steps.last()
            &&& new_steps.subrange(5, 8) == seq![
                Step::InitializePermanentDelegate {
                    mint: reissue.mint.key,
                    delegate: reissue.payer.key,
                },
                Step::InitializeConfidentialTransferMint {
                    mint: reissue.mint.key,
                    authority: Some(reissue.payer.key),
                    auto_approve_new_accounts: false,
                    auditor_elgamal_pubkey: None,
                },
                Step::InitializeConfidentialTransferFeeConfig {
                    mint: reissue.mint.key,
                    authority: Some(reissue.payer.key),
                    withdraw_withheld_authority_elgamal_pubkey: elgamal_pubkey,
                },
            ]
            &&& frozen_can_be_thawed(new_steps)
            &&& MintKind::Reissued.kinds().take(4) == MintKind::Remittance.kinds()
        }),
{
}

/// The calls that are made when a plan is followed from its call `done` on, where the call at each
/// place would give the answer at that place, and what comes of it.
pub open spec fn followed<E>(
    plan: MintPlan,
    answers: Seq<Result<(), E>>,
    done: nat,
    last: Result<(), E>,
) -> (Seq<Step>, Result<(), E>)
    decreases plan.steps@.len() - done,
{
    match plan.next(done, last) {
        Err(error) => (Seq::empty(), Err(error)),
        Ok(None) => (Seq::empty(), Ok(())),
        Ok(Some(step)) => {
            let (calls, outcome) = followed(plan, answers, done + 1, answers[done as int]);
            (seq![step] + calls, outcome)
        },
    }
}

/// A plan whose calls all succeed makes every one of them once, in order, and succeeds.
pub proof fn law_plan_is_followed_to_its_end<E>(
    plan: MintPlan,
    answers: Seq<Result<(), E>>,
    done: nat,
)
    requires
        done <= plan.steps@.len() == answers.len(),
        forall|i: int| done <= i < answers.len() ==> (#[trigger] answers[i]) is Ok,
    ensures
        followed(plan, answers, done, Ok(())).0 == plan.steps@.skip(done as int),
        followed(plan, answers, done, Ok(())).1 is Ok,
    decreases plan.steps@.len() - done,
{
    if done < plan.steps@.len() {
        assert(answers[done as int]->Ok_0 == ());
        law_plan_is_followed_to_its_end(plan, answers, done + 1);
        assert(plan.steps@.skip(done as int) =~= seq![plan.steps@[done as int]]
            + plan.steps@.skip((done + 1) as int));
    } else {
        assert(plan.steps@.skip(done as int) =~= Seq::empty());
    }
}

/// A plan ends with its first call that fails: the calls up to that one are made, in order, none
/// after it, and its error is handed on.
pub proof fn law_first_failing_call_ends_the_plan<E>(
    plan: MintPlan,
    answers: Seq<Result<(), E>>,
    done: nat,
    failing: nat,
)
    requires
        done <= failing < plan.steps@.len() == answers.len(),
        forall|i: int| done <= i < failing ==> (#[trigger] answers[i]) is Ok,
        answers[failing as int] is Err,
    ensures
        followed(plan, answers, done, Ok(())).0 == plan.steps@.subrange(
            done as int,
            (failing + 1) as int,
        ),
        followed(plan, answers, done, Ok(())).1 == answers[failing as int],
    decreases failing - done,
{
    reveal_with_fuel(followed, 2);
    if done < failing {
        assert(answers[done as int]->Ok_0 == ());
        law_first_failing_call_ends_the_plan(plan, answers, done + 1, failing);
        assert(plan.steps@.subrange(done as int, (failing + 1) as int) =~= seq![
            plan.steps@[done as int],
        ] + plan.steps@.subrange((done + 1) as int, (failing + 1) as int));
    } else {
        assert(plan.steps@.subrange(done as int, (failing + 1) as int) =~= seq![
            plan.steps@[done as int],
        ]);
    }
}

/// A declared mint that holds lamports already ends with what it needs for rent; the payer adds
/// nothing where it holds enough. A declared mint is then never refused for want of rent: it stands
/// if it signed, and if it and the payer can be written.
pub proof fn law_prefunded_mint_is_only_topped_up(
    accounts: CreateMintDeclarative,
    space: u64,
    rent_minimum: u64,
)
    ensures
        match accounts.creation(space, rent_minimum) {
            Step::CreateAccount { lamports, .. } => accounts.mint.lamports == 0 && lamports
                == rent_minimum,
            Step::CreateAccountAllowPrefund { lamports, .. } => {
                &&& accounts.mint.lamports > 0
                &&& accounts.mint.lamports + lamports >= rent_minimum
                &&& accounts.mint.lamports >= rent_minimum ==> lamports == 0
                &&& accounts.mint.lamports < rent_minimum ==> accounts.mint.lamports + lamports
                    == rent_minimum
            },
            _ => false,
        },
        accounts.late_violation(
            (accounts.mint.lamports + match accounts.creation(space, rent_minimum) {
                Step::CreateAccount { lamports, .. } => lamports,
                Step::CreateAccountAllowPrefund { lamports, .. } => lamports,
                _ => 0,
            }) as u64,
            rent_minimum,
        ) is None <==> accounts.mint.is_writable && accounts.mint.is_signer
            && accounts.payer.is_writable,
{
}

/// A mint is inspected only if it belongs to SPL Token or Token-2022.
pub proof fn law_inspected_mint_belongs_to_a_token_program(accounts: AssertSupportedMint)
    requires
        accounts.violation() is None,
    ensures
        accounts.mint.owner == Pubkey(SPL_TOKEN_ID) || accounts.mint.owner == Pubkey(TOKEN_2022_ID),
        accounts.mint.owner == accounts.token_program.key,
        accounts.token_program.executable,
{
}

/// A mint is created only in the name of a payer who signed, at an address that signed. For the
/// declared mint the address is held to it once the calls are made; for the others, before the
/// first.
pub proof fn law_mint_is_created_by_its_signers(
    declared: CreateMintDeclarative,
    lamports: u64,
    rent_minimum: u64,
    with_fee: CreateMintWithFee,
    remittance: CreateRemittanceMint,
    reissue: ReissueRemittanceMint,
)
    ensures
        declared.violation() is None ==> declared.payer.is_signer,
        declared.late_violation(lamports, rent_minimum) is None ==> declared.mint.is_signer,
        with_fee.violation() is None ==> with_fee.payer.is_signer && with_fee.mint.is_signer,
        remittance.violation() is None ==> remittance.payer.is_signer && remittance.mint.is_signer,
        reissue.violation() is None ==> reissue.payer.is_signer && reissue.mint.is_signer,
{
}

/// A token account is touched only in the name of the authority that signed: its owner for
/// configuring, the issuer for approving and thawing, its authority for moving funds.
pub proof fn law_token_account_is_touched_by_its_authority(
    transfer: TransferWithProtocolFee,
    thaw: ThawAfterKyc,
    configure: ConfigureConfidentialAccount,
    approve: ApproveConfidentialAccount,
    deposit: DepositConfidential,
    apply: ApplyPendingBalance,
)
    ensures
        transfer.violation() is None ==> transfer.authority.is_signer,
        thaw.violation() is None ==> thaw.freeze_authority.is_signer,
        configure.violation() is None ==> configure.owner.is_signer,
        approve.violation() is None ==> approve.confidential_authority.is_signer,
        deposit.violation() is None ==> deposit.authority.is_signer,
        apply.violation() is None ==> apply.authority.is_signer,
{
}

/// Thawing a token account, like every other call on one, is none of the calls that create a mint,
/// give it an extension (the state in which new accounts start among them) or initialize it.
pub proof fn law_calls_on_token_accounts_set_up_no_mint(step: Step)
    requires
        step is TransferCheckedWithFee || step is ThawAccount || step is ConfigureConfidentialAccount
            || step is ApproveConfidentialAccount || step is DepositConfidential
            || step is ApplyPendingBalance,
    ensures
        step.extension() is None,
        step.sets_up() is None,
        step.creates() is None,
{
}

/// What is withheld from a quoted transfer and what arrives add up to what was sent, as long as the
/// live rate is at most one.
pub proof fn law_quoted_transfer_adds_up(config: TransferFeeConfig, epoch: u64, amount: u64)
    requires
        config.live(epoch).transfer_fee_basis_points <= ONE_IN_BASIS_POINTS,
    ensures
        ({
            let fee = crate::remittance::quote(Ok(config), Ok(epoch), amount);
            &&& fee is Ok
            &&& fee->Ok_0 <= amount
            &&& fee->Ok_0 <= config.live(epoch).maximum_fee
        }),
{
    crate::fee::law_fee_is_at_most_the_amount(config.live(epoch), amount);
}

} // verus!
