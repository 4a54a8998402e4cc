//! The kinds of extension that a Token-2022 mint or token account can carry.

use vstd::prelude::*;

verus! {

/// A kind of extension, in the order of the numbers under which the kinds are stored on chain.
#[derive(Debug, Clone, Copy, PartialEq, Eq, Structural)]
pub enum ExtensionType {
    /// Padding, used where an account would otherwise have the length of a multisig.
    Uninitialized,
    /// Fee rates of a mint and the authorities over them.
    TransferFeeConfig,
    /// Fees withheld on a token account.
    TransferFeeAmount,
    /// The authority that may close a mint.
    MintCloseAuthority,
    /// Confidential transfer settings of a mint.
    ConfidentialTransferMint,
    /// Confidential balances of a token account.
    ConfidentialTransferAccount,
    /// The state in which token accounts of a mint start.
    DefaultAccountState,
    /// The owner of a token account cannot change.
    ImmutableOwner,
    /// Inbound transfers need a memo.
    MemoTransfer,
    /// Tokens of a mint cannot be transferred.
    NonTransferable,
    /// Tokens of a mint accrue interest.
    InterestBearingConfig,
    /// Privileged operations are locked inside cross-program calls.
    CpiGuard,
    /// A delegate over every token account of a mint.
    PermanentDelegate,
    /// A token account of a non-transferable mint.
    NonTransferableAccount,
    /// Transfers of a mint call a hook program.
    TransferHook,
    /// A token account of a mint with a transfer hook.
    TransferHookAccount,
    /// Key under which confidential fees of a mint are withheld.
    ConfidentialTransferFeeConfig,
    /// Confidential fees withheld on a token account.
    ConfidentialTransferFeeAmount,
    /// Where the metadata of a mint stands.
    MetadataPointer,
    /// Metadata held in the mint itself, of any length.
    TokenMetadata,
    /// Where the group of a mint stands.
    GroupPointer,
    /// Group held in the mint itself.
    TokenGroup,
    /// Where the group membership of a mint stands.
    GroupMemberPointer,
    /// Group membership held in the mint itself.
    TokenGroupMember,
    /// Confidential minting and burning.
    ConfidentialMintBurn,
    /// Displayed amounts are scaled.
    ScaledUiAmount,
    /// Minting, burning and transferring can be paused.
    Pausable,
    /// A token account of a pausable mint.
    PausableAccount,
}

/// The extensions that an accepted mint may carry.
pub const SUPPORTED_EXTENSIONS: [ExtensionType; 3] = [
    ExtensionType::MintCloseAuthority,
    ExtensionType::MetadataPointer,
    ExtensionType::TransferFeeConfig,
];

/// The largest number that stands for a kind of extension.
pub const MAX_EXTENSION_CODE: u16 = 27;

/// Bytes of each kind of extension, by its number, without the four that name its kind and length.
///
/// The metadata of a mint has no fixed length: its entry, at `TokenMetadata`, stands for none.
pub const EXTENSION_LENS: [usize; 28] = [
    0, 108, 8, 32, 65, 295, 1, 0, 1, 0, 52, 1, 32, 0, 64, 1, 129, 64, 64, 0, 64, 80, 64, 72, 196, 56,
    33, 0,
];

impl ExtensionType {
    /// The number that stands for this kind on chain.
    pub open spec fn number(self) -> u16 {
        match self {
            ExtensionType::Uninitialized => 0,
            ExtensionType::TransferFeeConfig => 1,
            ExtensionType::TransferFeeAmount => 2,
            ExtensionType::MintCloseAuthority => 3,
            ExtensionType::ConfidentialTransferMint => 4,
            ExtensionType::ConfidentialTransferAccount => 5,
            ExtensionType::DefaultAccountState => 6,
            ExtensionType::ImmutableOwner => 7,
            ExtensionType::MemoTransfer => 8,
            ExtensionType::NonTransferable => 9,
            ExtensionType::InterestBearingConfig => 10,
            ExtensionType::CpiGuard => 11,
            ExtensionType::PermanentDelegate => 12,
            ExtensionType::NonTransferableAccount => 13,
            ExtensionType::TransferHook => 14,
            ExtensionType::TransferHookAccount => 15,
            ExtensionType::ConfidentialTransferFeeConfig => 16,
            ExtensionType::ConfidentialTransferFeeAmount => 17,
            ExtensionType::MetadataPointer => 18,
            ExtensionType::TokenMetadata => 19,
            ExtensionType::GroupPointer => 20,
            ExtensionType::TokenGroup => 21,
            ExtensionType::GroupMemberPointer => 22,
            ExtensionType::TokenGroupMember => 23,
            ExtensionType::ConfidentialMintBurn => 24,
            ExtensionType::ScaledUiAmount => 25,
            ExtensionType::Pausable => 26,
            ExtensionType::PausableAccount => 27,
        }
    }

    /// The number that stands for this kind on chain.
    pub fn code(self) -> (code: u16)
        ensures
            code == self.number(),
            code <= MAX_EXTENSION_CODE,
    {
        match self {
            ExtensionType::Uninitialized => 0,
            ExtensionType::TransferFeeConfig => 1,
            ExtensionType::TransferFeeAmount => 2,
            ExtensionType::MintCloseAuthority => 3,
            ExtensionType::ConfidentialTransferMint => 4,
            ExtensionType::ConfidentialTransferAccount => 5,
            ExtensionType::DefaultAccountState => 6,
            ExtensionType::ImmutableOwner => 7,
            ExtensionType::MemoTransfer => 8,
            ExtensionType::NonTransferable => 9,
            ExtensionType::InterestBearingConfig => 10,
            ExtensionType::CpiGuard => 11,
            ExtensionType::PermanentDelegate => 12,
            ExtensionType::NonTransferableAccount => 13,
            ExtensionType::TransferHook => 14,
            ExtensionType::TransferHookAccount => 15,
            ExtensionType::ConfidentialTransferFeeConfig => 16,
            ExtensionType::ConfidentialTransferFeeAmount => 17,
            ExtensionType::MetadataPointer => 18,
            ExtensionType::TokenMetadata => 19,
            ExtensionType::GroupPointer => 20,
            ExtensionType::TokenGroup => 21,
            ExtensionType::GroupMemberPointer => 22,
            ExtensionType::TokenGroupMember => 23,
            ExtensionType::ConfidentialMintBurn => 24,
            ExtensionType::ScaledUiAmount => 25,
            ExtensionType::Pausable => 26,
            ExtensionType::PausableAccount => 27,
        }
    }

    /// The kind that a number stands for.
    pub fn from_code(code: u16) -> (kind: Option<ExtensionType>)
        ensures
            kind is Some <==> code <= MAX_EXTENSION_CODE,
            kind matches Some(k) ==> k.number() == code,
    {
        match code {
            0 => Some(ExtensionType::Uninitialized),
            1 => Some(ExtensionType::TransferFeeConfig),
            2 => Some(ExtensionType::TransferFeeAmount),
            3 => Some(ExtensionType::MintCloseAuthority),
            4 => Some(ExtensionType::ConfidentialTransferMint),
            5 => Some(ExtensionType::ConfidentialTransferAccount),
            6 => Some(ExtensionType::DefaultAccountState),
            7 => Some(ExtensionType::ImmutableOwner),
            8 => Some(ExtensionType::MemoTransfer),
            9 => Some(ExtensionType::NonTransferable),
            10 => Some(ExtensionType::InterestBearingConfig),
            11 => Some(ExtensionType::CpiGuard),
            12 => Some(ExtensionType::PermanentDelegate),
            13 => Some(ExtensionType::NonTransferableAccount),
            14 => Some(ExtensionType::TransferHook),
            15 => Some(ExtensionType::TransferHookAccount),
            16 => Some(ExtensionType::ConfidentialTransferFeeConfig),
            17 => Some(ExtensionType::ConfidentialTransferFeeAmount),
            18 => Some(ExtensionType::MetadataPointer),
            19 => Some(ExtensionType::TokenMetadata),
            20 => Some(ExtensionType::GroupPointer),
            21 => Some(ExtensionType::TokenGroup),
            22 => Some(ExtensionType::GroupMemberPointer),
            23 => Some(ExtensionType::TokenGroupMember),
            24 => Some(ExtensionType::ConfidentialMintBurn),
            25 => Some(ExtensionType::ScaledUiAmount),
            26 => Some(ExtensionType::Pausable),
            27 => Some(ExtensionType::PausableAccount),
            _ => None,
        }
    }

    /// Whether an accepted mint may carry this kind.
    pub open spec fn supported(self) -> bool {
        ||| self == ExtensionType::MintCloseAuthority
        ||| self == ExtensionType::MetadataPointer
        ||| self == ExtensionType::TransferFeeConfig
    }

    /// Whether an accepted mint may carry this kind.
    pub fn is_supported(self) -> (r: bool)
        ensures
            r == self.supported(),
            r == SUPPORTED_EXTENSIONS@.contains(self),
    {
        proof {
            assert(SUPPORTED_EXTENSIONS@[0] == ExtensionType::MintCloseAuthority);
            assert(SUPPORTED_EXTENSIONS@[1] == ExtensionType::MetadataPointer);
            assert(SUPPORTED_EXTENSIONS@[2] == ExtensionType::TransferFeeConfig);
        }
        let mut i: usize = 0;
        while i < 3
            invariant
                i <= 3,
                forall|j: int| 0 <= j < i ==> SUPPORTED_EXTENSIONS@[j] != self,
            decreases 3 - i,
        {
            if SUPPORTED_EXTENSIONS[i] == self {
                return true;
            }
            i = i + 1;
        }
        false
    }
}

/// The numbers of a sequence of kinds.
pub open spec fn numbers(kinds: Seq<ExtensionType>) -> Seq<u16> {
    kinds.map_values(|kind: ExtensionType| kind.number())
}

/// The numbers of a list of kinds.
pub fn codes(kinds: &Vec<ExtensionType>) -> (codes: Vec<u16>)
    ensures
        codes@ == numbers(kinds@),
{
    let mut codes: Vec<u16> = Vec::new();
    let mut i: usize = 0;
    while i < kinds.len()
        invariant
            i <= kinds.len(),
            codes@ == numbers(kinds@.take(i as int)),
        decreases kinds.len() - i,
    {
        codes.push(kinds[i].code());
        i = i + 1;
        assert(codes@ =~= numbers(kinds@.take(i as int)));
    }
    assert(kinds@.take(i as int) =~= kinds@);
    codes
}

/// No two kinds share a number.
pub proof fn law_numbers_tell_kinds_apart(a: ExtensionType, b: ExtensionType)
    ensures
        a.number() == b.number() <==> a == b,
        a.number() <= MAX_EXTENSION_CODE,
{
}

} // verus!
