//! The bytes of a mint.
//!
//! A mint without extensions is its base alone. One with extensions is padded with zeros to the
//! length of a token account, marked as a mint, and followed by one record for each extension: two
//! bytes for its kind, two for the length of its value, and the value. All numbers are
//! little-endian.

use vstd::prelude::*;

use crate::error::EXTENSION_NOT_FOUND;
use crate::error::INVALID_ACCOUNT_DATA;
use crate::error::INVALID_ARGUMENT;
use crate::error::UNINITIALIZED_ACCOUNT;
use crate::extension::ExtensionType;
use crate::extension::EXTENSION_LENS;
use crate::extension::MAX_EXTENSION_CODE;
use crate::fee::TransferFee;
use crate::fee::TransferFeeConfig;

verus! {

/// Bytes of a mint without extensions.
pub const MINT_LEN: usize = 82;

/// Bytes of a multisig, a length that no mint has.
pub const MULTISIG_LEN: usize = 355;

/// Bytes of a token account, up to which a mint with extensions is padded with zeros.
pub const ACCOUNT_LEN: usize = 165;

/// What stands behind the padding of a mint with extensions.
pub const MINT_ACCOUNT_TYPE: u8 = 1;

/// Bytes before the first record of a mint with extensions.
pub const EXTENSIONS_START: usize = 166;

/// Bytes of a record before its value.
pub const EXTENSION_HEADER_LEN: usize = 4;

/// What is added to a mint that would be as long as a multisig.
pub const MULTISIG_PADDING: usize = 2;

/// Where a mint keeps whether it has a mint authority.
pub const MINT_AUTHORITY_OFFSET: usize = 0;

/// Where a mint keeps its decimals.
pub const DECIMALS_OFFSET: usize = 44;

/// Where a mint keeps whether it is initialized.
pub const IS_INITIALIZED_OFFSET: usize = 45;

/// Where a mint keeps whether it has a freeze authority.
pub const FREEZE_AUTHORITY_OFFSET: usize = 46;

/// Where the fee rates of a mint keep the older rate.
pub const OLDER_RATE_OFFSET: usize = 72;

/// Where the fee rates of a mint keep the newer rate.
pub const NEWER_RATE_OFFSET: usize = 90;

/// The bytes that extensions with these numbers take up, each counted once.
pub open spec fn extensions_len(codes: Seq<u16>) -> nat
    decreases codes.len(),
{
    if codes.len() == 0 {
        0
    } else if codes.drop_last().contains(codes.last()) {
        extensions_len(codes.drop_last())
    } else {
        extensions_len(codes.drop_last()) + EXTENSION_HEADER_LEN as nat
            + EXTENSION_LENS@[codes.last() as int] as nat
    }
}

/// The bytes of a mint with these extensions: without any, those of the mint alone; else the length
/// before the first record and what they take up, and never the length of a multisig.
pub open spec fn mint_account_len(codes: Seq<u16>) -> nat {
    let len = EXTENSIONS_START as nat + extensions_len(codes);
    if codes.len() == 0 {
        MINT_LEN as nat
    } else if len == MULTISIG_LEN {
        len + MULTISIG_PADDING as nat
    } else {
        len
    }
}

/// Whether the four bytes at `at` say that a value is absent or present.
pub open spec fn is_option_tag(data: Seq<u8>, at: int) -> bool {
    &&& data[at] <= 1
    &&& data[at + 1] == 0
    &&& data[at + 2] == 0
    &&& data[at + 3] == 0
}

/// Whether these bytes begin with the layout of a mint.
pub open spec fn has_mint_layout(data: Seq<u8>) -> bool {
    &&& data.len() >= MINT_LEN
    &&& data.len() != MULTISIG_LEN
    &&& is_option_tag(data, MINT_AUTHORITY_OFFSET as int)
    &&& data[IS_INITIALIZED_OFFSET as int] <= 1
    &&& is_option_tag(data, FREEZE_AUTHORITY_OFFSET as int)
}

/// Whether a mint ends with its base, or goes on with zeros up to the length of a token account and
/// with the mark of a mint behind them.
pub open spec fn has_mint_tail(data: Seq<u8>) -> bool {
    ||| data.len() == MINT_LEN
    ||| {
        &&& data.len() >= EXTENSIONS_START
        &&& forall|i: int| MINT_LEN <= i < ACCOUNT_LEN ==> #[trigger] data[i] == 0
        &&& data[ACCOUNT_LEN as int] == MINT_ACCOUNT_TYPE
    }
}

/// The decimals of the mint in these bytes, or the program error for bytes that hold none.
pub open spec fn unpacked_decimals(data: Seq<u8>) -> Result<u8, u64> {
    if !has_mint_layout(data) {
        Err(INVALID_ACCOUNT_DATA)
    } else if data[IS_INITIALIZED_OFFSET as int] == 0 {
        Err(UNINITIALIZED_ACCOUNT)
    } else if !has_mint_tail(data) {
        Err(INVALID_ACCOUNT_DATA)
    } else {
        Ok(data[DECIMALS_OFFSET as int])
    }
}

/// The number in the two bytes at `at`.
pub open spec fn number16(data: Seq<u8>, at: int) -> u16 {
    (data[at] + 0x100 * data[at + 1]) as u16
}

/// The number in the eight bytes at `at`.
pub open spec fn number64(data: Seq<u8>, at: int) -> u64 {
    (number16(data, at) + 0x1_0000 * number16(data, at + 2) + 0x1_0000_0000 * number16(data, at + 4)
        + 0x1_0000_0000_0000 * number16(data, at + 6)) as u64
}

/// Where the record at `at` ends.
pub open spec fn record_end(data: Seq<u8>, at: int) -> int {
    at + EXTENSION_HEADER_LEN + number16(data, at + 2)
}

/// The kinds of the records from `at` on, up to an empty one or to where no kind fits any more.
///
/// A number that stands for no kind is an error, and so is a record that is cut short.
pub open spec fn kinds_from(data: Seq<u8>, at: int) -> Result<Seq<u16>, u64>
    decreases data.len() - at,
{
    if at + 2 > data.len() {
        Ok(Seq::empty())
    } else if number16(data, at) > MAX_EXTENSION_CODE {
        Err(INVALID_ACCOUNT_DATA)
    } else if number16(data, at) == ExtensionType::Uninitialized.number() {
        Ok(Seq::empty())
    } else if at + EXTENSION_HEADER_LEN > data.len() || record_end(data, at) > data.len() {
        Err(INVALID_ACCOUNT_DATA)
    } else {
        match kinds_from(data, record_end(data, at)) {
            Ok(rest) => Ok(seq![number16(data, at)] + rest),
            Err(code) => Err(code),
        }
    }
}

/// The kinds of extension that the mint in these bytes carries.
pub open spec fn extension_codes(data: Seq<u8>) -> Result<Seq<u16>, u64> {
    match unpacked_decimals(data) {
        Ok(_) => kinds_from(data, EXTENSIONS_START as int),
        Err(code) => Err(code),
    }
}

/// Where the first record of the fee rates stands, from `at` on.
///
/// An empty record before it ends the search, and so does the end of the bytes.
pub open spec fn fee_record(data: Seq<u8>, at: int) -> Result<int, u64>
    decreases data.len() - at,
{
    if at + EXTENSION_HEADER_LEN > data.len() {
        Err(INVALID_ACCOUNT_DATA)
    } else if number16(data, at) == ExtensionType::TransferFeeConfig.number() {
        Ok(at)
    } else if number16(data, at) == ExtensionType::Uninitialized.number() {
        Err(EXTENSION_NOT_FOUND)
    } else if record_end(data, at) > data.len() {
        Err(INVALID_ACCOUNT_DATA)
    } else {
        fee_record(data, record_end(data, at))
    }
}

/// The rate at `at`: its epoch, its cap, its basis points.
pub open spec fn rate_at(data: Seq<u8>, at: int) -> TransferFee {
    TransferFee {
        epoch: number64(data, at),
        maximum_fee: number64(data, at + 8),
        transfer_fee_basis_points: number16(data, at + 16),
    }
}

/// The fee rates of the mint in these bytes.
pub open spec fn fee_config(data: Seq<u8>) -> Result<TransferFeeConfig, u64> {
    match unpacked_decimals(data) {
        Err(code) => Err(code),
        Ok(_) => match fee_record(data, EXTENSIONS_START as int) {
            Err(code) => Err(code),
            Ok(at) => if record_end(data, at) > data.len() {
                Err(INVALID_ACCOUNT_DATA)
            } else if number16(data, at + 2)
                != EXTENSION_LENS@[ExtensionType::TransferFeeConfig.number() as int] {
                Err(INVALID_ARGUMENT)
            } else {
                let value = at + EXTENSION_HEADER_LEN;
                Ok(
                    TransferFeeConfig {
                        older_transfer_fee: rate_at(data, value + OLDER_RATE_OFFSET),
                        newer_transfer_fee: rate_at(data, value + NEWER_RATE_OFFSET),
                    },
                )
            },
        },
    }
}

/// Fee rates that are found stand among the kinds that are listed.
proof fn lemma_found_rates_are_listed(data: Seq<u8>, at: int)
    requires
        fee_record(data, at) is Ok,
        kinds_from(data, at) is Ok,
    ensures
        kinds_from(data, at)->Ok_0.contains(ExtensionType::TransferFeeConfig.number()),
    decreases data.len() - at,
{
    let kinds = kinds_from(data, at)->Ok_0;
    if number16(data, at) == ExtensionType::TransferFeeConfig.number() {
        assert(kinds[0] == ExtensionType::TransferFeeConfig.number());
    } else {
        let end = record_end(data, at);
        lemma_found_rates_are_listed(data, end);
        let rest = kinds_from(data, end)->Ok_0;
        let i = rest.index_of(ExtensionType::TransferFeeConfig.number());
        assert(kinds[i + 1] == rest[i]);
    }
}

/// A mint whose kinds can be listed has fee rates only if they are among them.
pub proof fn law_found_rates_are_listed(data: Seq<u8>)
    requires
        fee_config(data) is Ok,
        extension_codes(data) is Ok,
    ensures
        extension_codes(data)->Ok_0.contains(ExtensionType::TransferFeeConfig.number()),
{
    lemma_found_rates_are_listed(data, EXTENSIONS_START as int);
}

/// What is listed are kinds, and never the empty one.
pub proof fn law_listed_kinds_are_kinds(data: Seq<u8>, at: int, i: int)
    requires
        kinds_from(data, at) is Ok,
        0 <= i < kinds_from(data, at)->Ok_0.len(),
    ensures
        0 < kinds_from(data, at)->Ok_0[i] <= MAX_EXTENSION_CODE,
    decreases data.len() - at,
{
    if i > 0 {
        law_listed_kinds_are_kinds(data, record_end(data, at), i - 1);
    }
}

} // verus!
