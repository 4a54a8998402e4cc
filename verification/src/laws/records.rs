//! Reading gives back what was written: the records of a mint, and the fee rates among them.

use vstd::prelude::*;

use crate::extension::MAX_EXTENSION_CODE;
use crate::fee::TransferFee;
use crate::fee::TransferFeeConfig;

verus! {

/// A number in two bytes, the lower one first.
pub open spec fn bytes16(number: u16) -> Seq<u8> {
    seq![(number % 256) as u8, (number / 256) as u8]
}

/// A number in eight bytes, the lowest one first.
pub open spec fn bytes64(number: u64) -> Seq<u8> {
    bytes16((number % 65_536) as u16) + bytes16((number / 65_536 % 65_536) as u16) + bytes16(
        (number / 4_294_967_296 % 65_536) as u16,
    ) + bytes16((number / 281_474_976_710_656) as u16)
}

/// A record: the number of its kind, the length of its value, its value.
pub open spec fn record_bytes(kind: u16, value: Seq<u8>) -> Seq<u8> {
    bytes16(kind) + bytes16(value.len() as u16) + value
}

/// Records one after the other.
pub open spec fn records_bytes(records: Seq<(u16, Seq<u8>)>) -> Seq<u8>
    decreases records.len(),
{
    if records.len() == 0 {
        Seq::empty()
    } else {
        record_bytes(records[0].0, records[0].1) + records_bytes(records.skip(1))
    }
}

/// A rate: its epoch, its cap, its basis points.
pub open spec fn rate_bytes(rate: TransferFee) -> Seq<u8> {
    bytes64(rate.epoch) + bytes64(rate.maximum_fee) + bytes16(rate.transfer_fee_basis_points)
}

/// The value of a record of fee rates: what is not read of it, then the older and the newer rate.
pub open spec fn rates_bytes(authorities: Seq<u8>, config: TransferFeeConfig) -> Seq<u8> {
    authorities + rate_bytes(config.older_transfer_fee) + rate_bytes(config.newer_transfer_fee)
}

/// A number in two bytes is read as it was written.
proof fn lemma_read16(data: Seq<u8>, at: int, number: u16)
    requires
        0 <= at,
        at + 2 <= data.len(),
        data.subrange(at, at + 2) == bytes16(number),
    ensures
        crate::layout::number16(data, at) == number,
{
    assert(data[at] == data.subrange(at, at + 2)[0]);
    assert(data[at + 1] == data.subrange(at, at + 2)[1]);
}

/// A number in eight bytes is read as it was written.
proof fn lemma_read64(data: Seq<u8>, at: int, number: u64)
    requires
        0 <= at,
        at + 8 <= data.len(),
        data.subrange(at, at + 8) == bytes64(number),
    ensures
        crate::layout::number64(data, at) == number,
{
    let bytes = data.subrange(at, at + 8);
    assert(data.subrange(at, at + 2) =~= bytes.subrange(0, 2));
    assert(data.subrange(at + 2, at + 4) =~= bytes.subrange(2, 4));
    assert(data.subrange(at + 4, at + 6) =~= bytes.subrange(4, 6));
    assert(data.subrange(at + 6, at + 8) =~= bytes.subrange(6, 8));
    assert(bytes.subrange(0, 2) =~= bytes16((number % 65_536) as u16));
    assert(bytes.subrange(2, 4) =~= bytes16((number / 65_536 % 65_536) as u16));
    assert(bytes.subrange(4, 6) =~= bytes16((number / 4_294_967_296 % 65_536) as u16));
    assert(bytes.subrange(6, 8) =~= bytes16((number / 281_474_976_710_656) as u16));
    lemma_read16(data, at, (number % 65_536) as u16);
    lemma_read16(data, at + 2, (number / 65_536 % 65_536) as u16);
    lemma_read16(data, at + 4, (number / 4_294_967_296 % 65_536) as u16);
    lemma_read16(data, at + 6, (number / 281_474_976_710_656) as u16);
}

/// A rate is read as it was written.
proof fn lemma_read_rate(data: Seq<u8>, at: int, rate: TransferFee)
    requires
        0 <= at,
        at + 18 <= data.len(),
        data.subrange(at, at + 18) == rate_bytes(rate),
    ensures
        crate::layout::rate_at(data, at) == rate,
{
    let bytes = data.subrange(at, at + 18);
    assert(data.subrange(at, at + 8) =~= bytes.subrange(0, 8));
    assert(data.subrange(at + 8, at + 16) =~= bytes.subrange(8, 16));
    assert(data.subrange(at + 16, at + 18) =~= bytes.subrange(16, 18));
    assert(bytes.subrange(0, 8) =~= bytes64(rate.epoch));
    assert(bytes.subrange(8, 16) =~= bytes64(rate.maximum_fee));
    assert(bytes.subrange(16, 18) =~= bytes16(rate.transfer_fee_basis_points));
    lemma_read64(data, at, rate.epoch);
    lemma_read64(data, at + 8, rate.maximum_fee);
    lemma_read16(data, at + 16, rate.transfer_fee_basis_points);
}

/// The head of the first record that was written is read as it was written, and the rest follows
/// where it ends.
proof fn lemma_first_record(head: Seq<u8>, records: Seq<(u16, Seq<u8>)>)
    requires
        records.len() > 0,
        records[0].1.len() <= u16::MAX,
    ensures
        ({
            let data = head + records_bytes(records);
            let next = head + record_bytes(records[0].0, records[0].1);
            &&& crate::layout::number16(data, head.len() as int) == records[0].0
            &&& crate::layout::number16(data, head.len() as int + 2) == records[0].1.len()
            &&& crate::layout::record_end(data, head.len() as int) == next.len()
            &&& next.len() == head.len() + 4 + records[0].1.len()
            &&& next.len() <= data.len()
            &&& data == next + records_bytes(records.skip(1))
            &&& data.subrange(head.len() as int + 4, next.len() as int) == records[0].1
        }),
{
    let data = head + records_bytes(records);
    let at = head.len() as int;
    let record = record_bytes(records[0].0, records[0].1);
    let next = head + record;
    assert(data =~= next + records_bytes(records.skip(1)));
    assert(data.subrange(at, at + 2) =~= bytes16(records[0].0));
    assert(data.subrange(at + 2, at + 4) =~= bytes16(records[0].1.len() as u16));
    assert(data.subrange(at + 4, next.len() as int) =~= records[0].1);
    lemma_read16(data, at, records[0].0);
    lemma_read16(data, at + 2, records[0].1.len() as u16);
}

/// Walking the records that were written lists their kinds, in order, whatever stands before them
/// and whatever their values are.
pub proof fn law_listed_kinds_are_those_written(head: Seq<u8>, records: Seq<(u16, Seq<u8>)>)
    requires
        forall|i: int|
            0 <= i < records.len() ==> 0 < (#[trigger] records[i]).0 <= MAX_EXTENSION_CODE
                && records[i].1.len() <= u16::MAX,
    ensures
        ({
            let listed = crate::layout::kinds_from(
                head + records_bytes(records),
                head.len() as int,
            );
            &&& listed is Ok
            &&& listed->Ok_0.len() == records.len()
            &&& forall|i: int|
                0 <= i < records.len() ==> #[trigger] listed->Ok_0[i] == records[i].0
        }),
    decreases records.len(),
{
    let data = head + records_bytes(records);
    if records.len() > 0 {
        let next = head + record_bytes(records[0].0, records[0].1);
        let rest = records.skip(1);
        lemma_first_record(head, records);
        assert forall|i: int| 0 <= i < rest.len() implies 0 < (#[trigger] rest[i]).0
            <= MAX_EXTENSION_CODE && rest[i].1.len() <= u16::MAX by {
            assert(rest[i] == records[i + 1]);
        }
        law_listed_kinds_are_those_written(next, rest);
        let listed = crate::layout::kinds_from(data, head.len() as int)->Ok_0;
        let others = crate::layout::kinds_from(data, next.len() as int)->Ok_0;
        assert(listed =~= seq![records[0].0] + others);
        assert forall|i: int| 0 <= i < records.len() implies #[trigger] listed[i]
            == records[i].0 by {
            if i > 0 {
                assert(listed[i] == others[i - 1]);
                assert(others[i - 1] == rest[i - 1].0);
            }
        }
    }
}

/// The first record of fee rates that was written is found, behind records of other kinds, and the
/// rates in it are read as they were written.
pub proof fn law_rates_are_those_written(
    head: Seq<u8>,
    records: Seq<(u16, Seq<u8>)>,
    place: int,
    authorities: Seq<u8>,
    config: TransferFeeConfig,
)
    requires
        0 <= place < records.len(),
        forall|i: int|
            0 <= i < place ==> (#[trigger] records[i]).0 > 1 && records[i].1.len() <= u16::MAX,
        authorities.len() == 72,
        records[place] == (1u16, rates_bytes(authorities, config)),
    ensures
        ({
            let data = head + records_bytes(records);
            let found = crate::layout::fee_record(data, head.len() as int);
            &&& found is Ok
            &&& head.len() <= found->Ok_0
            &&& found->Ok_0 + 112 <= data.len()
            &&& crate::layout::number16(data, found->Ok_0 + 2) == 108
            &&& crate::layout::record_end(data, found->Ok_0) == found->Ok_0 + 112
            &&& crate::layout::rate_at(data, found->Ok_0 + 76) == config.older_transfer_fee
            &&& crate::layout::rate_at(data, found->Ok_0 + 94) == config.newer_transfer_fee
        }),
    decreases place,
{
    let data = head + records_bytes(records);
    let at = head.len() as int;
    let next = head + record_bytes(records[0].0, records[0].1);
    lemma_first_record(head, records);
    if place == 0 {
        let value = rates_bytes(authorities, config);
        assert(value.len() == 108);
        assert(data.subrange(at + 4, at + 112) == value);
        assert(data.subrange(at + 76, at + 94) =~= value.subrange(72, 90));
        assert(data.subrange(at + 94, at + 112) =~= value.subrange(90, 108));
        assert(value.subrange(72, 90) =~= rate_bytes(config.older_transfer_fee));
        assert(value.subrange(90, 108) =~= rate_bytes(config.newer_transfer_fee));
        lemma_read_rate(data, at + 76, config.older_transfer_fee);
        lemma_read_rate(data, at + 94, config.newer_transfer_fee);
    } else {
        let rest = records.skip(1);
        assert forall|i: int| 0 <= i < place - 1 implies (#[trigger] rest[i]).0 > 1
            && rest[i].1.len() <= u16::MAX by {
            assert(rest[i] == records[i + 1]);
        }
        law_rates_are_those_written(next, rest, place - 1, authorities, config);
    }
}

/// A mint reports the kinds and the rates that were written into it.
pub proof fn law_mint_is_read_as_it_was_written(
    head: Seq<u8>,
    records: Seq<(u16, Seq<u8>)>,
    place: int,
    authorities: Seq<u8>,
    config: TransferFeeConfig,
)
    requires
        head.len() == 166,
        crate::layout::unpacked_decimals(head + records_bytes(records)) is Ok,
        forall|i: int|
            0 <= i < records.len() ==> 0 < (#[trigger] records[i]).0 <= MAX_EXTENSION_CODE
                && records[i].1.len() <= u16::MAX,
        0 <= place < records.len(),
        forall|i: int| 0 <= i < place ==> (#[trigger] records[i]).0 != 1,
        authorities.len() == 72,
        records[place] == (1u16, rates_bytes(authorities, config)),
    ensures
        ({
            let data = head + records_bytes(records);
            let listed = crate::layout::extension_codes(data);
            &&& listed is Ok
            &&& listed->Ok_0.len() == records.len()
            &&& forall|i: int|
                0 <= i < records.len() ==> #[trigger] listed->Ok_0[i] == records[i].0
            &&& crate::layout::fee_config(data) == Ok::<TransferFeeConfig, u64>(config)
        }),
{
    law_listed_kinds_are_those_written(head, records);
    law_rates_are_those_written(head, records, place, authorities, config);
}

} // verus!
