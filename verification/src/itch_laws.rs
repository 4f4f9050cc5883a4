//! The ITCH 5.0 field layout, stated byte by byte: where each field of each
//! message type lies, and that it is read big-endian.
use vstd::prelude::*;
use crate::common::Side;
use crate::itch::{ItchMessageView, be16, be32, be64, message_fits, spec_parse, timestamp_of};
use crate::text::{trim_white_space, utf8_lossy};

verus! {

/// The unsigned number that `s` spells in big-endian order: each byte is
/// worth 256 times the one after it.
pub open spec fn big_endian(s: Seq<u8>) -> nat
    decreases s.len(),
{
    if s.len() == 0 {
        0
    } else {
        big_endian(s.drop_last()) * 256 + (s.last() as nat)
    }
}

/// The big-endian number in bytes `start` up to (not including) `end`.
pub open spec fn field(data: Seq<u8>, start: int, end: int) -> nat {
    big_endian(data.subrange(start, end))
}

proof fn lemma_field_step(data: Seq<u8>, i: int, j: int)
    requires
        0 <= i <= j < data.len(),
    ensures
        field(data, i, j + 1) == field(data, i, j) * 256 + data[j],
{
    assert(data.subrange(i, j + 1).drop_last() =~= data.subrange(i, j));
}

proof fn lemma_field_2(data: Seq<u8>, i: int)
    requires
        0 <= i && i + 2 <= data.len(),
    ensures
        field(data, i, i + 2) == be16(data, i),
{
    assert(data.subrange(i, i) =~= Seq::<u8>::empty());
    lemma_field_step(data, i, i);
    lemma_field_step(data, i, i + 1);
}

proof fn lemma_field_4(data: Seq<u8>, i: int)
    requires
        0 <= i && i + 4 <= data.len(),
    ensures
        field(data, i, i + 4) == be32(data, i),
{
    lemma_field_2(data, i);
    lemma_field_step(data, i, i + 2);
    lemma_field_step(data, i, i + 3);
}

proof fn lemma_field_6(data: Seq<u8>, i: int)
    requires
        0 <= i && i + 6 <= data.len(),
    ensures
        field(data, i, i + 6) == be16(data, i) * 0x1_0000_0000 + be32(data, i + 2),
{
    lemma_field_4(data, i);
    lemma_field_step(data, i, i + 4);
    lemma_field_step(data, i, i + 5);
}

proof fn lemma_field_8(data: Seq<u8>, i: int)
    requires
        0 <= i && i + 8 <= data.len(),
    ensures
        field(data, i, i + 8) == be64(data, i),
{
    lemma_field_6(data, i);
    lemma_field_step(data, i, i + 6);
    lemma_field_step(data, i, i + 7);
}

/// The fields that every message type shares: the stock locate (bytes 1–2)
/// and, for all but the stock directory, the timestamp (bytes 5–10).
proof fn lemma_common_fields(data: Seq<u8>)
    requires
        message_fits(data),
        data.len() >= 11,
    ensures
        be16(data, 1) == field(data, 1, 3),
        timestamp_of(data) == field(data, 5, 11),
{
    lemma_field_2(data, 1);
    lemma_field_6(data, 5);
}

/// An add-order message ('A') holds the order reference in bytes 11–18, the
/// side in byte 19 ('B' buy, 'S' sell; any other byte is refused), the
/// shares in bytes 20–23 and the price in bytes 32–35.
pub proof fn law_add_order_layout(data: Seq<u8>)
    requires
        message_fits(data),
        data[0] == 0x41,
    ensures
        (data[19] != 0x42 && data[19] != 0x53) ==> spec_parse(data) is None,
        (data[19] == 0x42 || data[19] == 0x53) ==> (spec_parse(data) matches Some(
            ItchMessageView::AddOrder { stock_locate, order_id, side, quantity, price, timestamp },
        ) && stock_locate == field(data, 1, 3) && order_id == field(data, 11, 19) && side == (if data[19]
            == 0x42 {
            Side::Buy
        } else {
            Side::Sell
        }) && quantity == field(data, 20, 24) && price == field(data, 32, 36) && timestamp == field(
            data,
            5,
            11,
        )),
{
    if data[19] == 0x42 || data[19] == 0x53 {
        lemma_common_fields(data);
        lemma_field_8(data, 11);
        lemma_field_4(data, 20);
        lemma_field_4(data, 32);
    }
}

/// An order-cancel message ('X') holds the order reference in bytes 11–18
/// and the cancelled shares in bytes 19–22.
pub proof fn law_modify_order_layout(data: Seq<u8>)
    requires
        message_fits(data),
        data[0] == 0x58,
    ensures
        spec_parse(data) matches Some(
            ItchMessageView::ModifyOrder { stock_locate, order_id, quantity_to_remove, timestamp },
        ) && stock_locate == field(data, 1, 3) && order_id == field(data, 11, 19)
            && quantity_to_remove == field(data, 19, 23) && timestamp == field(data, 5, 11),
{
    lemma_common_fields(data);
    lemma_field_8(data, 11);
    lemma_field_4(data, 19);
}

/// An order-delete message ('D') holds the order reference in bytes 11–18.
pub proof fn law_delete_order_layout(data: Seq<u8>)
    requires
        message_fits(data),
        data[0] == 0x44,
    ensures
        spec_parse(data) matches Some(ItchMessageView::DeleteOrder { stock_locate, order_id, timestamp })
            && stock_locate == field(data, 1, 3) && order_id == field(data, 11, 19) && timestamp
            == field(data, 5, 11),
{
    lemma_common_fields(data);
    lemma_field_8(data, 11);
}

/// An order-executed message ('E') holds the order reference in bytes
/// 11–18, the executed shares in bytes 19–22 and the match number in bytes
/// 23–30.
pub proof fn law_order_executed_layout(data: Seq<u8>)
    requires
        message_fits(data),
        data[0] == 0x45,
    ensures
        spec_parse(data) matches Some(
            ItchMessageView::OrderExecuted { stock_locate, order_id, quantity, match_number, timestamp },
        ) && stock_locate == field(data, 1, 3) && order_id == field(data, 11, 19) && quantity == field(
            data,
            19,
            23,
        ) && match_number == field(data, 23, 31) && timestamp == field(data, 5, 11),
{
    lemma_common_fields(data);
    lemma_field_8(data, 11);
    lemma_field_4(data, 19);
    lemma_field_8(data, 23);
}

/// An order-executed-with-price message ('C') holds the order reference in
/// bytes 11–18, the executed shares in bytes 19–22, the match number in
/// bytes 23–30 and the execution price in bytes 32–35 (byte 31 is the
/// printable flag).
pub proof fn law_executed_with_price_layout(data: Seq<u8>)
    requires
        message_fits(data),
        data[0] == 0x43,
    ensures
        spec_parse(data) matches Some(
            ItchMessageView::OrderExecutedWithPrice {
                stock_locate,
                order_id,
                quantity,
                price,
                match_number,
                timestamp,
            },
        ) && stock_locate == field(data, 1, 3) && order_id == field(data, 11, 19) && quantity == field(
            data,
            19,
            23,
        ) && price == field(data, 32, 36) && match_number == field(data, 23, 31) && timestamp
            == field(data, 5, 11),
{
    lemma_common_fields(data);
    lemma_field_8(data, 11);
    lemma_field_4(data, 19);
    lemma_field_8(data, 23);
    lemma_field_4(data, 32);
}

/// An order-replace message ('U') holds the original order reference in
/// bytes 11–18, the new order reference in bytes 19–26, the shares in bytes
/// 27–30 and the price in bytes 31–34.
pub proof fn law_order_replaced_layout(data: Seq<u8>)
    requires
        message_fits(data),
        data[0] == 0x55,
    ensures
        spec_parse(data) matches Some(
            ItchMessageView::OrderReplaced {
                stock_locate,
                old_order_id,
                new_order_id,
                quantity,
                price,
                timestamp,
            },
        ) && stock_locate == field(data, 1, 3) && old_order_id == field(data, 11, 19) && new_order_id
            == field(data, 19, 27) && quantity == field(data, 27, 31) && price == field(data, 31, 35)
            && timestamp == field(data, 5, 11),
{
    lemma_common_fields(data);
    lemma_field_8(data, 11);
    lemma_field_8(data, 19);
    lemma_field_4(data, 27);
    lemma_field_4(data, 31);
}

/// A stock-directory message ('R') holds the symbol in bytes 11–18, decoded
/// as text with white space trimmed from both ends; when those bytes are
/// ASCII, the symbol is exactly their characters without the padding.
pub proof fn law_stock_directory_layout(data: Seq<u8>)
    requires
        message_fits(data),
        data[0] == 0x52,
    ensures
        spec_parse(data) matches Some(ItchMessageView::StockDirectory { stock_locate, symbol })
            && stock_locate == field(data, 1, 3) && symbol == trim_white_space(
            utf8_lossy(data.subrange(11, 19)),
        ),
{
    lemma_field_2(data, 1);
}

/// Only the seven message types above are decoded; every other type byte
/// gives nothing.
pub proof fn law_other_types_are_not_decoded(data: Seq<u8>)
    requires
        message_fits(data),
        data[0] != 0x41 && data[0] != 0x58 && data[0] != 0x44 && data[0] != 0x45 && data[0] != 0x43
            && data[0] != 0x55 && data[0] != 0x52,
    ensures
        spec_parse(data) is None,
{
}

/// A message of its type's full ITCH 5.0 length can always be decoded:
/// 36 bytes for 'A' and 'C', 23 for 'X', 19 for 'D', 31 for 'E', 35 for
/// 'U', 39 for 'R', and any type byte with a stock locate for the rest.
pub proof fn law_full_length_messages_fit(data: Seq<u8>)
    requires
        data.len() >= 3,
        data[0] == 0x41 ==> data.len() >= 36,
        data[0] == 0x43 ==> data.len() >= 36,
        data[0] == 0x58 ==> data.len() >= 23,
        data[0] == 0x44 ==> data.len() >= 19,
        data[0] == 0x45 ==> data.len() >= 31,
        data[0] == 0x55 ==> data.len() >= 35,
        data[0] == 0x52 ==> data.len() >= 39,
    ensures
        message_fits(data),
{
}

} // verus!
