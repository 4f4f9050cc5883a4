//! Decoding of NASDAQ ITCH 5.0 messages that the order book consumes.
use vstd::prelude::*;
use crate::common::Side;
use crate::text::{decode_lossy, trim_chars, trim_white_space, utf8_lossy};

verus! {

/// One decoded ITCH message.
pub enum ItchMessage {
    /// Message type 'A': a new order.
    AddOrder {
        stock_locate: u16,
        order_id: u64,
        side: Side,
        quantity: u32,
        price: u64,
        timestamp: u64,
    },
    /// Message type 'X': an existing order is reduced.
    ModifyOrder { stock_locate: u16, order_id: u64, quantity_to_remove: u32, timestamp: u64 },
    /// Message type 'D': an order is deleted.
    DeleteOrder { stock_locate: u16, order_id: u64, timestamp: u64 },
    /// Message type 'E': an order is executed.
    OrderExecuted {
        stock_locate: u16,
        order_id: u64,
        quantity: u32,
        match_number: u64,
        timestamp: u64,
    },
    /// Message type 'C': an order is executed at a price of its own.
    OrderExecutedWithPrice {
        stock_locate: u16,
        order_id: u64,
        quantity: u32,
        price: u64,
        match_number: u64,
        timestamp: u64,
    },
    /// Message type 'U': an order is replaced by a new one.
    OrderReplaced {
        stock_locate: u16,
        old_order_id: u64,
        new_order_id: u64,
        quantity: u32,
        price: u64,
        timestamp: u64,
    },
    /// Message type 'R': the stock directory entry for the day.
    StockDirectory { stock_locate: u16, symbol: String },
}

/// An [`ItchMessage`] with its symbol taken as a sequence of characters.
pub enum ItchMessageView {
    AddOrder {
        stock_locate: u16,
        order_id: u64,
        side: Side,
        quantity: u32,
        price: u64,
        timestamp: u64,
    },
    ModifyOrder { stock_locate: u16, order_id: u64, quantity_to_remove: u32, timestamp: u64 },
    DeleteOrder { stock_locate: u16, order_id: u64, timestamp: u64 },
    OrderExecuted {
        stock_locate: u16,
        order_id: u64,
        quantity: u32,
        match_number: u64,
        timestamp: u64,
    },
    OrderExecutedWithPrice {
        stock_locate: u16,
        order_id: u64,
        quantity: u32,
        price: u64,
        match_number: u64,
        timestamp: u64,
    },
    OrderReplaced {
        stock_locate: u16,
        old_order_id: u64,
        new_order_id: u64,
        quantity: u32,
        price: u64,
        timestamp: u64,
    },
    StockDirectory { stock_locate: u16, symbol: Seq<char> },
}

impl View for ItchMessage {
    type V = ItchMessageView;

    open spec fn view(&self) -> ItchMessageView {
        match self {
            ItchMessage::AddOrder { stock_locate, order_id, side, quantity, price, timestamp } =>
                ItchMessageView::AddOrder {
                stock_locate: *stock_locate,
                order_id: *order_id,
                side: *side,
                quantity: *quantity,
                price: *price,
                timestamp: *timestamp,
            },
            ItchMessage::ModifyOrder { stock_locate, order_id, quantity_to_remove, timestamp } =>
                ItchMessageView::ModifyOrder {
                stock_locate: *stock_locate,
                order_id: *order_id,
                quantity_to_remove: *quantity_to_remove,
                timestamp: *timestamp,
            },
            ItchMessage::DeleteOrder { stock_locate, order_id, timestamp } =>
                ItchMessageView::DeleteOrder {
                stock_locate: *stock_locate,
                order_id: *order_id,
                timestamp: *timestamp,
            },
            ItchMessage::OrderExecuted {
                stock_locate,
                order_id,
                quantity,
                match_number,
                timestamp,
            } => ItchMessageView::OrderExecuted {
                stock_locate: *stock_locate,
                order_id: *order_id,
                quantity: *quantity,
                match_number: *match_number,
                timestamp: *timestamp,
            },
            ItchMessage::OrderExecutedWithPrice {
                stock_locate,
                order_id,
                quantity,
                price,
                match_number,
                timestamp,
            } => ItchMessageView::OrderExecutedWithPrice {
                stock_locate: *stock_locate,
                order_id: *order_id,
                quantity: *quantity,
                price: *price,
                match_number: *match_number,
                timestamp: *timestamp,
            },
            ItchMessage::OrderReplaced {
                stock_locate,
                old_order_id,
                new_order_id,
                quantity,
                price,
                timestamp,
            } => ItchMessageView::OrderReplaced {
                stock_locate: *stock_locate,
                old_order_id: *old_order_id,
                new_order_id: *new_order_id,
                quantity: *quantity,
                price: *price,
                timestamp: *timestamp,
            },
            ItchMessage::StockDirectory { stock_locate, symbol } =>
                ItchMessageView::StockDirectory { stock_locate: *stock_locate, symbol: symbol@ },
        }
    }
}

/// The big-endian value of the two bytes at `i`.
pub open spec fn be16(s: Seq<u8>, i: int) -> int {
    s[i] * 256 + s[i + 1]
}

/// The big-endian value of the four bytes at `i`.
pub open spec fn be32(s: Seq<u8>, i: int) -> int {
    be16(s, i) * 65536 + be16(s, i + 2)
}

/// The big-endian value of the eight bytes at `i`.
pub open spec fn be64(s: Seq<u8>, i: int) -> int {
    be32(s, i) * 0x1_0000_0000 + be32(s, i + 4)
}

/// The six-byte timestamp at offset 5: nanoseconds since midnight.
pub open spec fn timestamp_of(s: Seq<u8>) -> int {
    be16(s, 5) * 0x1_0000_0000 + be32(s, 7)
}

/// The stock locate code at offset 1, which every message carries.
pub open spec fn locate_of(s: Seq<u8>) -> u16 {
    be16(s, 1) as u16
}

/// The side that the byte at offset 19 of an add-order message names.
pub open spec fn side_of_byte(b: u8) -> Option<Side> {
    if b == 0x42 {
        Some(Side::Buy)
    } else if b == 0x53 {
        Some(Side::Sell)
    } else {
        None
    }
}

/// The message type codes, as bytes.
pub open spec fn code_r() -> u8 { 0x52 }
pub open spec fn code_a() -> u8 { 0x41 }
pub open spec fn code_x() -> u8 { 0x58 }
pub open spec fn code_d() -> u8 { 0x44 }
pub open spec fn code_e() -> u8 { 0x45 }
pub open spec fn code_c() -> u8 { 0x43 }
pub open spec fn code_u() -> u8 { 0x55 }

/// `data` is long enough for every field that decoding it reads: the type
/// byte and the stock locate, then the fields of its type. (An add-order
/// with an unknown side byte is rejected before its later fields are read.)
pub open spec fn message_fits(data: Seq<u8>) -> bool {
    let n = data.len();
    &&& n >= 3
    &&& (data[0] == code_r() ==> n >= 19)
    &&& (data[0] == code_a() ==> n >= 20 && (side_of_byte(data[19]) is Some ==> n >= 36))
    &&& (data[0] == code_x() ==> n >= 23)
    &&& (data[0] == code_d() ==> n >= 19)
    &&& (data[0] == code_e() ==> n >= 31)
    &&& (data[0] == code_c() ==> n >= 36)
    &&& (data[0] == code_u() ==> n >= 35)
}

/// What a message of `data` decodes to: `None` for a type this decoder does not
/// handle and for an add-order whose side byte is neither 'B' nor 'S'.
pub open spec fn spec_parse(data: Seq<u8>) -> Option<ItchMessageView> {
    let t = data[0];
    let stock_locate = locate_of(data);
    let timestamp = timestamp_of(data) as u64;
    if t == code_r() {
        Some(
            ItchMessageView::StockDirectory {
                stock_locate,
                symbol: trim_white_space(utf8_lossy(data.subrange(11, 19))),
            },
        )
    } else if t == code_a() {
        match side_of_byte(data[19]) {
            Some(side) => Some(
                ItchMessageView::AddOrder {
                    stock_locate,
                    order_id: be64(data, 11) as u64,
                    side,
                    quantity: be32(data, 20) as u32,
                    price: be32(data, 32) as u64,
                    timestamp,
                },
            ),
            None => None,
        }
    } else if t == code_x() {
        Some(
            ItchMessageView::ModifyOrder {
                stock_locate,
                order_id: be64(data, 11) as u64,
                quantity_to_remove: be32(data, 19) as u32,
                timestamp,
            },
        )
    } else if t == code_d() {
        Some(
            ItchMessageView::DeleteOrder {
                stock_locate,
                order_id: be64(data, 11) as u64,
                timestamp,
            },
        )
    } else if t == code_e() {
        Some(
            ItchMessageView::OrderExecuted {
                stock_locate,
                order_id: be64(data, 11) as u64,
                quantity: be32(data, 19) as u32,
                match_number: be64(data, 23) as u64,
                timestamp,
            },
        )
    } else if t == code_c() {
        Some(
            ItchMessageView::OrderExecutedWithPrice {
                stock_locate,
                order_id: be64(data, 11) as u64,
                quantity: be32(data, 19) as u32,
                price: be32(data, 32) as u64,
                match_number: be64(data, 23) as u64,
                timestamp,
            },
        )
    } else if t == code_u() {
        Some(
            ItchMessageView::OrderReplaced {
                stock_locate,
                old_order_id: be64(data, 11) as u64,
                new_order_id: be64(data, 19) as u64,
                quantity: be32(data, 27) as u32,
                price: be32(data, 31) as u64,
                timestamp,
            },
        )
    } else {
        None
    }
}

impl ItchMessageView {
    /// The stock locate code that the message carries.
    pub open spec fn stock_locate(self) -> u16 {
        match self {
            ItchMessageView::AddOrder { stock_locate, .. } => stock_locate,
            ItchMessageView::ModifyOrder { stock_locate, .. } => stock_locate,
            ItchMessageView::DeleteOrder { stock_locate, .. } => stock_locate,
            ItchMessageView::OrderExecuted { stock_locate, .. } => stock_locate,
            ItchMessageView::OrderExecutedWithPrice { stock_locate, .. } => stock_locate,
            ItchMessageView::OrderReplaced { stock_locate, .. } => stock_locate,
            ItchMessageView::StockDirectory { stock_locate, .. } => stock_locate,
        }
    }
}

/// Every decoded message carries the stock locate of bytes 1 and 2, whatever
/// its type.
pub proof fn law_messages_carry_their_locate(data: Seq<u8>)
    requires
        message_fits(data),
        spec_parse(data) is Some,
    ensures
        spec_parse(data).unwrap().stock_locate() == locate_of(data),
{
}

pub(crate) fn read_u16(data: &[u8], i: usize) -> (r: u16)
    requires
        i + 2 <= data@.len(),
    ensures
        r == be16(data@, i as int),
{
    (data[i] as u16) * 256 + (data[i + 1] as u16)
}

fn read_u32(data: &[u8], i: usize) -> (r: u32)
    requires
        i + 4 <= data@.len(),
    ensures
        r == be32(data@, i as int),
{
    let n = data.len();
    assert(i + 2 <= n);
    let hi = read_u16(data, i);
    let lo = read_u16(data, i + 2);
    (hi as u32) * 65536 + (lo as u32)
}

fn read_u64(data: &[u8], i: usize) -> (r: u64)
    requires
        i + 8 <= data@.len(),
    ensures
        r == be64(data@, i as int),
{
    let n = data.len();
    assert(i + 4 <= n);
    let hi = read_u32(data, i);
    let lo = read_u32(data, i + 4);
    (hi as u64) * 0x1_0000_0000 + (lo as u64)
}

/// The six-byte big-endian timestamp at offsets 5 to 10: the high two bytes
/// shifted above the low four.
fn parse_timestamp(data: &[u8]) -> (r: u64)
    requires
        data@.len() >= 11,
    ensures
        r == timestamp_of(data@),
{
    let high = read_u16(data, 5) as u64;
    let low = read_u32(data, 7) as u64;
    high * 0x1_0000_0000 + low
}

/// Decodes one ITCH message (without its length prefix).
pub fn parse_itch_message(data: &[u8]) -> (res: Option<ItchMessage>)
    requires
        message_fits(data@),
    ensures
        match res {
            Some(m) => spec_parse(data@) == Some(m@),
            None => spec_parse(data@) is None,
        },
{
    let message_type = data[0];
    let stock_locate = read_u16(data, 1);
    if message_type == 0x52 {
        let raw = decode_lossy(&data[11..19]);
        let symbol = trim_chars(raw.as_str(), false);
        Some(ItchMessage::StockDirectory { stock_locate, symbol })
    } else if message_type == 0x41 {
        let order_id = read_u64(data, 11);
        let side = if data[19] == 0x42 {
            Side::Buy
        } else if data[19] == 0x53 {
            Side::Sell
        } else {
            return None;
        };
        let quantity = read_u32(data, 20);
        let price = read_u32(data, 32) as u64;
        let timestamp = parse_timestamp(data);
        Some(ItchMessage::AddOrder { stock_locate, order_id, side, quantity, price, timestamp })
    } else if message_type == 0x58 {
        let order_id = read_u64(data, 11);
        let quantity_to_remove = read_u32(data, 19);
        let timestamp = parse_timestamp(data);
        Some(ItchMessage::ModifyOrder { stock_locate, order_id, quantity_to_remove, timestamp })
    } else if message_type == 0x44 {
        let order_id = read_u64(data, 11);
        let timestamp = parse_timestamp(data);
        Some(ItchMessage::DeleteOrder { stock_locate, order_id, timestamp })
    } else if message_type == 0x45 {
        let order_id = read_u64(data, 11);
        let quantity = read_u32(data, 19);
        let match_number = read_u64(data, 23);
        let timestamp = parse_timestamp(data);
        Some(
            ItchMessage::OrderExecuted { stock_locate, order_id, quantity, match_number, timestamp },
        )
    } else if message_type == 0x43 {
        let order_id = read_u64(data, 11);
        let quantity = read_u32(data, 19);
        let match_number = read_u64(data, 23);
        let price = read_u32(data, 32) as u64;
        let timestamp = parse_timestamp(data);
        Some(
            ItchMessage::OrderExecutedWithPrice {
                stock_locate,
                order_id,
                quantity,
                price,
                match_number,
                timestamp,
            },
        )
    } else if message_type == 0x55 {
        let old_order_id = read_u64(data, 11);
        let new_order_id = read_u64(data, 19);
        let quantity = read_u32(data, 27);
        let price = read_u32(data, 31) as u64;
        let timestamp = parse_timestamp(data);
        Some(
            ItchMessage::OrderReplaced {
                stock_locate,
                old_order_id,
                new_order_id,
                quantity,
                price,
                timestamp,
            },
        )
    } else {
        None
    }
}

/// Where the length-prefixed message at `cursor` lies in a stream of
/// messages, each after a two-byte big-endian length: `Some((start, end))`
/// with `start` just past the prefix, or `None` when no prefix and payload
/// byte remain at `cursor` or the message runs past the end of `data`.
pub fn next_message_bounds(data: &[u8], cursor: usize) -> (r: Option<(usize, usize)>)
    ensures
        match r {
            Some((start, end)) => {
                &&& cursor + 2 < data@.len()
                &&& start == cursor + 2
                &&& end == start + be16(data@, cursor as int)
                &&& end <= data@.len()
            },
            None => cursor + 2 >= data@.len() || cursor + 2 + be16(data@, cursor as int)
                > data@.len(),
        },
{
    let n = data.len();
    if n < 3 || cursor > n - 3 {
        return None;
    }
    let msg_len = read_u16(data, cursor) as usize;
    let start = cursor + 2;
    if msg_len > n - start {
        return None;
    }
    Some((start, start + msg_len))
}

} // verus!
