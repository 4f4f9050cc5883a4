use itch_orderbook::common::Side;
use itch_orderbook::itch::{next_message_bounds, parse_itch_message, ItchMessage};

fn header(kind: u8, locate: u16, timestamp: u64, len: usize) -> Vec<u8> {
    let mut v = vec![0u8; len];
    v[0] = kind;
    v[1..3].copy_from_slice(&locate.to_be_bytes());
    v[3..5].copy_from_slice(&[0x12, 0x34]);
    v[5..11].copy_from_slice(&timestamp.to_be_bytes()[2..8]);
    v
}

fn add_order_bytes(side: u8) -> Vec<u8> {
    let mut v = header(b'A', 0x0102, 0x0000_1122_3344_5566, 36);
    v[11..19].copy_from_slice(&0x0102_0304_0506_0708u64.to_be_bytes());
    v[19] = side;
    v[20..24].copy_from_slice(&300u32.to_be_bytes());
    v[24..32].copy_from_slice(b"AAPL    ");
    v[32..36].copy_from_slice(&1_502_500u32.to_be_bytes());
    v
}

#[test]
fn parses_add_order_buy() {
    let msg = parse_itch_message(&add_order_bytes(b'B')).expect("decodes");
    match msg {
        ItchMessage::AddOrder { stock_locate, order_id, side, quantity, price, timestamp } => {
            assert_eq!(stock_locate, 0x0102);
            assert_eq!(order_id, 0x0102_0304_0506_0708);
            assert_eq!(side, Side::Buy);
            assert_eq!(quantity, 300);
            assert_eq!(price, 1_502_500);
            assert_eq!(timestamp, 0x1122_3344_5566);
        }
        _ => panic!("wrong variant"),
    }
}

#[test]
fn parses_add_order_sell() {
    match parse_itch_message(&add_order_bytes(b'S')) {
        Some(ItchMessage::AddOrder { side, .. }) => assert_eq!(side, Side::Sell),
        _ => panic!("wrong variant"),
    }
}

#[test]
fn rejects_add_order_with_unknown_side() {
    assert!(parse_itch_message(&add_order_bytes(b'Q')).is_none());
    // The side is checked before the later fields are read.
    let short = &add_order_bytes(b'Q')[..20];
    assert!(parse_itch_message(short).is_none());
}

#[test]
fn parses_modify_order() {
    let mut v = header(b'X', 9, 77, 23);
    v[11..19].copy_from_slice(&555u64.to_be_bytes());
    v[19..23].copy_from_slice(&40u32.to_be_bytes());
    match parse_itch_message(&v) {
        Some(ItchMessage::ModifyOrder { stock_locate, order_id, quantity_to_remove, timestamp }) => {
            assert_eq!((stock_locate, order_id, quantity_to_remove, timestamp), (9, 555, 40, 77));
        }
        _ => panic!("wrong variant"),
    }
}

#[test]
fn parses_delete_order() {
    let mut v = header(b'D', 7, 9, 19);
    v[11..19].copy_from_slice(&42u64.to_be_bytes());
    match parse_itch_message(&v) {
        Some(ItchMessage::DeleteOrder { stock_locate, order_id, timestamp }) => {
            assert_eq!((stock_locate, order_id, timestamp), (7, 42, 9));
        }
        _ => panic!("wrong variant"),
    }
}

#[test]
fn parses_order_executed() {
    let mut v = header(b'E', 3, 1000, 31);
    v[11..19].copy_from_slice(&8u64.to_be_bytes());
    v[19..23].copy_from_slice(&25u32.to_be_bytes());
    v[23..31].copy_from_slice(&0xdead_beefu64.to_be_bytes());
    match parse_itch_message(&v) {
        Some(ItchMessage::OrderExecuted { stock_locate, order_id, quantity, match_number, timestamp }) => {
            assert_eq!((stock_locate, order_id, quantity, match_number, timestamp), (3, 8, 25, 0xdead_beef, 1000));
        }
        _ => panic!("wrong variant"),
    }
}

#[test]
fn parses_order_executed_with_price() {
    let mut v = header(b'C', 3, 1001, 36);
    v[11..19].copy_from_slice(&8u64.to_be_bytes());
    v[19..23].copy_from_slice(&25u32.to_be_bytes());
    v[23..31].copy_from_slice(&99u64.to_be_bytes());
    v[31] = b'Y';
    v[32..36].copy_from_slice(&123_400u32.to_be_bytes());
    match parse_itch_message(&v) {
        Some(ItchMessage::OrderExecutedWithPrice { stock_locate, order_id, quantity, price, match_number, timestamp }) => {
            assert_eq!((stock_locate, order_id, quantity, price, match_number, timestamp), (3, 8, 25, 123_400, 99, 1001));
        }
        _ => panic!("wrong variant"),
    }
}

#[test]
fn parses_order_replaced() {
    let mut v = header(b'U', 4, 5, 35);
    v[11..19].copy_from_slice(&11u64.to_be_bytes());
    v[19..27].copy_from_slice(&12u64.to_be_bytes());
    v[27..31].copy_from_slice(&60u32.to_be_bytes());
    v[31..35].copy_from_slice(&2_000u32.to_be_bytes());
    match parse_itch_message(&v) {
        Some(ItchMessage::OrderReplaced { stock_locate, old_order_id, new_order_id, quantity, price, timestamp }) => {
            assert_eq!((stock_locate, old_order_id, new_order_id, quantity, price, timestamp), (4, 11, 12, 60, 2_000, 5));
        }
        _ => panic!("wrong variant"),
    }
}

#[test]
fn parses_stock_directory_and_trims_symbol() {
    let mut v = header(b'R', 13, 0, 39);
    v[11..19].copy_from_slice(b"MSFT    ");
    match parse_itch_message(&v) {
        Some(ItchMessage::StockDirectory { stock_locate, symbol }) => {
            assert_eq!(stock_locate, 13);
            assert_eq!(symbol, "MSFT");
        }
        _ => panic!("wrong variant"),
    }
}

#[test]
fn stock_directory_replaces_invalid_utf8() {
    let mut v = header(b'R', 1, 0, 19);
    v[11..19].copy_from_slice(&[b' ', 0xff, b'A', b'B', b' ', b' ', b' ', b' ']);
    match parse_itch_message(&v) {
        Some(ItchMessage::StockDirectory { symbol, .. }) => assert_eq!(symbol, "\u{fffd}AB"),
        _ => panic!("wrong variant"),
    }
}

#[test]
fn stock_directory_trims_unicode_white_space() {
    let mut v = header(b'R', 1, 0, 19);
    // U+00A0 (no-break space) is white space; it is two bytes in UTF-8.
    v[11..19].copy_from_slice(&[0xc2, 0xa0, b'I', b'B', b'M', b'\t', b' ', b' ']);
    match parse_itch_message(&v) {
        Some(ItchMessage::StockDirectory { symbol, .. }) => assert_eq!(symbol, "IBM"),
        _ => panic!("wrong variant"),
    }
}

#[test]
fn unknown_message_type_is_none() {
    let v = header(b'S', 1, 0, 12);
    assert!(parse_itch_message(&v).is_none());
    assert!(parse_itch_message(&[b'Z', 0, 1]).is_none());
}

#[test]
fn frames_length_prefixed_messages() {
    let stream = [0u8, 3, b'a', b'b', b'c', 0, 1, b'd', 0, 9, b'e'];
    assert_eq!(next_message_bounds(&stream, 0), Some((2, 5)));
    assert_eq!(next_message_bounds(&stream, 5), Some((7, 8)));
    // The last message claims nine bytes but only one follows.
    assert_eq!(next_message_bounds(&stream, 8), None);
    // Fewer than three bytes left at the cursor.
    assert_eq!(next_message_bounds(&stream, 9), None);
    assert_eq!(next_message_bounds(&stream, 100), None);
}

