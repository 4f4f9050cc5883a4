use itch_orderbook::common::Side;
use itch_orderbook::handler::{PacketOutcome, StockDataHandler};
use itch_orderbook::itch::ItchMessage;
use itch_orderbook::processor::SymbolProcessor;

fn header(kind: u8, locate: u16, timestamp: u64, len: usize) -> Vec<u8> {
    let mut v = vec![0u8; len];
    v[0] = kind;
    v[1..3].copy_from_slice(&locate.to_be_bytes());
    v[5..11].copy_from_slice(&timestamp.to_be_bytes()[2..8]);
    v
}

fn directory(locate: u16, symbol: &[u8; 8]) -> Vec<u8> {
    let mut v = header(b'R', locate, 0, 39);
    v[11..19].copy_from_slice(symbol);
    v
}

fn add_order(locate: u16, ts: u64, id: u64, side: u8, qty: u32, price: u32) -> Vec<u8> {
    let mut v = header(b'A', locate, ts, 36);
    v[11..19].copy_from_slice(&id.to_be_bytes());
    v[19] = side;
    v[20..24].copy_from_slice(&qty.to_be_bytes());
    v[32..36].copy_from_slice(&price.to_be_bytes());
    v
}

fn delete_order(locate: u16, ts: u64, id: u64) -> Vec<u8> {
    let mut v = header(b'D', locate, ts, 19);
    v[11..19].copy_from_slice(&id.to_be_bytes());
    v
}

fn two_symbols() -> StockDataHandler {
    StockDataHandler::new(vec!["AAPL".to_string(), "MSFT".to_string()])
}

#[test]
fn new_handler_tracks_nothing_yet() {
    let h = two_symbols();
    assert_eq!(h.processors.len(), 2);
    assert_eq!(h.processors[0].symbol, "AAPL");
    assert_eq!(h.processors[1].symbol, "MSFT");
    assert!(h.lookup_table.iter().all(|&s| s == -1));
    assert_eq!(h.counter_dropped, 0);
    assert_eq!(h.counter_symbol_processed, 0);
}

#[test]
fn directory_entry_maps_tracked_symbol() {
    let mut h = two_symbols();
    let out = h.handle_raw_packet(&directory(42, b"MSFT    "));
    assert!(matches!(out, PacketOutcome::Mapped { slot: 1 }));
    assert_eq!(h.lookup_table[42], 1);
    assert_eq!(h.processors[1].stock_locate, 42);
    assert_eq!(h.processors[0].stock_locate, 0);
}

#[test]
fn directory_entry_for_untracked_symbol_is_ignored() {
    let mut h = two_symbols();
    let out = h.handle_raw_packet(&directory(7, b"GOOG    "));
    assert!(matches!(out, PacketOutcome::Ignored));
    assert!(h.lookup_table.iter().all(|&s| s == -1));
    assert_eq!(h.counter_dropped, 0);
}

#[test]
fn stock_directory_trims_nul_and_white_space() {
    let mut h = two_symbols();
    let r = h.handle_stock_directory(9, "\0 AAPL \0".to_string());
    assert_eq!(r, Some(0));
    assert_eq!(h.lookup_table[9], 0);
    let r = h.handle_stock_directory(10, "AAP".to_string());
    assert_eq!(r, None);
    assert_eq!(h.lookup_table[10], -1);
}

#[test]
fn untracked_messages_are_dropped() {
    let mut h = two_symbols();
    let out = h.handle_raw_packet(&add_order(5, 1, 1, b'B', 10, 100));
    assert!(matches!(out, PacketOutcome::Dropped));
    assert_eq!(h.counter_dropped, 1);
    assert_eq!(h.counter_symbol_processed, 0);
    assert!(h.processors[0].order_book.orders.is_empty());
}

#[test]
fn tracked_messages_reach_their_book_and_take_snapshots() {
    let mut h = two_symbols();
    h.handle_raw_packet(&directory(3, b"AAPL    "));
    let out = h.handle_raw_packet(&add_order(3, 100, 1, b'B', 10, 5000));
    assert!(matches!(out, PacketOutcome::Handled { slot: 0, flush_due: false }));
    let out = h.handle_raw_packet(&add_order(3, 101, 2, b'S', 4, 5100));
    assert!(matches!(out, PacketOutcome::Handled { slot: 0, flush_due: false }));
    let out = h.handle_raw_packet(&delete_order(3, 102, 1));
    assert!(matches!(out, PacketOutcome::Handled { slot: 0, flush_due: false }));
    // A delete of an unknown order is processed but takes no snapshot.
    let out = h.handle_raw_packet(&delete_order(3, 103, 77));
    assert!(matches!(out, PacketOutcome::Handled { slot: 0, flush_due: false }));
    assert_eq!(h.counter_symbol_processed, 4);
    let p = &mut h.processors[0];
    assert_eq!(p.counter, 3);
    assert_eq!(p.pending_rows(), 3);
    let batch = p.take_batch();
    assert_eq!(p.pending_rows(), 0);
    assert_eq!(batch.timestamp.array.values().to_vec(), vec![100i64, 101, 102]);
    assert_eq!(batch.msg_type.array.values().to_vec(), vec![b'A' as i8, b'A' as i8, b'D' as i8]);
    assert_eq!(batch.side.array.values().to_vec(), vec![0i8, 1, 0]);
    assert_eq!(batch.price.array.values().to_vec(), vec![5000u64, 5100, 5000]);
    assert_eq!(batch.qty.array.values().to_vec(), vec![10u32, 4, 10]);
    assert_eq!(batch.ahead.array.values().to_vec(), vec![0u32, 0, 0]);
    assert_eq!(batch.bid.array.values().to_vec(), vec![5000u64, 5000, 0]);
    assert_eq!(batch.ask.array.values().to_vec(), vec![0u64, 5100, 5100]);
    assert!(h.processors[1].order_book.orders.is_empty());
}

#[test]
fn snapshots_are_due_for_flushing_at_1024_rows() {
    let mut p = SymbolProcessor::new("IBM".to_string());
    for i in 0..1023u64 {
        assert!(!p.record_snapshot(i, 'A', 0, 1, 1, 0));
    }
    assert!(p.record_snapshot(1023, 'A', 0, 1, 1, 0));
    assert_eq!(p.pending_rows(), 1024);
    let batch = p.take_batch();
    assert_eq!(batch.timestamp.array.len(), 1024);
    assert!(!p.record_snapshot(1, 'X', 1, 2, 3, 4));
}

#[test]
fn execution_records_the_aggressor_side() {
    let mut p = SymbolProcessor::new("IBM".to_string());
    p.order_book.add_order(8, Side::Buy, 700, 50);
    let due = p.handle_event(ItchMessage::OrderExecuted {
        stock_locate: 1,
        order_id: 8,
        quantity: 20,
        match_number: 5,
        timestamp: 9,
    });
    assert!(!due);
    assert_eq!(p.order_book.orders[&8].quantity, 30);
    let batch = p.take_batch();
    // A resting buy was hit by a seller.
    assert_eq!(batch.side.array.values().to_vec(), vec![1i8]);
    assert_eq!(batch.msg_type.array.values().to_vec(), vec![b'E' as i8]);
    assert_eq!(batch.qty.array.values().to_vec(), vec![20u32]);
}

#[test]
fn execution_with_price_records_the_trade_price() {
    let mut p = SymbolProcessor::new("IBM".to_string());
    p.order_book.add_order(8, Side::Sell, 700, 50);
    p.handle_event(ItchMessage::OrderExecutedWithPrice {
        stock_locate: 1,
        order_id: 8,
        quantity: 50,
        price: 650,
        match_number: 5,
        timestamp: 9,
    });
    // The liquidity leaves the resting order at 700...
    assert!(p.order_book.orders.is_empty());
    assert!(p.order_book.asks.is_empty());
    // ...but the trade is recorded at the message's price.
    let batch = p.take_batch();
    assert_eq!(batch.price.array.values().to_vec(), vec![650u64]);
    assert_eq!(batch.side.array.values().to_vec(), vec![0i8]);
}

#[test]
fn modify_of_unknown_order_still_takes_a_snapshot() {
    let mut p = SymbolProcessor::new("IBM".to_string());
    p.handle_event(ItchMessage::ModifyOrder { stock_locate: 1, order_id: 3, quantity_to_remove: 7, timestamp: 4 });
    assert_eq!(p.counter, 1);
    let batch = p.take_batch();
    assert_eq!(batch.qty.array.values().to_vec(), vec![7u32]);
    assert_eq!(batch.price.array.values().to_vec(), vec![0u64]);
}

#[test]
fn replace_moves_the_order() {
    let mut p = SymbolProcessor::new("IBM".to_string());
    p.order_book.add_order(1, Side::Buy, 100, 10);
    p.order_book.add_order(2, Side::Buy, 101, 6);
    p.handle_event(ItchMessage::OrderReplaced {
        stock_locate: 1,
        old_order_id: 1,
        new_order_id: 9,
        quantity: 12,
        price: 101,
        timestamp: 4,
    });
    assert!(!p.order_book.orders.contains_key(&1));
    assert_eq!(p.order_book.orders[&9].shares_ahead, 6);
    assert_eq!(p.order_book.bids.get(&101), Some(&18));
    assert_eq!(p.order_book.bids.get(&100), None);
    let batch = p.take_batch();
    assert_eq!(batch.msg_type.array.values().to_vec(), vec![b'U' as i8]);
    assert_eq!(batch.ahead.array.values().to_vec(), vec![6u32]);
}

#[test]
fn replace_of_unknown_order_does_nothing() {
    let mut p = SymbolProcessor::new("IBM".to_string());
    p.handle_event(ItchMessage::OrderReplaced {
        stock_locate: 1,
        old_order_id: 1,
        new_order_id: 9,
        quantity: 12,
        price: 101,
        timestamp: 4,
    });
    assert!(p.order_book.orders.is_empty());
    assert_eq!(p.counter, 0);
    assert_eq!(p.pending_rows(), 0);
}

#[test]
fn accepts_packet_refuses_what_cannot_be_handled() {
    let mut h = two_symbols();
    assert!(!h.accepts_packet(&[b'A', 0]));
    assert!(!h.accepts_packet(&directory(3, b"AAPL    ")[..12]));
    assert!(h.accepts_packet(&directory(3, b"AAPL    ")));
    h.handle_raw_packet(&directory(3, b"AAPL    "));
    assert!(!h.accepts_packet(&add_order(3, 1, 1, b'B', 10, 100)[..30]));
    assert!(h.accepts_packet(&add_order(3, 1, 1, b'B', 10, 100)));
    h.handle_raw_packet(&add_order(3, 1, 1, b'B', u32::MAX, 100));
    // A second order at the same price would overflow the level.
    assert!(!h.accepts_packet(&add_order(3, 2, 2, b'B', 1, 100)));
    // A short message for an untracked locate is only counted.
    assert!(h.accepts_packet(&[b'A', 0, 9]));
}

#[test]
fn events_keep_levels_equal_to_resting_totals_and_columns_aligned() {
    let mut p = SymbolProcessor::new("IBM".to_string());
    let events = vec![
        ItchMessage::AddOrder { stock_locate: 1, order_id: 1, side: Side::Buy, quantity: 10, price: 100, timestamp: 1 },
        ItchMessage::AddOrder { stock_locate: 1, order_id: 2, side: Side::Buy, quantity: 5, price: 100, timestamp: 2 },
        ItchMessage::AddOrder { stock_locate: 1, order_id: 3, side: Side::Sell, quantity: 8, price: 103, timestamp: 3 },
        ItchMessage::ModifyOrder { stock_locate: 1, order_id: 1, quantity_to_remove: 4, timestamp: 4 },
        ItchMessage::OrderExecuted { stock_locate: 1, order_id: 3, quantity: 3, match_number: 1, timestamp: 5 },
        ItchMessage::OrderReplaced { stock_locate: 1, old_order_id: 2, new_order_id: 4, quantity: 9, price: 101, timestamp: 6 },
        ItchMessage::DeleteOrder { stock_locate: 1, order_id: 1, timestamp: 7 },
        ItchMessage::StockDirectory { stock_locate: 1, symbol: "IBM".to_string() },
    ];
    for e in events {
        p.handle_event(e);
    }
    for (side, levels) in [(Side::Buy, &p.order_book.bids), (Side::Sell, &p.order_book.asks)] {
        for price in [100u64, 101, 103] {
            let total: u64 = p
                .order_book
                .orders
                .values()
                .filter(|o| o.side == side && o.price == price)
                .map(|o| o.quantity as u64)
                .sum();
            assert_eq!(levels.get(&price).copied().unwrap_or(0) as u64, total);
        }
    }
    assert_eq!(p.order_book.bids.get(&101), Some(&9));
    assert_eq!(p.order_book.asks.get(&103), Some(&5));
    assert_eq!(p.counter, 7);
    let batch = p.take_batch();
    let n = batch.timestamp.array.len();
    assert_eq!(n, 7);
    for len in [
        batch.msg_type.array.len(),
        batch.side.array.len(),
        batch.price.array.len(),
        batch.qty.array.len(),
        batch.ahead.array.len(),
        batch.bid.array.len(),
        batch.ask.array.len(),
    ] {
        assert_eq!(len, n);
    }
}

#[test]
fn deletes_and_executions_slide_orders_behind() {
    let mut p = SymbolProcessor::new("IBM".to_string());
    p.order_book.add_order(101, Side::Sell, 150, 50);
    p.order_book.add_order(105, Side::Sell, 150, 30);
    p.order_book.add_order(110, Side::Sell, 150, 20);
    p.handle_event(ItchMessage::OrderExecuted { stock_locate: 1, order_id: 101, quantity: 10, match_number: 1, timestamp: 1 });
    assert_eq!(p.order_book.orders[&105].shares_ahead, 40);
    assert_eq!(p.order_book.orders[&110].shares_ahead, 70);
    p.handle_event(ItchMessage::DeleteOrder { stock_locate: 1, order_id: 105, timestamp: 2 });
    assert_eq!(p.order_book.orders[&110].shares_ahead, 40);
    let batch = p.take_batch();
    // Each row records the shares ahead of the order it touched, before the event.
    assert_eq!(batch.ahead.array.values().to_vec(), vec![0u32, 40]);
}
