use itch_orderbook::common::Side;
use itch_orderbook::orderbook::{L3OrderBook, Order};

fn level_sum(book: &L3OrderBook, side: Side, price: u64) -> u64 {
    book.orders
        .values()
        .filter(|o| o.side == side && o.price == price)
        .map(|o| o.quantity as u64)
        .sum()
}

#[test]
fn new_book_is_empty() {
    let book = L3OrderBook::new();
    assert!(book.orders.is_empty());
    assert_eq!(book.get_best_bid(), None);
    assert_eq!(book.get_best_ask(), None);
    assert_eq!(book.spread(), None);
}

#[test]
fn shares_ahead_is_the_quantity_already_at_the_level() {
    let mut book = L3OrderBook::new();
    book.add_order(101, Side::Buy, 150, 50);
    book.add_order(105, Side::Buy, 150, 30);
    book.add_order(110, Side::Buy, 150, 20);
    assert_eq!(book.orders[&101].shares_ahead, 0);
    assert_eq!(book.orders[&105].shares_ahead, 50);
    assert_eq!(book.orders[&110].shares_ahead, 80);
    assert_eq!(book.bids.get(&150), Some(&100));
}

#[test]
fn a_later_order_does_not_move_an_earlier_one() {
    let mut book = L3OrderBook::new();
    book.add_order(110, Side::Buy, 150, 20);
    book.add_order(120, Side::Buy, 150, 100);
    assert_eq!(book.orders[&110].shares_ahead, 0);
    assert_eq!(book.orders[&120].shares_ahead, 20);
}

#[test]
fn orders_behind_a_cancelled_order_slide_forward() {
    let mut book = L3OrderBook::new();
    book.add_order(101, Side::Buy, 150, 50);
    book.add_order(105, Side::Buy, 150, 30);
    book.add_order(110, Side::Buy, 150, 20);
    book.cancel_order(101, 50);
    assert!(!book.orders.contains_key(&101));
    assert_eq!(book.bids.get(&150), Some(&50));
    assert_eq!(book.orders[&105].shares_ahead, 0);
    assert_eq!(book.orders[&110].shares_ahead, 30);
}

#[test]
fn partial_cancel_slides_by_the_amount_cancelled() {
    let mut book = L3OrderBook::new();
    book.add_order(101, Side::Buy, 150, 50);
    book.add_order(110, Side::Buy, 150, 20);
    book.cancel_order(101, 15);
    assert_eq!(book.orders[&101].quantity, 35);
    assert_eq!(book.orders[&110].shares_ahead, 35);
}

#[test]
fn cancelling_a_later_order_moves_no_earlier_one() {
    let mut book = L3OrderBook::new();
    book.add_order(101, Side::Buy, 150, 50);
    book.add_order(110, Side::Buy, 150, 20);
    book.cancel_order(110, 20);
    assert_eq!(book.orders[&101].shares_ahead, 0);
    assert_eq!(book.bids.get(&150), Some(&50));
}

#[test]
fn only_orders_at_the_same_side_and_price_slide() {
    let mut book = L3OrderBook::new();
    book.add_order(1, Side::Buy, 150, 50);
    book.add_order(2, Side::Buy, 150, 20);
    book.add_order(3, Side::Sell, 150, 10);
    book.add_order(4, Side::Sell, 150, 5);
    book.add_order(5, Side::Buy, 151, 7);
    book.add_order(6, Side::Buy, 151, 3);
    book.cancel_order(1, 50);
    assert_eq!(book.orders[&2].shares_ahead, 0);
    assert_eq!(book.orders[&4].shares_ahead, 10);
    assert_eq!(book.orders[&6].shares_ahead, 7);
}

#[test]
fn shares_ahead_never_drops_below_zero() {
    let mut book = L3OrderBook::new();
    // Order 110 arrives first, so nothing is ahead of it.
    book.add_order(110, Side::Buy, 150, 20);
    book.add_order(101, Side::Buy, 150, 50);
    book.cancel_order(101, 50);
    assert_eq!(book.orders[&110].shares_ahead, 0);
}

#[test]
fn sides_are_kept_apart() {
    let mut book = L3OrderBook::new();
    book.add_order(1, Side::Buy, 100, 10);
    book.add_order(2, Side::Sell, 100, 7);
    assert_eq!(book.bids.get(&100), Some(&10));
    assert_eq!(book.asks.get(&100), Some(&7));
    assert_eq!(book.orders[&2].shares_ahead, 0);
}

#[test]
fn partial_cancel_reduces_order_and_level() {
    let mut book = L3OrderBook::new();
    book.add_order(1, Side::Sell, 200, 100);
    book.add_order(2, Side::Sell, 200, 50);
    book.cancel_order(1, 30);
    assert_eq!(book.orders[&1], Order { price: 200, quantity: 70, side: Side::Sell, shares_ahead: 0 });
    assert_eq!(book.asks.get(&200), Some(&120));
}

#[test]
fn cancel_is_capped_at_the_order_quantity() {
    let mut book = L3OrderBook::new();
    book.add_order(1, Side::Buy, 90, 10);
    book.add_order(2, Side::Buy, 90, 5);
    book.cancel_order(1, 1_000);
    assert!(!book.orders.contains_key(&1));
    assert_eq!(book.bids.get(&90), Some(&5));
}

#[test]
fn full_cancel_removes_order_and_level() {
    let mut book = L3OrderBook::new();
    book.add_order(1, Side::Buy, 90, 10);
    book.cancel_order(1, 10);
    assert!(book.orders.is_empty());
    assert!(book.bids.is_empty());
    assert_eq!(book.get_best_bid(), None);
}

#[test]
fn cancel_of_unknown_id_changes_nothing() {
    let mut book = L3OrderBook::new();
    book.add_order(1, Side::Buy, 90, 10);
    book.cancel_order(2, 10);
    assert_eq!(book.orders.len(), 1);
    assert_eq!(book.bids.get(&90), Some(&10));
}

#[test]
fn best_bid_is_highest_and_best_ask_is_lowest() {
    let mut book = L3OrderBook::new();
    book.add_order(1, Side::Buy, 99, 10);
    book.add_order(2, Side::Buy, 101, 20);
    book.add_order(3, Side::Buy, 100, 30);
    book.add_order(4, Side::Sell, 105, 1);
    book.add_order(5, Side::Sell, 103, 2);
    book.add_order(6, Side::Sell, 104, 3);
    assert_eq!(book.get_best_bid(), Some((101, 20)));
    assert_eq!(book.get_best_ask(), Some((103, 2)));
    assert_eq!(book.spread(), Some(2));
}

#[test]
fn spread_needs_both_sides() {
    let mut book = L3OrderBook::new();
    book.add_order(1, Side::Buy, 99, 10);
    assert_eq!(book.spread(), None);
    let mut book = L3OrderBook::new();
    book.add_order(1, Side::Sell, 99, 10);
    assert_eq!(book.spread(), None);
}

#[test]
fn crossed_book_has_zero_spread() {
    let mut book = L3OrderBook::new();
    book.add_order(1, Side::Buy, 105, 10);
    book.add_order(2, Side::Sell, 100, 10);
    assert_eq!(book.spread(), Some(0));
}

#[test]
fn cancel_undoes_add() {
    let mut book = L3OrderBook::new();
    book.add_order(1, Side::Buy, 100, 10);
    book.add_order(2, Side::Sell, 101, 4);
    let orders_before = book.orders.clone();
    let bids_before = book.bids.clone();
    let asks_before = book.asks.clone();
    book.add_order(3, Side::Buy, 100, 25);
    book.cancel_order(3, 25);
    assert_eq!(book.orders, orders_before);
    assert_eq!(book.bids, bids_before);
    assert_eq!(book.asks, asks_before);
    // The same at a price with no level before.
    book.add_order(4, Side::Sell, 107, 3);
    book.cancel_order(4, u32::MAX);
    assert_eq!(book.orders, orders_before);
    assert_eq!(book.asks, asks_before);
}

#[test]
fn levels_stay_equal_to_resting_totals() {
    let mut book = L3OrderBook::new();
    book.add_order(1, Side::Buy, 100, 10);
    book.add_order(2, Side::Buy, 100, 15);
    book.add_order(3, Side::Sell, 102, 8);
    book.add_order(4, Side::Buy, 99, 0);
    book.cancel_order(2, 5);
    book.cancel_order(3, 8);
    book.cancel_order(4, 0);
    book.cancel_order(1, 3);
    for side in [Side::Buy, Side::Sell] {
        for price in [99u64, 100, 102] {
            let levels = if side == Side::Buy { &book.bids } else { &book.asks };
            let level = levels.get(&price).copied().unwrap_or(0) as u64;
            assert_eq!(level, level_sum(&book, side, price));
        }
    }
    assert_eq!(book.bids.get(&100), Some(&17));
    assert!(book.asks.is_empty());
}

#[test]
fn resting_orders_show_in_their_levels() {
    let mut book = L3OrderBook::new();
    book.add_order(1, Side::Buy, 100, 10);
    book.add_order(2, Side::Buy, 98, 5);
    book.add_order(3, Side::Sell, 110, 4);
    let (best_bid, _) = book.get_best_bid().unwrap();
    let (best_ask, _) = book.get_best_ask().unwrap();
    for o in book.orders.values() {
        match o.side {
            Side::Buy => {
                assert!(o.price <= best_bid);
                assert!(*book.bids.get(&o.price).unwrap() >= o.quantity);
            }
            Side::Sell => {
                assert!(o.price >= best_ask);
                assert!(*book.asks.get(&o.price).unwrap() >= o.quantity);
            }
        }
    }
}

#[test]
fn shares_ahead_is_the_quantity_queued_ahead() {
    let mut book = L3OrderBook::new();
    book.add_order(1, Side::Buy, 150, 50);
    book.add_order(2, Side::Buy, 150, 30);
    book.add_order(3, Side::Sell, 150, 40);
    book.add_order(4, Side::Buy, 150, 20);
    book.add_order(5, Side::Buy, 151, 10);
    book.add_order(6, Side::Buy, 150, 5);
    book.cancel_order(2, 12);
    book.cancel_order(1, 50);
    book.cancel_order(5, 10);
    book.cancel_order(4, 3);
    for (&id, o) in book.orders.iter() {
        let queued: u64 = book
            .orders
            .iter()
            .filter(|(&j, p)| j < id && p.side == o.side && p.price == o.price)
            .map(|(_, p)| p.quantity as u64)
            .sum();
        assert_eq!(o.shares_ahead as u64, queued);
    }
    assert_eq!(book.orders[&6].shares_ahead, 18 + 17);
}
