//! What each event does to a symbol's book and what its snapshot row
//! records, stated field by field.
use vstd::prelude::*;
use crate::common::Side;
use crate::itch::ItchMessageView;
use crate::orderbook::{BookView, is_greatest_key, is_least_key, level_total};
use crate::processor::{SnapshotRow, event_outcome, highest_or_zero, lowest_or_zero, snapshot_row};

verus! {

/// `bid` and `ask` are the best prices of `b`: the highest bid and the
/// lowest ask, each zero when its side has no level.
pub open spec fn quotes_best(b: BookView, bid: u64, ask: u64) -> bool {
    &&& ((forall|k: u64| !b.bids.contains_key(k)) ==> bid == 0)
    &&& forall|k: u64|
        #[trigger] b.bids.contains_key(k) ==> b.bids.contains_key(bid) && k <= bid
    &&& ((forall|k: u64| !b.asks.contains_key(k)) ==> ask == 0)
    &&& forall|k: u64|
        #[trigger] b.asks.contains_key(k) ==> b.asks.contains_key(ask) && ask <= k
}

proof fn lemma_greatest_exists(s: Set<u64>)
    requires
        s.finite(),
        s.len() > 0,
    ensures
        exists|k: u64| s.contains(k) && forall|j: u64| #[trigger] s.contains(j) ==> j <= k,
    decreases s.len(),
{
    let x = s.choose();
    let r = s.remove(x);
    if r.len() == 0 {
        assert forall|j: u64| #[trigger] s.contains(j) implies j <= x by {
            if j != x {
                assert(r.contains(j));
            }
        }
    } else {
        lemma_greatest_exists(r);
        let k = choose|k: u64| r.contains(k) && forall|j: u64| #[trigger] r.contains(j) ==> j <= k;
        if x > k {
            assert forall|j: u64| #[trigger] s.contains(j) implies j <= x by {
                if j != x {
                    assert(r.contains(j));
                }
            }
        } else {
            assert forall|j: u64| #[trigger] s.contains(j) implies j <= k by {
                if j != x {
                    assert(r.contains(j));
                }
            }
        }
    }
}

proof fn lemma_least_exists(s: Set<u64>)
    requires
        s.finite(),
        s.len() > 0,
    ensures
        exists|k: u64| s.contains(k) && forall|j: u64| #[trigger] s.contains(j) ==> k <= j,
    decreases s.len(),
{
    let x = s.choose();
    let r = s.remove(x);
    if r.len() == 0 {
        assert forall|j: u64| #[trigger] s.contains(j) implies x <= j by {
            if j != x {
                assert(r.contains(j));
            }
        }
    } else {
        lemma_least_exists(r);
        let k = choose|k: u64| r.contains(k) && forall|j: u64| #[trigger] r.contains(j) ==> k <= j;
        if x < k {
            assert forall|j: u64| #[trigger] s.contains(j) implies x <= j by {
                if j != x {
                    assert(r.contains(j));
                }
            }
        } else {
            assert forall|j: u64| #[trigger] s.contains(j) implies k <= j by {
                if j != x {
                    assert(r.contains(j));
                }
            }
        }
    }
}

proof fn lemma_best_prices(b: BookView)
    requires
        b.bids.dom().finite(),
        b.asks.dom().finite(),
    ensures
        quotes_best(b, highest_or_zero(b.bids), lowest_or_zero(b.asks)),
{
    if exists|k: u64| b.bids.contains_key(k) {
        let k0 = choose|k: u64| b.bids.contains_key(k);
        assert(b.bids.dom().contains(k0));
        lemma_greatest_exists(b.bids.dom());
        let g = choose|g: u64|
            b.bids.dom().contains(g) && forall|j: u64| #[trigger] b.bids.dom().contains(j) ==> j <= g;
        assert(b.bids.contains_key(g) && forall|j: u64| #[trigger] b.bids.contains_key(j) ==> j <= g);
        assert(is_greatest_key(b.bids, g));
        let h = highest_or_zero(b.bids);
        assert(is_greatest_key(b.bids, h));
    } else {
        assert(!exists|k: u64| is_greatest_key(b.bids, k));
    }
    if exists|k: u64| b.asks.contains_key(k) {
        let k0 = choose|k: u64| b.asks.contains_key(k);
        assert(b.asks.dom().contains(k0));
        lemma_least_exists(b.asks.dom());
        let g = choose|g: u64|
            b.asks.dom().contains(g) && forall|j: u64| #[trigger] b.asks.dom().contains(j) ==> g <= j;
        assert(b.asks.contains_key(g) && forall|j: u64| #[trigger] b.asks.contains_key(j) ==> g <= j);
        assert(is_least_key(b.asks, g));
        let h = lowest_or_zero(b.asks);
        assert(is_least_key(b.asks, h));
    } else {
        assert(!exists|k: u64| is_least_key(b.asks, k));
    }
}

/// A snapshot carries the event's fields as given (the timestamp as `i64`,
/// the message type as its byte) and quotes the best prices of the book it
/// is taken of: the highest bid and the lowest ask, zero for an empty side.
pub proof fn law_snapshot_quotes_best_prices(
    ts: u64,
    msg_type: char,
    side: i8,
    price: u64,
    quantity: u32,
    ahead: u32,
    book: BookView,
)
    requires
        book.bids.dom().finite(),
        book.asks.dom().finite(),
    ensures
        ({
            let r = snapshot_row(ts, msg_type, side, price, quantity, ahead, book);
            &&& r.timestamp == ts as i64
            &&& r.msg_type == msg_type as i8
            &&& r.side == side
            &&& r.price == price
            &&& r.quantity == quantity
            &&& r.shares_ahead == ahead
            &&& quotes_best(book, r.bid_price, r.ask_price)
        }),
{
    lemma_best_prices(book);
}

/// The code a snapshot records for a side: 0 for buy, 1 for sell.
pub open spec fn side_code(side: Side) -> i8 {
    if side == Side::Buy {
        0
    } else {
        1
    }
}

/// What each event does to the book: an add enters the order; a reduction
/// and either kind of execution cancel the message's shares of the order (an
/// execution leaves the rest of the order resting); a delete cancels all of
/// the order; a replace cancels all of the old order and enters the new one
/// on the same side; a directory entry changes nothing, and neither does an
/// event naming an order that is not in the book.
pub proof fn law_event_book_effect(book: BookView, m: ItchMessageView)
    ensures
        ({
            let after = event_outcome(book, m).0;
            match m {
                ItchMessageView::AddOrder { order_id, side, quantity, price, .. } => after
                    == book.after_add(order_id, side, price, quantity),
                ItchMessageView::ModifyOrder { order_id, quantity_to_remove, .. } => after
                    == book.after_cancel(order_id, quantity_to_remove),
                ItchMessageView::DeleteOrder { order_id, .. } => after == (if book.orders.contains_key(
                    order_id,
                ) {
                    book.after_cancel(order_id, book.orders[order_id].quantity)
                } else {
                    book
                }),
                ItchMessageView::OrderExecuted { order_id, quantity, .. } => after == book.after_cancel(
                    order_id,
                    quantity,
                ),
                ItchMessageView::OrderExecutedWithPrice { order_id, quantity, .. } => after
                    == book.after_cancel(order_id, quantity),
                ItchMessageView::OrderReplaced {
                    old_order_id,
                    new_order_id,
                    quantity,
                    price,
                    ..
                } => after == (if book.orders.contains_key(old_order_id) {
                    book.after_cancel(old_order_id, book.orders[old_order_id].quantity).after_add(
                        new_order_id,
                        book.orders[old_order_id].side,
                        price,
                        quantity,
                    )
                } else {
                    book
                }),
                ItchMessageView::StockDirectory { .. } => after == book,
            }
        }),
{
}

/// The row each event records, field by field. An add records 'A', its
/// side, price and shares, and as shares ahead the quantity that was at its
/// level before it. A reduction records 'X' and the shares removed, with
/// the order's side, price and shares ahead (all zero when the order is
/// unknown). A delete records 'D' and the order's side, price, shares and
/// shares ahead. An execution records 'E' (or 'C' with a price), the side
/// that took the liquidity (the opposite of the resting order's), the
/// resting price ('E') or the message's price ('C'), the executed shares and
/// the order's shares ahead. A replace records 'U', the old order's side, the
/// new price and shares, and as shares ahead the quantity at that level once
/// the old order has gone. Deletes, executions and replaces of unknown orders
/// and directory entries record nothing. Every row carries the message's
/// timestamp and quotes the best bid and ask of the book after the event.
pub proof fn law_event_rows(book: BookView, m: ItchMessageView)
    requires
        book.bids.dom().finite(),
        book.asks.dom().finite(),
    ensures
        ({
            let (after, row) = event_outcome(book, m);
            &&& row matches Some(r) ==> quotes_best(after, r.bid_price, r.ask_price)
            &&& match m {
                ItchMessageView::AddOrder { side, quantity, price, timestamp, .. } => row matches Some(
                    r,
                ) && r.timestamp == timestamp as i64 && r.msg_type == 0x41 && r.side == side_code(side)
                    && r.price == price && r.quantity == quantity && r.shares_ahead == level_total(
                    book.levels(side),
                    price,
                ),
                ItchMessageView::ModifyOrder { order_id, quantity_to_remove, timestamp, .. } => {
                    &&& row matches Some(r)
                    &&& row->0.timestamp == timestamp as i64
                    &&& row->0.msg_type == 0x58
                    &&& row->0.quantity == quantity_to_remove
                    &&& if book.orders.contains_key(order_id) {
                        let o = book.orders[order_id];
                        &&& row->0.side == side_code(o.side)
                        &&& row->0.price == o.price
                        &&& row->0.shares_ahead == o.shares_ahead
                    } else {
                        &&& row->0.side == 0
                        &&& row->0.price == 0
                        &&& row->0.shares_ahead == 0
                    }
                },
                ItchMessageView::DeleteOrder { order_id, timestamp, .. } => {
                    &&& (row is Some) == book.orders.contains_key(order_id)
                    &&& row matches Some(r) ==> {
                        let o = book.orders[order_id];
                        &&& r.timestamp == timestamp as i64
                        &&& r.msg_type == 0x44
                        &&& r.side == side_code(o.side)
                        &&& r.price == o.price
                        &&& r.quantity == o.quantity
                        &&& r.shares_ahead == o.shares_ahead
                    }
                },
                ItchMessageView::OrderExecuted { order_id, quantity, timestamp, .. } => {
                    &&& (row is Some) == book.orders.contains_key(order_id)
                    &&& row matches Some(r) ==> {
                        let o = book.orders[order_id];
                        &&& r.timestamp == timestamp as i64
                        &&& r.msg_type == 0x45
                        &&& r.side == 1 - side_code(o.side)
                        &&& r.price == o.price
                        &&& r.quantity == quantity
                        &&& r.shares_ahead == o.shares_ahead
                    }
                },
                ItchMessageView::OrderExecutedWithPrice { order_id, quantity, price, timestamp, .. } => {
                    &&& (row is Some) == book.orders.contains_key(order_id)
                    &&& row matches Some(r) ==> {
                        let o = book.orders[order_id];
                        &&& r.timestamp == timestamp as i64
                        &&& r.msg_type == 0x43
                        &&& r.side == 1 - side_code(o.side)
                        &&& r.price == price
                        &&& r.quantity == quantity
                        &&& r.shares_ahead == o.shares_ahead
                    }
                },
                ItchMessageView::OrderReplaced { old_order_id, quantity, price, timestamp, .. } => {
                    &&& (row is Some) == book.orders.contains_key(old_order_id)
                    &&& row matches Some(r) ==> {
                        let o = book.orders[old_order_id];
                        &&& r.timestamp == timestamp as i64
                        &&& r.msg_type == 0x55
                        &&& r.side == side_code(o.side)
                        &&& r.price == price
                        &&& r.quantity == quantity
                        &&& r.shares_ahead == level_total(
                            book.after_cancel(old_order_id, o.quantity).levels(o.side),
                            price,
                        )
                    }
                },
                ItchMessageView::StockDirectory { .. } => row is None,
            }
        }),
{
    let after = event_outcome(book, m).0;
    assert(after.bids.dom().finite() && after.asks.dom().finite()) by {
        lemma_outcome_levels_finite(book, m);
    }
    lemma_best_prices(after);
}

proof fn lemma_outcome_levels_finite(book: BookView, m: ItchMessageView)
    requires
        book.bids.dom().finite(),
        book.asks.dom().finite(),
    ensures
        event_outcome(book, m).0.bids.dom().finite(),
        event_outcome(book, m).0.asks.dom().finite(),
{
    match m {
        ItchMessageView::OrderReplaced { old_order_id, .. } => {
            if book.orders.contains_key(old_order_id) {
                let mid = book.after_cancel(old_order_id, book.orders[old_order_id].quantity);
                assert(mid.bids.dom().finite() && mid.asks.dom().finite());
            }
        },
        _ => {},
    }
}

} // verus!
