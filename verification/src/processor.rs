//! One tracked symbol: its order book, and the snapshot rows taken after
//! each event that touched it, held column by column until they are flushed.
use vstd::prelude::*;
use crate::columns::{
    i64_column, i64_values, i8_column, i8_values, u32_column, u32_values, u64_column, u64_values,
    I64Column, I64Values, I8Column, I8Values, U32Column, U32Values, U64Column, U64Values,
};
use crate::common::{AggressorSide, Side};
use crate::itch::{ItchMessage, ItchMessageView};
use crate::orderbook::{BookView, L3OrderBook, is_greatest_key, is_least_key, level_total, quantity_at};
use crate::book_laws::{
    law_add_keeps_levels_consistent, law_add_keeps_queue_exact, law_cancel_keeps_levels_consistent,
    law_cancel_keeps_queue_exact,
};

verus! {

/// How many snapshot rows a processor holds before they are due to be flushed.
pub const FLUSH_ROWS: usize = 1024;

/// One snapshot: the event's fields and the best prices after it.
pub struct SnapshotRow {
    pub timestamp: i64,
    pub msg_type: i8,
    pub side: i8,
    pub price: u64,
    pub quantity: u32,
    pub shares_ahead: u32,
    pub bid_price: u64,
    pub ask_price: u64,
}

/// The snapshot columns, as sequences.
#[verifier::ext_equal]
pub struct SnapshotColumns {
    pub timestamps: Seq<i64>,
    pub msg_types: Seq<i8>,
    pub sides: Seq<i8>,
    pub prices: Seq<u64>,
    pub quantities: Seq<u32>,
    pub shares_ahead: Seq<u32>,
    pub bid_prices: Seq<u64>,
    pub ask_prices: Seq<u64>,
}

impl SnapshotColumns {
    /// No column holds anything.
    pub open spec fn empty() -> SnapshotColumns {
        SnapshotColumns {
            timestamps: Seq::empty(),
            msg_types: Seq::empty(),
            sides: Seq::empty(),
            prices: Seq::empty(),
            quantities: Seq::empty(),
            shares_ahead: Seq::empty(),
            bid_prices: Seq::empty(),
            ask_prices: Seq::empty(),
        }
    }

    /// Every column holds as many values as the timestamp column.
    pub open spec fn aligned(self) -> bool {
        let n = self.timestamps.len();
        &&& self.msg_types.len() == n
        &&& self.sides.len() == n
        &&& self.prices.len() == n
        &&& self.quantities.len() == n
        &&& self.shares_ahead.len() == n
        &&& self.bid_prices.len() == n
        &&& self.ask_prices.len() == n
    }

    /// The columns with `r` appended, one field to each.
    pub open spec fn push_row(self, r: SnapshotRow) -> SnapshotColumns {
        SnapshotColumns {
            timestamps: self.timestamps.push(r.timestamp),
            msg_types: self.msg_types.push(r.msg_type),
            sides: self.sides.push(r.side),
            prices: self.prices.push(r.price),
            quantities: self.quantities.push(r.quantity),
            shares_ahead: self.shares_ahead.push(r.shares_ahead),
            bid_prices: self.bid_prices.push(r.bid_price),
            ask_prices: self.ask_prices.push(r.ask_price),
        }
    }

    /// Row `i`, read across the columns.
    pub open spec fn row(self, i: int) -> SnapshotRow {
        SnapshotRow {
            timestamp: self.timestamps[i],
            msg_type: self.msg_types[i],
            side: self.sides[i],
            price: self.prices[i],
            quantity: self.quantities[i],
            shares_ahead: self.shares_ahead[i],
            bid_price: self.bid_prices[i],
            ask_price: self.ask_prices[i],
        }
    }

    /// The rows, in the order they were taken.
    pub open spec fn rows(self) -> Seq<SnapshotRow> {
        Seq::new(self.timestamps.len(), |i: int| self.row(i))
    }
}

/// The highest price in `levels`, or zero when there is none.
pub open spec fn highest_or_zero(levels: Map<u64, u32>) -> u64 {
    if exists|k: u64| is_greatest_key(levels, k) {
        choose|k: u64| is_greatest_key(levels, k)
    } else {
        0
    }
}

/// The lowest price in `levels`, or zero when there is none.
pub open spec fn lowest_or_zero(levels: Map<u64, u32>) -> u64 {
    if exists|k: u64| is_least_key(levels, k) {
        choose|k: u64| is_least_key(levels, k)
    } else {
        0
    }
}

proof fn lemma_highest_or_zero(levels: Map<u64, u32>, best: Option<(u64, u32)>)
    requires
        match best {
            Some((p, q)) => is_greatest_key(levels, p),
            None => levels =~= Map::<u64, u32>::empty(),
        },
    ensures
        highest_or_zero(levels) == match best {
            Some((p, _)) => p,
            None => 0,
        },
{
    if exists|k: u64| is_greatest_key(levels, k) {
        let k = choose|k: u64| is_greatest_key(levels, k);
        assert(levels.contains_key(k));
        match best {
            Some((p, _)) => {
                assert(levels.contains_key(p));
            },
            None => {},
        }
    }
}

proof fn lemma_lowest_or_zero(levels: Map<u64, u32>, best: Option<(u64, u32)>)
    requires
        match best {
            Some((p, q)) => is_least_key(levels, p),
            None => levels =~= Map::<u64, u32>::empty(),
        },
    ensures
        lowest_or_zero(levels) == match best {
            Some((p, _)) => p,
            None => 0,
        },
{
    if exists|k: u64| is_least_key(levels, k) {
        let k = choose|k: u64| is_least_key(levels, k);
        assert(levels.contains_key(k));
        match best {
            Some((p, _)) => {
                assert(levels.contains_key(p));
            },
            None => {},
        }
    }
}

/// The row that a snapshot of `book` takes for an event with these fields.
pub open spec fn snapshot_row(
    ts: u64,
    msg_type: char,
    side: i8,
    price: u64,
    quantity: u32,
    ahead: u32,
    book: BookView,
) -> SnapshotRow {
    SnapshotRow {
        timestamp: ts as i64,
        msg_type: msg_type as i8,
        side,
        price,
        quantity,
        shares_ahead: ahead,
        bid_price: highest_or_zero(book.bids),
        ask_price: lowest_or_zero(book.asks),
    }
}

/// The side that takes liquidity from an order resting on `resting`.
pub open spec fn aggressor_of(resting: Side) -> AggressorSide {
    match resting {
        Side::Buy => AggressorSide::Seller,
        Side::Sell => AggressorSide::Buyer,
    }
}

/// What an event does to `book`, and the snapshot row it takes, if any.
/// An add or a reduction always takes one; a delete, an execution or a
/// replace takes one only when its order is in the book; a directory entry
/// never does. An execution with a price removes liquidity from the resting
/// order but records the trade at the message's price.
pub open spec fn event_outcome(book: BookView, m: ItchMessageView) -> (BookView, Option<SnapshotRow>) {
    match m {
        ItchMessageView::AddOrder { order_id, side, quantity, price, timestamp, .. } => {
            let after = book.after_add(order_id, side, price, quantity);
            let ahead = after.orders[order_id].shares_ahead;
            (after, Some(snapshot_row(timestamp, 'A', side as i8, price, quantity, ahead, after)))
        },
        ItchMessageView::ModifyOrder { order_id, quantity_to_remove, timestamp, .. } => {
            let after = book.after_cancel(order_id, quantity_to_remove);
            if book.orders.contains_key(order_id) {
                let o = book.orders[order_id];
                (
                    after,
                    Some(
                        snapshot_row(
                            timestamp,
                            'X',
                            o.side as i8,
                            o.price,
                            quantity_to_remove,
                            o.shares_ahead,
                            after,
                        ),
                    ),
                )
            } else {
                (after, Some(snapshot_row(timestamp, 'X', 0, 0, quantity_to_remove, 0, after)))
            }
        },
        ItchMessageView::DeleteOrder { order_id, timestamp, .. } => {
            if book.orders.contains_key(order_id) {
                let o = book.orders[order_id];
                let after = book.after_cancel(order_id, o.quantity);
                (
                    after,
                    Some(
                        snapshot_row(
                            timestamp,
                            'D',
                            o.side as i8,
                            o.price,
                            o.quantity,
                            o.shares_ahead,
                            after,
                        ),
                    ),
                )
            } else {
                (book, None)
            }
        },
        ItchMessageView::OrderExecuted { order_id, quantity, timestamp, .. } => {
            if book.orders.contains_key(order_id) {
                let o = book.orders[order_id];
                let after = book.after_cancel(order_id, quantity);
                (
                    after,
                    Some(
                        snapshot_row(
                            timestamp,
                            'E',
                            aggressor_of(o.side) as i8,
                            o.price,
                            quantity,
                            o.shares_ahead,
                            after,
                        ),
                    ),
                )
            } else {
                (book, None)
            }
        },
        ItchMessageView::OrderExecutedWithPrice { order_id, quantity, price, timestamp, .. } => {
            if book.orders.contains_key(order_id) {
                let o = book.orders[order_id];
                let after = book.after_cancel(order_id, quantity);
                (
                    after,
                    Some(
                        snapshot_row(
                            timestamp,
                            'C',
                            aggressor_of(o.side) as i8,
                            price,
                            quantity,
                            o.shares_ahead,
                            after,
                        ),
                    ),
                )
            } else {
                (book, None)
            }
        },
        ItchMessageView::OrderReplaced {
            old_order_id,
            new_order_id,
            quantity,
            price,
            timestamp,
            ..
        } => {
            if book.orders.contains_key(old_order_id) {
                let o = book.orders[old_order_id];
                let after = book.after_cancel(old_order_id, o.quantity).after_add(
                    new_order_id,
                    o.side,
                    price,
                    quantity,
                );
                let ahead = after.orders[new_order_id].shares_ahead;
                (
                    after,
                    Some(snapshot_row(timestamp, 'U', o.side as i8, price, quantity, ahead, after)),
                )
            } else {
                (book, None)
            }
        },
        ItchMessageView::StockDirectory { .. } => (book, None),
    }
}

/// The event adds no level past `u32::MAX`.
pub open spec fn event_fits(book: BookView, m: ItchMessageView) -> bool {
    match m {
        ItchMessageView::AddOrder { side, quantity, price, .. } => book.add_fits(
            side,
            price,
            quantity,
        ),
        ItchMessageView::OrderReplaced { old_order_id, quantity, price, .. } => {
            book.orders.contains_key(old_order_id) ==> {
                let o = book.orders[old_order_id];
                book.after_cancel(old_order_id, o.quantity).add_fits(o.side, price, quantity)
            }
        },
        _ => true,
    }
}

/// `after` is `before` once event `m` has been handled, and `flush_due`
/// tells whether a snapshot was taken and the rows have reached [`FLUSH_ROWS`].
pub open spec fn handled(
    before: SymbolProcessor,
    m: ItchMessageView,
    after: SymbolProcessor,
    flush_due: bool,
) -> bool {
    let outcome = event_outcome(before.order_book@, m);
    &&& after.order_book@ == outcome.0
    &&& after.columns() == (match outcome.1 {
        Some(r) => before.columns().push_row(r),
        None => before.columns(),
    })
    &&& after.counter == before.counter + (if outcome.1 is Some {
        1int
    } else {
        0int
    })
    &&& flush_due == (outcome.1 is Some && after.columns().timestamps.len() >= FLUSH_ROWS)
    &&& after.symbol == before.symbol
    &&& after.stock_locate == before.stock_locate
}

/// `p` can take event `m`: no level overflows, and when the event takes a
/// snapshot the counter has room for it.
pub open spec fn accepts(p: SymbolProcessor, m: ItchMessageView) -> bool {
    &&& event_fits(p.order_book@, m)
    &&& (event_outcome(p.order_book@, m).1 is Some ==> p.counter < u32::MAX)
}

/// The book and the snapshot columns of one tracked symbol.
pub struct SymbolProcessor {
    pub symbol: String,
    pub stock_locate: u16,
    pub order_book: L3OrderBook,
    pub timestamp_builder: I64Column,
    pub msg_type_builder: I8Column,
    pub side_builder: I8Column,
    pub price_builder: U64Column,
    pub qty_builder: U32Column,
    pub ahead_builder: U32Column,
    pub bid_builder: U64Column,
    pub ask_builder: U64Column,
    /// The number of snapshots taken.
    pub counter: u32,
}

/// Snapshot columns taken out of a processor, ready to be written.
pub struct SnapshotBatch {
    pub timestamp: I64Values,
    pub msg_type: I8Values,
    pub side: I8Values,
    pub price: U64Values,
    pub qty: U32Values,
    pub ahead: U32Values,
    pub bid: U64Values,
    pub ask: U64Values,
}

impl SnapshotBatch {
    /// The columns of the batch, as sequences.
    pub open spec fn columns(self) -> SnapshotColumns {
        SnapshotColumns {
            timestamps: i64_values(self.timestamp),
            msg_types: i8_values(self.msg_type),
            sides: i8_values(self.side),
            prices: u64_values(self.price),
            quantities: u32_values(self.qty),
            shares_ahead: u32_values(self.ahead),
            bid_prices: u64_values(self.bid),
            ask_prices: u64_values(self.ask),
        }
    }
}

impl SymbolProcessor {
    /// The snapshot columns held, as sequences.
    pub open spec fn columns(self) -> SnapshotColumns {
        SnapshotColumns {
            timestamps: i64_column(self.timestamp_builder),
            msg_types: i8_column(self.msg_type_builder),
            sides: i8_column(self.side_builder),
            prices: u64_column(self.price_builder),
            quantities: u32_column(self.qty_builder),
            shares_ahead: u32_column(self.ahead_builder),
            bid_prices: u64_column(self.bid_builder),
            ask_prices: u64_column(self.ask_builder),
        }
    }

    /// A processor for `symbol`, with an empty book, no rows and a zero
    /// counter; its stock locate is zero until the directory names it.
    pub fn new(symbol: String) -> (r: Self)
        ensures
            r.symbol@ == symbol@,
            r.stock_locate == 0,
            r.order_book@ == BookView::empty(),
            r.columns() == SnapshotColumns::empty(),
            r.counter == 0,
    {
        SymbolProcessor {
            symbol,
            stock_locate: 0,
            order_book: L3OrderBook::new(),
            timestamp_builder: I64Column::with_capacity(FLUSH_ROWS),
            msg_type_builder: I8Column::with_capacity(FLUSH_ROWS),
            side_builder: I8Column::with_capacity(FLUSH_ROWS),
            price_builder: U64Column::with_capacity(FLUSH_ROWS),
            qty_builder: U32Column::with_capacity(FLUSH_ROWS),
            ahead_builder: U32Column::with_capacity(FLUSH_ROWS),
            bid_builder: U64Column::with_capacity(FLUSH_ROWS),
            ask_builder: U64Column::with_capacity(FLUSH_ROWS),
            counter: 0,
        }
    }

    /// The number of snapshot rows held (the length of the timestamp column).
    pub fn pending_rows(&self) -> (r: usize)
        ensures
            r == self.columns().timestamps.len(),
    {
        self.timestamp_builder.len()
    }

    /// Takes a snapshot: appends one row with these fields and the current
    /// best bid and ask (zero for a side without levels). Returns whether the
    /// rows held have reached [`FLUSH_ROWS`] and are due to be flushed.
    pub fn record_snapshot(
        &mut self,
        ts: u64,
        msg_type: char,
        side: i8,
        price: u64,
        qty: u32,
        ahead: u32,
    ) -> (flush_due: bool)
        ensures
            final(self).columns() == old(self).columns().push_row(
                snapshot_row(ts, msg_type, side, price, qty, ahead, old(self).order_book@),
            ),
            final(self).order_book == old(self).order_book,
            final(self).symbol == old(self).symbol,
            final(self).stock_locate == old(self).stock_locate,
            final(self).counter == old(self).counter,
            flush_due == (final(self).columns().timestamps.len() >= FLUSH_ROWS),
    {
        self.timestamp_builder.append_value(ts as i64);
        self.msg_type_builder.append_value(msg_type as i8);
        self.side_builder.append_value(side);
        self.price_builder.append_value(price);
        self.qty_builder.append_value(qty);
        self.ahead_builder.append_value(ahead);
        let best_bid = self.order_book.get_best_bid();
        let bid = match best_bid {
            Some((p, _)) => p,
            None => 0,
        };
        let best_ask = self.order_book.get_best_ask();
        let ask = match best_ask {
            Some((p, _)) => p,
            None => 0,
        };
        proof {
            lemma_highest_or_zero(self.order_book@.bids, best_bid);
            lemma_lowest_or_zero(self.order_book@.asks, best_ask);
        }
        self.bid_builder.append_value(bid);
        self.ask_builder.append_value(ask);
        self.timestamp_builder.len() >= FLUSH_ROWS
    }

    /// Whether this processor can take event `msg` (see [`accepts`]).
    pub fn accepts_event(&self, msg: &ItchMessage) -> (r: bool)
        ensures
            r == accepts(*self, msg@),
    {
        let room = self.counter < u32::MAX;
        match msg {
            ItchMessage::AddOrder { side, quantity, price, .. } => {
                let current = match side {
                    Side::Buy => quantity_at(&self.order_book.bids, *price),
                    Side::Sell => quantity_at(&self.order_book.asks, *price),
                };
                (current as u64) + (*quantity as u64) <= u32::MAX as u64 && room
            },
            ItchMessage::ModifyOrder { .. } => room,
            ItchMessage::DeleteOrder { order_id, .. } | ItchMessage::OrderExecuted {
                order_id,
                ..
            } | ItchMessage::OrderExecutedWithPrice { order_id, .. } => {
                match self.order_book.orders.get(order_id) {
                    Some(_) => room,
                    None => true,
                }
            },
            ItchMessage::OrderReplaced { old_order_id, quantity, price, .. } => {
                match self.order_book.orders.get(old_order_id) {
                    Some(o) => {
                        let current = match o.side {
                            Side::Buy => quantity_at(&self.order_book.bids, *price),
                            Side::Sell => quantity_at(&self.order_book.asks, *price),
                        };
                        let remaining = if *price == o.price {
                            if o.quantity >= current {
                                0
                            } else {
                                current - o.quantity
                            }
                        } else {
                            current
                        };
                        proof {
                            let b = self.order_book@;
                            let after = b.after_cancel(*old_order_id, o.quantity);
                            assert(level_total(after.levels(o.side), *price) == remaining);
                        }
                        (remaining as u64) + (*quantity as u64) <= u32::MAX as u64 && room
                    },
                    None => true,
                }
            },
            ItchMessage::StockDirectory { .. } => true,
        }
    }

    /// Applies one event to the book and takes the snapshot that the event
    /// calls for (see [`event_outcome`]), counting it. Returns whether the
    /// rows held are due to be flushed.
    pub fn handle_event(&mut self, msg: ItchMessage) -> (flush_due: bool)
        requires
            accepts(*old(self), msg@),
        ensures
            handled(*old(self), msg@, *final(self), flush_due),
    {
        match msg {
            ItchMessage::AddOrder { stock_locate: _, order_id, side, quantity, price, timestamp } => {
                self.order_book.add_order(order_id, side, price, quantity);
                let ahead = match self.order_book.orders.get(&order_id) {
                    Some(o) => o.shares_ahead,
                    None => 0,
                };
                let due = self.record_snapshot(timestamp, 'A', side as i8, price, quantity, ahead);
                self.counter = self.counter + 1;
                due
            },
            ItchMessage::ModifyOrder { stock_locate: _, order_id, quantity_to_remove, timestamp } => {
                let mut ahead: u32 = 0;
                let mut price: u64 = 0;
                let mut side: i8 = 0;
                match self.order_book.orders.get(&order_id) {
                    Some(order) => {
                        ahead = order.shares_ahead;
                        price = order.price;
                        side = order.side as i8;
                    },
                    None => {},
                }
                self.order_book.cancel_order(order_id, quantity_to_remove);
                let due = self.record_snapshot(
                    timestamp,
                    'X',
                    side,
                    price,
                    quantity_to_remove,
                    ahead,
                );
                self.counter = self.counter + 1;
                due
            },
            ItchMessage::DeleteOrder { stock_locate: _, order_id, timestamp } => {
                let found = match self.order_book.orders.get(&order_id) {
                    Some(order) => Some(*order),
                    None => None,
                };
                match found {
                    Some(order) => {
                        let current_qty = order.quantity;
                        self.order_book.cancel_order(order_id, current_qty);
                        let due = self.record_snapshot(
                            timestamp,
                            'D',
                            order.side as i8,
                            order.price,
                            current_qty,
                            order.shares_ahead,
                        );
                        self.counter = self.counter + 1;
                        due
                    },
                    None => false,
                }
            },
            ItchMessage::OrderExecuted {
                stock_locate: _,
                order_id,
                quantity,
                match_number: _,
                timestamp,
            } => {
                let trade_info = match self.order_book.orders.get(&order_id) {
                    Some(order) => {
                        let side = match order.side {
                            Side::Buy => AggressorSide::Seller,
                            Side::Sell => AggressorSide::Buyer,
                        };
                        Some((order.price, side, order.shares_ahead))
                    },
                    None => None,
                };
                match trade_info {
                    Some((price, side, shares_ahead)) => {
                        self.order_book.cancel_order(order_id, quantity);
                        let due = self.record_snapshot(
                            timestamp,
                            'E',
                            side as i8,
                            price,
                            quantity,
                            shares_ahead,
                        );
                        self.counter = self.counter + 1;
                        due
                    },
                    None => false,
                }
            },
            ItchMessage::OrderExecutedWithPrice {
                stock_locate: _,
                order_id,
                quantity,
                price,
                match_number: _,
                timestamp,
            } => {
                let found = match self.order_book.orders.get(&order_id) {
                    Some(order) => Some(*order),
                    None => None,
                };
                match found {
                    Some(order) => {
                        let side = match order.side {
                            Side::Buy => AggressorSide::Seller,
                            Side::Sell => AggressorSide::Buyer,
                        };
                        self.order_book.cancel_order(order_id, quantity);
                        let due = self.record_snapshot(
                            timestamp,
                            'C',
                            side as i8,
                            price,
                            quantity,
                            order.shares_ahead,
                        );
                        self.counter = self.counter + 1;
                        due
                    },
                    None => false,
                }
            },
            ItchMessage::OrderReplaced {
                stock_locate: _,
                old_order_id,
                new_order_id,
                quantity,
                price,
                timestamp,
            } => {
                let found = match self.order_book.orders.get(&old_order_id) {
                    Some(order) => Some(*order),
                    None => None,
                };
                match found {
                    Some(orig_order) => {
                        let side = orig_order.side;
                        let old_total_qty = orig_order.quantity;
                        self.order_book.cancel_order(old_order_id, old_total_qty);
                        self.order_book.add_order(new_order_id, side, price, quantity);
                        let new_ahead = match self.order_book.orders.get(&new_order_id) {
                            Some(o) => o.shares_ahead,
                            None => 0,
                        };
                        let due = self.record_snapshot(
                            timestamp,
                            'U',
                            side as i8,
                            price,
                            quantity,
                            new_ahead,
                        );
                        self.counter = self.counter + 1;
                        due
                    },
                    None => false,
                }
            },
            ItchMessage::StockDirectory { .. } => false,
        }
    }

    /// Takes the rows held out as finished columns, leaving none behind.
    pub fn take_batch(&mut self) -> (batch: SnapshotBatch)
        ensures
            batch.columns() == old(self).columns(),
            final(self).columns() == SnapshotColumns::empty(),
            final(self).order_book == old(self).order_book,
            final(self).symbol == old(self).symbol,
            final(self).stock_locate == old(self).stock_locate,
            final(self).counter == old(self).counter,
    {
        SnapshotBatch {
            timestamp: self.timestamp_builder.finish(),
            msg_type: self.msg_type_builder.finish(),
            side: self.side_builder.finish(),
            price: self.price_builder.finish(),
            qty: self.qty_builder.finish(),
            ahead: self.ahead_builder.finish(),
            bid: self.bid_builder.finish(),
            ask: self.ask_builder.finish(),
        }
    }
}


/// The ids that an event enters are not in the book when it enters them: an
/// add names a new id, and a replacement names an id that is free once the
/// order it replaces has left.
pub open spec fn enters_fresh_ids(book: BookView, m: ItchMessageView) -> bool {
    match m {
        ItchMessageView::AddOrder { order_id, .. } => !book.orders.contains_key(order_id),
        ItchMessageView::OrderReplaced { old_order_id, new_order_id, .. } => book.orders.contains_key(
            old_order_id,
        ) ==> !book.after_cancel(old_order_id, book.orders[old_order_id].quantity).orders.contains_key(
            new_order_id,
        ),
        _ => true,
    }
}

/// Handling an event keeps every price level equal to the total of the
/// orders resting at it, as long as the event enters only fresh ids and
/// overflows no level.
pub proof fn law_events_keep_levels_consistent(book: BookView, m: ItchMessageView)
    requires
        book.consistent(),
        event_fits(book, m),
        enters_fresh_ids(book, m),
    ensures
        event_outcome(book, m).0.consistent(),
{
    match m {
        ItchMessageView::AddOrder { order_id, side, quantity, price, .. } => {
            law_add_keeps_levels_consistent(book, order_id, side, price, quantity);
        },
        ItchMessageView::ModifyOrder { order_id, quantity_to_remove, .. } => {
            law_cancel_keeps_levels_consistent(book, order_id, quantity_to_remove);
        },
        ItchMessageView::DeleteOrder { order_id, .. } => {
            if book.orders.contains_key(order_id) {
                law_cancel_keeps_levels_consistent(book, order_id, book.orders[order_id].quantity);
            }
        },
        ItchMessageView::OrderExecuted { order_id, quantity, .. } => {
            law_cancel_keeps_levels_consistent(book, order_id, quantity);
        },
        ItchMessageView::OrderExecutedWithPrice { order_id, quantity, .. } => {
            law_cancel_keeps_levels_consistent(book, order_id, quantity);
        },
        ItchMessageView::OrderReplaced { old_order_id, new_order_id, quantity, price, .. } => {
            if book.orders.contains_key(old_order_id) {
                let o = book.orders[old_order_id];
                law_cancel_keeps_levels_consistent(book, old_order_id, o.quantity);
                law_add_keeps_levels_consistent(
                    book.after_cancel(old_order_id, o.quantity),
                    new_order_id,
                    o.side,
                    price,
                    quantity,
                );
            }
        },
        ItchMessageView::StockDirectory { .. } => {},
    }
}

/// The ids that an event enters come in arrival order: each is greater than
/// every id in the book when it is entered.
pub open spec fn enters_increasing_ids(book: BookView, m: ItchMessageView) -> bool {
    match m {
        ItchMessageView::AddOrder { order_id, .. } => book.ids_below(order_id),
        ItchMessageView::OrderReplaced { old_order_id, new_order_id, .. } => book.orders.contains_key(
            old_order_id,
        ) ==> book.after_cancel(old_order_id, book.orders[old_order_id].quantity).ids_below(
            new_order_id,
        ),
        _ => true,
    }
}

/// With ids entered in arrival order, handling an event keeps every order's
/// shares ahead equal to the quantity queued ahead of it at its price on its
/// side (and keeps the levels consistent, which that rests on).
pub proof fn law_events_keep_queue_exact(book: BookView, m: ItchMessageView)
    requires
        book.consistent(),
        book.queue_exact(),
        event_fits(book, m),
        enters_increasing_ids(book, m),
    ensures
        event_outcome(book, m).0.consistent(),
        event_outcome(book, m).0.queue_exact(),
{
    match m {
        ItchMessageView::AddOrder { order_id, side, quantity, price, .. } => {
            law_add_keeps_levels_consistent(book, order_id, side, price, quantity);
            law_add_keeps_queue_exact(book, order_id, side, price, quantity);
        },
        ItchMessageView::ModifyOrder { order_id, quantity_to_remove, .. } => {
            law_cancel_keeps_levels_consistent(book, order_id, quantity_to_remove);
            law_cancel_keeps_queue_exact(book, order_id, quantity_to_remove);
        },
        ItchMessageView::DeleteOrder { order_id, .. } => {
            if book.orders.contains_key(order_id) {
                law_cancel_keeps_levels_consistent(book, order_id, book.orders[order_id].quantity);
                law_cancel_keeps_queue_exact(book, order_id, book.orders[order_id].quantity);
            }
        },
        ItchMessageView::OrderExecuted { order_id, quantity, .. } => {
            law_cancel_keeps_levels_consistent(book, order_id, quantity);
            law_cancel_keeps_queue_exact(book, order_id, quantity);
        },
        ItchMessageView::OrderExecutedWithPrice { order_id, quantity, .. } => {
            law_cancel_keeps_levels_consistent(book, order_id, quantity);
            law_cancel_keeps_queue_exact(book, order_id, quantity);
        },
        ItchMessageView::OrderReplaced { old_order_id, new_order_id, quantity, price, .. } => {
            if book.orders.contains_key(old_order_id) {
                let o = book.orders[old_order_id];
                let mid = book.after_cancel(old_order_id, o.quantity);
                law_cancel_keeps_levels_consistent(book, old_order_id, o.quantity);
                law_cancel_keeps_queue_exact(book, old_order_id, o.quantity);
                law_add_keeps_levels_consistent(mid, new_order_id, o.side, price, quantity);
                law_add_keeps_queue_exact(mid, new_order_id, o.side, price, quantity);
            }
        },
        ItchMessageView::StockDirectory { .. } => {},
    }
}

/// Handling an event counts exactly the snapshot rows it takes: the
/// counter and the rows held grow together, by one at most; the other
/// fields stay as they were; and a flush is due exactly when a row was
/// taken and the rows held have reached [`FLUSH_ROWS`]. The rows already
/// held are kept as they were.
pub proof fn law_handling_counts_its_rows(
    before: SymbolProcessor,
    m: ItchMessageView,
    after: SymbolProcessor,
    flush_due: bool,
)
    requires
        before.columns().aligned(),
        handled(before, m, after, flush_due),
    ensures
        after.counter - before.counter == after.columns().timestamps.len()
            - before.columns().timestamps.len(),
        0 <= after.counter - before.counter <= 1,
        forall|i: int|
            0 <= i < before.columns().timestamps.len() ==> after.columns().row(i)
                == before.columns().row(i),
        flush_due <==> (after.counter == before.counter + 1 && after.columns().timestamps.len()
            >= 1024),
        after.symbol == before.symbol,
        after.stock_locate == before.stock_locate,
{
}

/// Appending a snapshot row to aligned columns keeps them aligned, and the
/// rows read back are the earlier rows followed by the new one.
pub proof fn law_snapshot_appends_one_row(c: SnapshotColumns, r: SnapshotRow)
    requires
        c.aligned(),
    ensures
        c.push_row(r).aligned(),
        c.push_row(r).rows() == c.rows().push(r),
{
    let d = c.push_row(r);
    assert(d.rows() =~= c.rows().push(r)) by {
        assert forall|i: int| 0 <= i < d.timestamps.len() implies #[trigger] d.rows()[i] == c.rows().push(
            r,
        )[i] by {
            if i < c.timestamps.len() {
                assert(d.row(i) == c.row(i));
            }
        }
    }
}

/// Handling an event keeps a processor's columns aligned, so that the rows
/// it holds read back whole.
pub proof fn law_handling_keeps_columns_aligned(
    before: SymbolProcessor,
    m: ItchMessageView,
    after: SymbolProcessor,
    flush_due: bool,
)
    requires
        before.columns().aligned(),
        handled(before, m, after, flush_due),
    ensures
        after.columns().aligned(),
{
    match event_outcome(before.order_book@, m).1 {
        Some(r) => law_snapshot_appends_one_row(before.columns(), r),
        None => {},
    }
}

} // verus!
