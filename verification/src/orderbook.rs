//! A level-3 order book: every resting order by id, and the total quantity
//! resting at each price on each side.
use vstd::prelude::*;
use std::collections::{BTreeMap, HashMap};
use crate::common::Side;

verus! {

/// A resting order.
#[derive(Debug, Clone, Copy, PartialEq, Eq, Structural)]
pub struct Order {
    pub price: u64,
    pub quantity: u32,
    pub side: Side,
    /// The quantity resting ahead of it at its price on its side: the level's
    /// total when it arrived, less what has been cancelled in front of it since.
    pub shares_ahead: u32,
}

/// The book as maps: orders by id, and price levels (price to total
/// quantity) for bids and for asks.
#[verifier::ext_equal]
pub struct BookView {
    pub orders: Map<u64, Order>,
    pub bids: Map<u64, u32>,
    pub asks: Map<u64, u32>,
}

/// The quantity at `price` in `levels`, zero where there is no level.
pub open spec fn level_total(levels: Map<u64, u32>, price: u64) -> u32 {
    if levels.contains_key(price) {
        levels[price]
    } else {
        0
    }
}

/// `k` is the greatest key of `m`.
pub open spec fn is_greatest_key(m: Map<u64, u32>, k: u64) -> bool {
    m.contains_key(k) && forall|j: u64| #[trigger] m.contains_key(j) ==> j <= k
}

/// `k` is the least key of `m`.
pub open spec fn is_least_key(m: Map<u64, u32>, k: u64) -> bool {
    m.contains_key(k) && forall|j: u64| #[trigger] m.contains_key(j) ==> k <= j
}

/// The quantity that `o` contributes to the level of `side` at `price`.
pub open spec fn contribution(o: Order, side: Side, price: u64) -> int {
    if o.side == side && o.price == price {
        o.quantity as int
    } else {
        0
    }
}

/// The total quantity of the orders with ids in `ids` that rest on `side` at `price`.
pub open spec fn resting_sum(ids: Set<u64>, orders: Map<u64, Order>, side: Side, price: u64) -> int
    decreases ids.len(),
    when ids.finite()
{
    if ids.len() == 0 {
        0
    } else {
        let id = ids.choose();
        contribution(orders[id], side, price) + resting_sum(ids.remove(id), orders, side, price)
    }
}

/// Order `id` rests behind a cancelled order `cancelled` on `side` at `price`:
/// same side and price, and a greater id (ids are given in arrival order).
pub open spec fn rests_behind(o: Order, id: u64, cancelled: u64, side: Side, price: u64) -> bool {
    o.side == side && o.price == price && id > cancelled
}

/// `o` moved forward by `cut` shares: its shares ahead drop by `cut`, and
/// never below zero.
pub open spec fn moved_forward(o: Order, cut: u32) -> Order {
    Order {
        price: o.price,
        quantity: o.quantity,
        side: o.side,
        shares_ahead: if o.shares_ahead >= cut {
            (o.shares_ahead - cut) as u32
        } else {
            0
        },
    }
}

/// `orders` after `cut` shares of order `cancelled`, resting on `side` at
/// `price`, left the book: every order behind it moves forward by `cut`.
pub open spec fn slide_behind(
    orders: Map<u64, Order>,
    cancelled: u64,
    side: Side,
    price: u64,
    cut: u32,
) -> Map<u64, Order> {
    Map::new(
        |id: u64| orders.contains_key(id),
        |id: u64|
            if rests_behind(orders[id], id, cancelled, side, price) {
                moved_forward(orders[id], cut)
            } else {
                orders[id]
            },
    )
}

/// The ids in `orders` that are smaller than `id`: the orders that arrived
/// before it.
pub open spec fn ids_before(orders: Map<u64, Order>, id: u64) -> Set<u64> {
    orders.dom().filter(|j: u64| j < id)
}

/// The total quantity resting ahead of order `id`: the quantity of the
/// orders on its side at its price with smaller ids.
pub open spec fn queued_ahead(orders: Map<u64, Order>, id: u64) -> int {
    resting_sum(ids_before(orders, id), orders, orders[id].side, orders[id].price)
}

impl BookView {
    /// Every order's shares ahead is exactly the quantity queued ahead of it.
    pub open spec fn queue_exact(self) -> bool {
        forall|id: u64|
            #[trigger] self.orders.contains_key(id) ==> self.orders[id].shares_ahead == queued_ahead(
                self.orders,
                id,
            )
    }

    /// Every id in the book is smaller than `id`.
    pub open spec fn ids_below(self, id: u64) -> bool {
        forall|j: u64| #[trigger] self.orders.contains_key(j) ==> j < id
    }
}

impl BookView {
    /// A book with no orders and no levels.
    pub open spec fn empty() -> BookView {
        BookView { orders: Map::empty(), bids: Map::empty(), asks: Map::empty() }
    }

    /// The price levels of `side`.
    pub open spec fn levels(self, side: Side) -> Map<u64, u32> {
        match side {
            Side::Buy => self.bids,
            Side::Sell => self.asks,
        }
    }

    /// The book with the price levels of `side` replaced by `levels`.
    pub open spec fn with_levels(self, side: Side, levels: Map<u64, u32>) -> BookView {
        match side {
            Side::Buy => BookView { bids: levels, ..self },
            Side::Sell => BookView { asks: levels, ..self },
        }
    }

    /// Adding `quantity` to the level of `side` at `price` stays within `u32`.
    pub open spec fn add_fits(self, side: Side, price: u64, quantity: u32) -> bool {
        level_total(self.levels(side), price) + quantity <= u32::MAX
    }

    /// The book after an order `id` arrives: it records the quantity already
    /// resting at its price as shares ahead of it, and adds its quantity to
    /// that level. An order already under `id` is replaced.
    pub open spec fn after_add(self, id: u64, side: Side, price: u64, quantity: u32) -> BookView {
        let levels = self.levels(side);
        let ahead = level_total(levels, price);
        let order = Order { price, quantity, side, shares_ahead: ahead };
        BookView { orders: self.orders.insert(id, order), ..self }.with_levels(
            side,
            levels.insert(price, (ahead + quantity) as u32),
        )
    }

    /// The book after up to `quantity` of order `id` is cancelled: the order
    /// loses at most its own quantity and leaves the book at zero; the orders
    /// behind it at its price move forward by the amount cancelled; its level
    /// loses the same amount and leaves the book when that is all it held.
    /// Nothing changes when no order has that id.
    pub open spec fn after_cancel(self, id: u64, quantity: u32) -> BookView {
        if !self.orders.contains_key(id) {
            self
        } else {
            let o = self.orders[id];
            let cut: u32 = if quantity < o.quantity {
                quantity
            } else {
                o.quantity
            };
            let left = (o.quantity - cut) as u32;
            let own = if left == 0 {
                self.orders.remove(id)
            } else {
                self.orders.insert(
                    id,
                    Order { price: o.price, quantity: left, side: o.side, shares_ahead: o.shares_ahead },
                )
            };
            let orders = slide_behind(own, id, o.side, o.price, cut);
            let levels = self.levels(o.side);
            let new_levels = if levels.contains_key(o.price) {
                if cut >= levels[o.price] {
                    levels.remove(o.price)
                } else {
                    levels.insert(o.price, (levels[o.price] - cut) as u32)
                }
            } else {
                levels
            };
            BookView { orders, ..self }.with_levels(o.side, new_levels)
        }
    }

    /// Each level holds exactly the total quantity of the orders resting at
    /// it (a missing level counts as zero).
    pub open spec fn consistent(self) -> bool {
        &&& self.orders.dom().finite()
        &&& forall|side: Side, price: u64|
            #[trigger] level_total(self.levels(side), price) == resting_sum(
                self.orders.dom(),
                self.orders,
                side,
                price,
            )
    }
}

/// The order book.
pub struct L3OrderBook {
    pub orders: HashMap<u64, Order>,
    /// Price to total quantity; the best bid is the highest price.
    pub bids: BTreeMap<u64, u32>,
    /// Price to total quantity; the best ask is the lowest price.
    pub asks: BTreeMap<u64, u32>,
}

impl View for L3OrderBook {
    type V = BookView;

    open spec fn view(&self) -> BookView {
        BookView { orders: self.orders@, bids: self.bids@, asks: self.asks@ }
    }
}

/// Calls `BTreeMap::last_key_value`: the entry with the greatest key, or
/// `None` for an empty map.
#[verifier::external_body]
fn last_level(levels: &BTreeMap<u64, u32>) -> (r: Option<(u64, u32)>)
    ensures
        match r {
            Some((p, q)) => is_greatest_key(levels@, p) && levels@[p] == q,
            None => levels@ =~= Map::<u64, u32>::empty(),
        },
{
    match levels.last_key_value() {
        Some((p, q)) => Some((*p, *q)),
        None => None,
    }
}

/// Calls `BTreeMap::first_key_value`: the entry with the least key, or
/// `None` for an empty map.
#[verifier::external_body]
fn first_level(levels: &BTreeMap<u64, u32>) -> (r: Option<(u64, u32)>)
    ensures
        match r {
            Some((p, q)) => is_least_key(levels@, p) && levels@[p] == q,
            None => levels@ =~= Map::<u64, u32>::empty(),
        },
{
    match levels.first_key_value() {
        Some((p, q)) => Some((*p, *q)),
        None => None,
    }
}

pub(crate) fn quantity_at(levels: &BTreeMap<u64, u32>, price: u64) -> (r: u32)
    ensures
        r == level_total(levels@, price),
{
    match levels.get(&price) {
        Some(q) => *q,
        None => 0,
    }
}

fn add_to_level(levels: &mut BTreeMap<u64, u32>, price: u64, quantity: u32)
    requires
        level_total(old(levels)@, price) + quantity <= u32::MAX,
    ensures
        final(levels)@ == old(levels)@.insert(
            price,
            (level_total(old(levels)@, price) + quantity) as u32,
        ),
{
    let current = quantity_at(levels, price);
    levels.insert(price, current + quantity);
}

fn take_from_level(levels: &mut BTreeMap<u64, u32>, price: u64, cut: u32)
    ensures
        final(levels)@ == (if old(levels)@.contains_key(price) {
            if cut >= old(levels)@[price] {
                old(levels)@.remove(price)
            } else {
                old(levels)@.insert(price, (old(levels)@[price] - cut) as u32)
            }
        } else {
            old(levels)@
        }),
{
    match levels.get(&price) {
        Some(total) => {
            let total = *total;
            if cut >= total {
                levels.remove(&price);
            } else {
                levels.insert(price, total - cut);
            }
        },
        None => {},
    }
}

/// Moves every order behind order `cancelled` (same side and price, greater
/// id) forward by `cut` shares.
fn slide_orders_behind(
    orders: &mut HashMap<u64, Order>,
    cancelled: u64,
    side: Side,
    price: u64,
    cut: u32,
)
    ensures
        final(orders)@ == slide_behind(old(orders)@, cancelled, side, price, cut),
{
    let ghost before = orders@;
    if cut == 0 {
        proof {
            assert forall|id: u64| #[trigger] before.contains_key(id) implies moved_forward(
                before[id],
                0,
            ) == before[id] by {}
            assert(slide_behind(before, cancelled, side, price, cut) =~= before);
        }
        return ;
    }
    let mut moved: Vec<(u64, Order)> = Vec::new();
    for entry in it: orders.iter()
        invariant
            orders@ == before,
            forall|i: int|
                0 <= i < moved@.len() ==> {
                    let (k, v) = #[trigger] moved@[i];
                    &&& before.contains_key(k)
                    &&& rests_behind(before[k], k, cancelled, side, price)
                    &&& v == moved_forward(before[k], cut)
                },
            forall|j: int|
                0 <= j < it.seq().len() ==> before.contains_key(*(#[trigger] it.seq()[j]).0)
                    && before[*it.seq()[j].0] == *it.seq()[j].1,
            forall|k: u64|
                #[trigger] before.contains_key(k) && rests_behind(before[k], k, cancelled, side, price)
                    ==> (exists|i: int| 0 <= i < moved@.len() && (#[trigger] moved@[i]).0 == k)
                    || (exists|j: int|
                    it.index() <= j < it.seq().len() && *(#[trigger] it.seq()[j]).0 == k),
    {
        let ghost j0 = it.index();
        let ghost seq = it.seq();
        let ghost moved_before = moved@;
        assert(entry == seq[j0]);
        let (k, o) = entry;
        let behind = o.side == side && o.price == price && *k > cancelled;
        if behind {
            let shares_ahead = if o.shares_ahead >= cut {
                o.shares_ahead - cut
            } else {
                0
            };
            moved.push((*k, Order { price: o.price, quantity: o.quantity, side: o.side, shares_ahead }));
            proof {
                let last = moved@.len() - 1;
                assert(moved@[last].0 == *k);
            }
        }
        proof {
            assert(behind ==> moved@[moved@.len() - 1].0 == *k);
            assert(moved@.len() >= moved_before.len());
            assert(forall|i: int| 0 <= i < moved_before.len() ==> moved@[i] == moved_before[i]);
            assert(before.contains_key(*k) && before[*k] == *o);
            assert forall|kk: u64|
                #[trigger] before.contains_key(kk) && rests_behind(
                    before[kk],
                    kk,
                    cancelled,
                    side,
                    price,
                ) implies (exists|i: int| 0 <= i < moved@.len() && (#[trigger] moved@[i]).0 == kk)
                || (exists|j: int| j0 + 1 <= j < seq.len() && *(#[trigger] seq[j]).0 == kk) by {
                if exists|j: int| j0 <= j < seq.len() && *(#[trigger] seq[j]).0 == kk {
                    let j = choose|j: int| j0 <= j < seq.len() && *(#[trigger] seq[j]).0 == kk;
                    if j == j0 {
                        assert(kk == *k);
                        assert(behind);
                        let last = moved@.len() - 1;
                        assert(moved@[last].0 == kk);
                    } else {
                        assert(*seq[j].0 == kk);
                    }
                } else {
                    let i = choose|i: int|
                        0 <= i < moved_before.len() && (#[trigger] moved_before[i]).0 == kk;
                    assert(moved@[i] == moved_before[i]);
                }
            }
        }
    }
    let ghost all_moved = moved@;
    let n = moved.len();
    let mut i: usize = 0;
    while i < n
        invariant
            n == moved@.len(),
            moved@ == all_moved,
            i <= n,
            forall|q: int|
                0 <= q < all_moved.len() ==> {
                    let (k, v) = #[trigger] all_moved[q];
                    &&& before.contains_key(k)
                    &&& rests_behind(before[k], k, cancelled, side, price)
                    &&& v == moved_forward(before[k], cut)
                },
            orders@.dom() == before.dom(),
            forall|k: u64|
                #[trigger] orders@.contains_key(k) ==> orders@[k] == before[k] || (rests_behind(
                    before[k],
                    k,
                    cancelled,
                    side,
                    price,
                ) && orders@[k] == moved_forward(before[k], cut)),
            forall|q: int|
                0 <= q < i ==> orders@[(#[trigger] all_moved[q]).0] == all_moved[q].1,
        decreases n - i,
    {
        let (k, v) = moved[i];
        orders.insert(k, v);
        proof {
            assert(orders@.dom() =~= before.dom());
        }
        i = i + 1;
    }
    proof {
        let target = slide_behind(before, cancelled, side, price, cut);
        assert forall|k: u64| #[trigger] orders@.contains_key(k) implies orders@[k] == target[k] by {
            if rests_behind(before[k], k, cancelled, side, price) {
                let q = choose|q: int| 0 <= q < all_moved.len() && (#[trigger] all_moved[q]).0 == k;
                assert(orders@[all_moved[q].0] == all_moved[q].1);
            }
        }
        assert(orders@ =~= target);
    }
}

impl L3OrderBook {
    /// An empty book.
    pub fn new() -> (r: Self)
        ensures
            r@ == BookView::empty(),
            r@.consistent(),
            r@.queue_exact(),
    {
        let r = L3OrderBook { orders: HashMap::new(), bids: BTreeMap::new(), asks: BTreeMap::new() };
        proof {
            assert forall|side: Side, price: u64|
                #[trigger] level_total(r@.levels(side), price) == resting_sum(
                    r@.orders.dom(),
                    r@.orders,
                    side,
                    price,
                ) by {
                assert(r@.orders.dom().len() == 0);
            }
        }
        r
    }

    /// Enters order `id`: it records the quantity already at its price on its
    /// side as the shares ahead of it, and that level grows by its quantity.
    pub fn add_order(&mut self, id: u64, side: Side, price: u64, quantity: u32)
        requires
            old(self)@.add_fits(side, price, quantity),
        ensures
            final(self)@ == old(self)@.after_add(id, side, price, quantity),
    {
        let shares_ahead = match side {
            Side::Buy => quantity_at(&self.bids, price),
            Side::Sell => quantity_at(&self.asks, price),
        };
        let new_order = Order { price, quantity, side, shares_ahead };
        self.orders.insert(id, new_order);
        match side {
            Side::Buy => add_to_level(&mut self.bids, price, quantity),
            Side::Sell => add_to_level(&mut self.asks, price, quantity),
        }
    }

    /// Cancels up to `quantity_to_cancel` of order `id`: never more than the
    /// order holds; the order leaves the book at zero; every order behind it
    /// at its price (greater id) moves forward by the amount cancelled; and
    /// its level loses the same amount (and leaves the book when nothing
    /// would be left).
    pub fn cancel_order(&mut self, id: u64, quantity_to_cancel: u32)
        ensures
            final(self)@ == old(self)@.after_cancel(id, quantity_to_cancel),
    {
        let found = match self.orders.get(&id) {
            Some(o) => Some(*o),
            None => None,
        };
        let o = match found {
            Some(o) => o,
            None => {
                return ;
            },
        };
        let effective_cancel = if quantity_to_cancel < o.quantity {
            quantity_to_cancel
        } else {
            o.quantity
        };
        let left = o.quantity - effective_cancel;
        if left == 0 {
            self.orders.remove(&id);
        } else {
            self.orders.insert(
                id,
                Order { price: o.price, quantity: left, side: o.side, shares_ahead: o.shares_ahead },
            );
        }
        slide_orders_behind(&mut self.orders, id, o.side, o.price, effective_cancel);
        match o.side {
            Side::Buy => take_from_level(&mut self.bids, o.price, effective_cancel),
            Side::Sell => take_from_level(&mut self.asks, o.price, effective_cancel),
        }
    }

    /// The highest bid price and the quantity there; `None` with no bids.
    pub fn get_best_bid(&self) -> (r: Option<(u64, u32)>)
        ensures
            match r {
                Some((p, q)) => is_greatest_key(self@.bids, p) && self@.bids[p] == q,
                None => self@.bids =~= Map::<u64, u32>::empty(),
            },
    {
        last_level(&self.bids)
    }

    /// The lowest ask price and the quantity there; `None` with no asks.
    pub fn get_best_ask(&self) -> (r: Option<(u64, u32)>)
        ensures
            match r {
                Some((p, q)) => is_least_key(self@.asks, p) && self@.asks[p] == q,
                None => self@.asks =~= Map::<u64, u32>::empty(),
            },
    {
        first_level(&self.asks)
    }

    /// Best ask minus best bid, or zero when they cross; `None` unless both
    /// sides have a level.
    pub fn spread(&self) -> (r: Option<u64>)
        ensures
            match r {
                Some(s) => exists|bid: u64, ask: u64|
                    is_greatest_key(self@.bids, bid) && is_least_key(self@.asks, ask) && s == (if ask
                        >= bid {
                        ask - bid
                    } else {
                        0
                    }),
                None => self@.bids =~= Map::<u64, u32>::empty() || self@.asks =~= Map::<
                    u64,
                    u32,
                >::empty(),
            },
    {
        match (self.get_best_bid(), self.get_best_ask()) {
            (Some((bid, _)), Some((ask, _))) => Some(ask.saturating_sub(bid)),
            _ => None,
        }
    }
}

} // verus!
