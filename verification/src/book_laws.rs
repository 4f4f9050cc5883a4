//! What the order book's operations keep and undo, proved over [`BookView`].
use vstd::prelude::*;
use crate::common::Side;
use crate::orderbook::{
    BookView, Order, contribution, ids_before, level_total, moved_forward, queued_ahead, resting_sum,
    rests_behind, slide_behind,
};

verus! {

/// Taking one id out of a sum leaves its contribution out.
proof fn lemma_sum_remove(ids: Set<u64>, orders: Map<u64, Order>, side: Side, price: u64, a: u64)
    requires
        ids.finite(),
        ids.contains(a),
    ensures
        resting_sum(ids, orders, side, price) == contribution(orders[a], side, price)
            + resting_sum(ids.remove(a), orders, side, price),
    decreases ids.len(),
{
    let c = ids.choose();
    if c != a {
        lemma_sum_remove(ids.remove(c), orders, side, price, a);
        lemma_sum_remove(ids.remove(a), orders, side, price, c);
        assert(ids.remove(c).remove(a) =~= ids.remove(a).remove(c));
    }
}

/// A sum of quantities is never negative.
proof fn lemma_sum_nonnegative(ids: Set<u64>, orders: Map<u64, Order>, side: Side, price: u64)
    requires
        ids.finite(),
    ensures
        resting_sum(ids, orders, side, price) >= 0,
    decreases ids.len(),
{
    if ids.len() > 0 {
        let c = ids.choose();
        lemma_sum_nonnegative(ids.remove(c), orders, side, price);
    }
}

/// Sums over the same ids agree when the orders there contribute alike.
proof fn lemma_sum_agree(
    ids: Set<u64>,
    m1: Map<u64, Order>,
    m2: Map<u64, Order>,
    side: Side,
    price: u64,
)
    requires
        ids.finite(),
        forall|id: u64|
            ids.contains(id) ==> contribution(m1[id], side, price) == contribution(
                m2[id],
                side,
                price,
            ),
    ensures
        resting_sum(ids, m1, side, price) == resting_sum(ids, m2, side, price),
    decreases ids.len(),
{
    if ids.len() > 0 {
        let c = ids.choose();
        lemma_sum_agree(ids.remove(c), m1, m2, side, price);
    }
}

/// Moving orders forward changes no side, price or quantity, so no sum.
proof fn lemma_slide_keeps_sums(
    m: Map<u64, Order>,
    cancelled: u64,
    side: Side,
    price: u64,
    cut: u32,
    s: Side,
    p: u64,
)
    requires
        m.dom().finite(),
    ensures
        slide_behind(m, cancelled, side, price, cut).dom() == m.dom(),
        resting_sum(m.dom(), slide_behind(m, cancelled, side, price, cut), s, p) == resting_sum(
            m.dom(),
            m,
            s,
            p,
        ),
{
    let n = slide_behind(m, cancelled, side, price, cut);
    assert(n.dom() =~= m.dom());
    lemma_sum_agree(m.dom(), n, m, s, p);
}

/// The quantity of a resting order never exceeds the total at its level.
proof fn lemma_order_within_level(b: BookView, id: u64)
    requires
        b.consistent(),
        b.orders.contains_key(id),
    ensures
        b.orders[id].quantity <= level_total(b.levels(b.orders[id].side), b.orders[id].price),
{
    let o = b.orders[id];
    lemma_sum_remove(b.orders.dom(), b.orders, o.side, o.price, id);
    lemma_sum_nonnegative(b.orders.dom().remove(id), b.orders, o.side, o.price);
    assert(level_total(b.levels(o.side), o.price) == resting_sum(
        b.orders.dom(),
        b.orders,
        o.side,
        o.price,
    ));
}

/// Entering an order under an id that the book does not hold keeps every
/// level equal to the total of the orders resting at it.
pub proof fn law_add_keeps_levels_consistent(
    b: BookView,
    id: u64,
    side: Side,
    price: u64,
    quantity: u32,
)
    requires
        b.consistent(),
        !b.orders.contains_key(id),
        b.add_fits(side, price, quantity),
    ensures
        b.after_add(id, side, price, quantity).consistent(),
{
    let a = b.after_add(id, side, price, quantity);
    let new_order = a.orders[id];
    assert(a.orders.dom() =~= b.orders.dom().insert(id));
    assert forall|s: Side, p: u64|
        #[trigger] level_total(a.levels(s), p) == resting_sum(a.orders.dom(), a.orders, s, p) by {
        lemma_sum_remove(a.orders.dom(), a.orders, s, p, id);
        assert(a.orders.dom().remove(id) =~= b.orders.dom());
        lemma_sum_agree(b.orders.dom(), a.orders, b.orders, s, p);
        assert(level_total(b.levels(s), p) == resting_sum(b.orders.dom(), b.orders, s, p));
    }
}

/// Cancelling (any quantity, of any id) keeps every level equal to the total
/// of the orders resting at it.
pub proof fn law_cancel_keeps_levels_consistent(b: BookView, id: u64, quantity: u32)
    requires
        b.consistent(),
    ensures
        b.after_cancel(id, quantity).consistent(),
{
    if b.orders.contains_key(id) {
        let a = b.after_cancel(id, quantity);
        let o = b.orders[id];
        let cut: u32 = if quantity < o.quantity {
            quantity
        } else {
            o.quantity
        };
        let left = (o.quantity - cut) as u32;
        let own = if left == 0 {
            b.orders.remove(id)
        } else {
            b.orders.insert(
                id,
                Order { price: o.price, quantity: left, side: o.side, shares_ahead: o.shares_ahead },
            )
        };
        assert(a.orders == slide_behind(own, id, o.side, o.price, cut));
        assert(own.dom().finite());
        lemma_slide_keeps_sums(own, id, o.side, o.price, cut, o.side, o.price);
        lemma_order_within_level(b, id);
        assert forall|s: Side, p: u64|
            #[trigger] level_total(a.levels(s), p) == resting_sum(a.orders.dom(), a.orders, s, p) by {
            lemma_slide_keeps_sums(own, id, o.side, o.price, cut, s, p);
            lemma_sum_remove(b.orders.dom(), b.orders, s, p, id);
            assert(level_total(b.levels(s), p) == resting_sum(b.orders.dom(), b.orders, s, p));
            if own.contains_key(id) {
                assert(own.dom() =~= b.orders.dom());
                lemma_sum_remove(own.dom(), own, s, p, id);
                lemma_sum_agree(b.orders.dom().remove(id), own, b.orders, s, p);
            } else {
                assert(own.dom() =~= b.orders.dom().remove(id));
                lemma_sum_agree(b.orders.dom().remove(id), own, b.orders, s, p);
            }
        }
    }
}

/// In a consistent book every resting order with a positive quantity shows
/// in its price level, which holds at least that quantity; so the best bid
/// is at or above every such buy order, and the best ask at or below every
/// such sell order.
pub proof fn law_resting_orders_show_in_levels(b: BookView, id: u64)
    requires
        b.consistent(),
        b.orders.contains_key(id),
        b.orders[id].quantity > 0,
    ensures
        b.levels(b.orders[id].side).contains_key(b.orders[id].price),
        b.levels(b.orders[id].side)[b.orders[id].price] >= b.orders[id].quantity,
{
    lemma_order_within_level(b, id);
}

/// Entering an order under a fresh id and then cancelling at least its whole
/// quantity gives back the book as it was, unless its price level was
/// present and empty before (that level is gone afterwards), or an order
/// behind it (same side and price, greater id) had shares ahead to lose.
pub proof fn law_cancel_undoes_add(
    b: BookView,
    id: u64,
    side: Side,
    price: u64,
    quantity: u32,
    cancelled: u32,
)
    requires
        !b.orders.contains_key(id),
        b.add_fits(side, price, quantity),
        cancelled >= quantity,
        !(b.levels(side).contains_key(price) && b.levels(side)[price] == 0),
        quantity == 0 || forall|j: u64|
            #[trigger] b.orders.contains_key(j) && rests_behind(b.orders[j], j, id, side, price)
                ==> b.orders[j].shares_ahead == 0,
    ensures
        b.after_add(id, side, price, quantity).after_cancel(id, cancelled) == b,
{
    let a = b.after_add(id, side, price, quantity);
    let c = a.after_cancel(id, cancelled);
    assert(a.orders.remove(id) =~= b.orders);
    assert forall|j: u64| #[trigger] b.orders.contains_key(j) implies slide_behind(
        b.orders,
        id,
        side,
        price,
        quantity,
    )[j] == b.orders[j] by {
        if rests_behind(b.orders[j], j, id, side, price) {
            assert(moved_forward(b.orders[j], quantity) == b.orders[j]);
        }
    }
    assert(c.orders =~= b.orders);
    let levels = b.levels(side);
    if levels.contains_key(price) {
        assert(levels.insert(price, levels[price]) =~= levels);
    } else {
        assert(levels.insert(price, quantity).remove(price) =~= levels);
    }
    assert(c.levels(side) =~= levels);
    assert(c =~= b);
}

/// With ids given in arrival order (a new order's id is greater than every
/// id in the book), entering an order keeps every order's shares ahead equal
/// to the quantity queued ahead of it at its price on its side.
pub proof fn law_add_keeps_queue_exact(b: BookView, id: u64, side: Side, price: u64, quantity: u32)
    requires
        b.consistent(),
        b.queue_exact(),
        b.ids_below(id),
        b.add_fits(side, price, quantity),
    ensures
        b.after_add(id, side, price, quantity).queue_exact(),
{
    let a = b.after_add(id, side, price, quantity);
    assert(a.orders.dom() =~= b.orders.dom().insert(id));
    assert forall|x: u64| #[trigger] a.orders.contains_key(x) implies a.orders[x].shares_ahead
        == queued_ahead(a.orders, x) by {
        let o = a.orders[x];
        if x == id {
            assert(ids_before(a.orders, id) =~= b.orders.dom());
            lemma_sum_agree(b.orders.dom(), a.orders, b.orders, side, price);
            assert(level_total(b.levels(side), price) == resting_sum(
                b.orders.dom(),
                b.orders,
                side,
                price,
            ));
        } else {
            assert(b.orders.contains_key(x));
            assert(ids_before(a.orders, x) =~= ids_before(b.orders, x));
            lemma_sum_agree(ids_before(b.orders, x), a.orders, b.orders, o.side, o.price);
        }
    }
}

/// Cancelling (any quantity, of any id) keeps every order's shares ahead
/// equal to the quantity queued ahead of it: the orders behind the cancelled
/// one move forward by exactly what left the book.
pub proof fn law_cancel_keeps_queue_exact(b: BookView, id: u64, quantity: u32)
    requires
        b.orders.dom().finite(),
        b.queue_exact(),
    ensures
        b.after_cancel(id, quantity).queue_exact(),
{
    if b.orders.contains_key(id) {
        let a = b.after_cancel(id, quantity);
        let m = b.orders;
        let o = m[id];
        let cut: u32 = if quantity < o.quantity {
            quantity
        } else {
            o.quantity
        };
        let left = (o.quantity - cut) as u32;
        let own = if left == 0 {
            m.remove(id)
        } else {
            m.insert(
                id,
                Order { price: o.price, quantity: left, side: o.side, shares_ahead: o.shares_ahead },
            )
        };
        assert(a.orders == slide_behind(own, id, o.side, o.price, cut));
        assert(a.orders.dom() =~= own.dom());
        assert forall|x: u64| #[trigger] a.orders.contains_key(x) implies a.orders[x].shares_ahead
            == queued_ahead(a.orders, x) by {
            let ox = m[x];
            let f = ids_before(m, x);
            let g = ids_before(own, x);
            assert(ids_before(a.orders, x) =~= g);
            lemma_sum_agree(g, a.orders, own, ox.side, ox.price);
            assert(m[x].shares_ahead == queued_ahead(m, x));
            if id < x {
                assert(f.contains(id));
                lemma_sum_remove(f, m, ox.side, ox.price, id);
                lemma_sum_nonnegative(f.remove(id), m, ox.side, ox.price);
                if own.contains_key(id) {
                    assert(g =~= f);
                    lemma_sum_remove(g, own, ox.side, ox.price, id);
                } else {
                    assert(g =~= f.remove(id));
                }
                lemma_sum_agree(f.remove(id), own, m, ox.side, ox.price);
            } else {
                if own.contains_key(id) {
                    assert(g =~= f);
                } else {
                    assert(g =~= f);
                }
                lemma_sum_agree(f, own, m, ox.side, ox.price);
            }
        }
    }
}

/// Buy orders rest in the bid levels and sell orders in the ask levels.
pub proof fn law_levels_by_side(b: BookView)
    ensures
        b.levels(Side::Buy) == b.bids,
        b.levels(Side::Sell) == b.asks,
        b.with_levels(Side::Buy, b.bids) == b,
        b.with_levels(Side::Sell, b.asks) == b,
{
}

/// What entering an order does, field by field: the new order rests with
/// its price, quantity and side, and with the quantity already at its level
/// as its shares ahead; that level grows by its quantity; every other order
/// and every other level is as it was.
pub proof fn law_add_effect(b: BookView, id: u64, side: Side, price: u64, quantity: u32)
    requires
        b.add_fits(side, price, quantity),
    ensures
        ({
            let a = b.after_add(id, side, price, quantity);
            &&& a.orders.contains_key(id)
            &&& a.orders[id].price == price
            &&& a.orders[id].quantity == quantity
            &&& a.orders[id].side == side
            &&& a.orders[id].shares_ahead == level_total(b.levels(side), price)
            &&& forall|j: u64|
                j != id ==> (#[trigger] a.orders.contains_key(j) == b.orders.contains_key(j) && (
                b.orders.contains_key(j) ==> a.orders[j] == b.orders[j]))
            &&& level_total(a.levels(side), price) == level_total(b.levels(side), price) + quantity
            &&& a.levels(side).contains_key(price)
            &&& forall|s: Side, p: u64|
                !(s == side && p == price) ==> #[trigger] level_total(a.levels(s), p) == level_total(
                    b.levels(s),
                    p,
                )
        }),
{
}

/// What cancelling `quantity` shares of order `id` does, field by field:
/// with `cut` the smaller of `quantity` and the order's shares, the order
/// keeps its shares less `cut` (and leaves the book at zero); each order
/// behind it at its price (same side, greater id) has `cut` fewer shares
/// ahead, down to zero; its level holds `cut` fewer shares, down to zero;
/// nothing else changes. With no order `id`, nothing changes at all.
pub proof fn law_cancel_effect(b: BookView, id: u64, quantity: u32)
    ensures
        !b.orders.contains_key(id) ==> b.after_cancel(id, quantity) == b,
        b.orders.contains_key(id) ==> ({
            let a = b.after_cancel(id, quantity);
            let o = b.orders[id];
            let cut: int = if quantity < o.quantity {
                quantity as int
            } else {
                o.quantity as int
            };
            &&& (o.quantity - cut > 0) == a.orders.contains_key(id)
            &&& a.orders.contains_key(id) ==> a.orders[id] == Order {
                quantity: (o.quantity - cut) as u32,
                ..o
            }
            &&& forall|j: u64|
                j != id ==> (#[trigger] a.orders.contains_key(j) == b.orders.contains_key(j))
            &&& forall|j: u64|
                j != id && #[trigger] b.orders.contains_key(j) ==> {
                    let x = b.orders[j];
                    let y = a.orders[j];
                    &&& y.price == x.price
                    &&& y.quantity == x.quantity
                    &&& y.side == x.side
                    &&& y.shares_ahead == (if x.side == o.side && x.price == o.price && j > id {
                        if x.shares_ahead >= cut {
                            x.shares_ahead - cut
                        } else {
                            0
                        }
                    } else {
                        x.shares_ahead as int
                    })
                }
            &&& level_total(a.levels(o.side), o.price) == (if level_total(b.levels(o.side), o.price)
                >= cut {
                level_total(b.levels(o.side), o.price) - cut
            } else {
                0
            })
            &&& forall|s: Side, p: u64|
                !(s == o.side && p == o.price) ==> #[trigger] level_total(a.levels(s), p)
                    == level_total(b.levels(s), p)
        }),
{
}

} // verus!
