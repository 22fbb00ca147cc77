//! The venue's order book in human units: resting orders aggregated into
//! price levels, and one trader's open orders.
//!
//! The slab of each side arrives as its leaves, each one resting order. The
//! decoder keeps no state between calls: everything is derived from the
//! leaves it is given.

use vstd::prelude::*;
use crate::scaling::{Amount, Decimals, decode_price, decode_size, price_of_raw, size_of_raw};

verus! {

/// The side of the book an order rests on.
#[derive(Clone, Copy, Debug, PartialEq, Eq)]
pub enum OrderSide {
    Bid,
    Ask,
}

/// One resting order of a slab: its venue-assigned order id (the raw price in
/// the upper 64 bits), its raw quantity, and the id its owner gave it.
#[derive(Clone, Copy, Debug, PartialEq, Eq)]
pub struct Leaf {
    pub order_id: u128,
    pub quantity: u64,
    pub client_order_id: u64,
}

/// The raw price of a resting order: the upper half of its order id.
pub open spec fn leaf_price(leaf: Leaf) -> u64 {
    (leaf.order_id >> 64u128) as u64
}

/// Reads the raw price of a resting order.
pub fn raw_price(leaf: &Leaf) -> (r: u64)
    ensures
        r == leaf_price(*leaf),
{
    (leaf.order_id >> 64u128) as u64
}

/// A resting order in human units.
#[derive(Clone, Copy, Debug, PartialEq, Eq)]
pub struct OptifiOrder {
    pub side: OrderSide,
    pub price: Amount,
    pub size: Amount,
    pub client_order_id: u64,
}

/// All resting size at one price on one side.
#[derive(Clone, Copy, Debug, PartialEq, Eq)]
pub struct BookLevel {
    pub price: Amount,
    pub size: Amount,
}

/// The aggregated book of a market.
#[derive(Clone, Debug)]
pub struct Book {
    pub bids: Vec<BookLevel>,
    pub asks: Vec<BookLevel>,
}

/// The human-unit order a resting order stands for.
pub open spec fn order_of_leaf(side: OrderSide, leaf: Leaf, d: Decimals) -> OptifiOrder {
    OptifiOrder {
        side,
        price: price_of_raw(leaf_price(leaf), d),
        size: size_of_raw(leaf.quantity, d),
        client_order_id: leaf.client_order_id,
    }
}

/// Reads one resting order in human units.
pub fn decode_order(side: OrderSide, leaf: &Leaf, d: Decimals) -> (r: OptifiOrder)
    requires
        d.valid(),
    ensures
        r == order_of_leaf(side, *leaf, d),
{
    OptifiOrder {
        side,
        price: decode_price(raw_price(leaf), d),
        size: decode_size(leaf.quantity, d),
        client_order_id: leaf.client_order_id,
    }
}

/// Total raw quantity resting at raw price `price` among `leaves`.
pub open spec fn quantity_at(leaves: Seq<Leaf>, price: u64) -> nat
    decreases leaves.len(),
{
    if leaves.len() == 0 {
        0
    } else {
        quantity_at(leaves.drop_last(), price) + if leaf_price(leaves.last()) == price {
            leaves.last().quantity as nat
        } else {
            0
        }
    }
}

/// Whether some resting order among `leaves` has raw price `price`.
pub open spec fn has_price(leaves: Seq<Leaf>, price: u64) -> bool {
    exists|i: int| 0 <= i < leaves.len() && leaf_price(#[trigger] leaves[i]) == price
}

/// The raw price a level stands for.
pub open spec fn level_raw_price(level: BookLevel) -> u64 {
    level.price.value as u64
}

/// `level` is the level of its raw price among `leaves`: that price occurs,
/// and the level holds the exact sum of the quantities resting at it, both
/// in human units.
pub open spec fn level_at(level: BookLevel, leaves: Seq<Leaf>, d: Decimals) -> bool {
    let price = level_raw_price(level);
    &&& has_price(leaves, price)
    &&& level.price == price_of_raw(price, d)
    &&& level.size.value == quantity_at(leaves, price)
    &&& level.size.decimals == d.asset
}

/// Whether some level of `levels` is at `price`.
pub open spec fn has_level(levels: Seq<BookLevel>, price: Amount) -> bool {
    exists|j: int| 0 <= j < levels.len() && (#[trigger] levels[j]).price == price
}

/// `levels` is the aggregated view of `leaves`: one level per distinct raw
/// price, each holding the sum of the quantities resting at it.
pub open spec fn aggregates(levels: Seq<BookLevel>, leaves: Seq<Leaf>, d: Decimals) -> bool {
    &&& forall|j: int| 0 <= j < levels.len() ==> #[trigger] level_at(levels[j], leaves, d)
    &&& forall|j: int, k: int| 0 <= j < k < levels.len() ==> levels[j].price != levels[k].price
    &&& forall|i: int| 0 <= i < leaves.len() ==> has_level(levels, price_of_raw(leaf_price(#[trigger] leaves[i]), d))
}

proof fn lemma_quantity_bound(leaves: Seq<Leaf>, price: u64)
    ensures
        quantity_at(leaves, price) <= leaves.len() * (u64::MAX as nat),
    decreases leaves.len(),
{
    if leaves.len() > 0 {
        lemma_quantity_bound(leaves.drop_last(), price);
    }
}

proof fn lemma_quantity_push(leaves: Seq<Leaf>, leaf: Leaf, price: u64)
    ensures
        quantity_at(leaves.push(leaf), price) == quantity_at(leaves, price) + if leaf_price(leaf) == price {
            leaf.quantity as nat
        } else {
            0
        },
{
    assert(leaves.push(leaf).drop_last() =~= leaves);
}

proof fn lemma_quantity_absent(leaves: Seq<Leaf>, price: u64)
    requires
        !has_price(leaves, price),
    ensures
        quantity_at(leaves, price) == 0,
    decreases leaves.len(),
{
    if leaves.len() > 0 {
        let rest = leaves.drop_last();
        assert forall|i: int| 0 <= i < rest.len() implies leaf_price(#[trigger] rest[i]) != price by {
            assert(rest[i] == leaves[i]);
        }
        lemma_quantity_absent(rest, price);
        assert(leaf_price(leaves[leaves.len() - 1]) != price);
    }
}

proof fn lemma_has_price_push(leaves: Seq<Leaf>, leaf: Leaf, price: u64)
    ensures
        has_price(leaves.push(leaf), price) <==> has_price(leaves, price) || leaf_price(leaf) == price,
{
    let next = leaves.push(leaf);
    if has_price(leaves, price) {
        let i = choose|i: int| 0 <= i < leaves.len() && leaf_price(#[trigger] leaves[i]) == price;
        assert(next[i] == leaves[i]);
    }
    if leaf_price(leaf) == price {
        assert(next[leaves.len() as int] == leaf);
    }
    if has_price(next, price) {
        let i = choose|i: int| 0 <= i < next.len() && leaf_price(#[trigger] next[i]) == price;
        if i < leaves.len() {
            assert(next[i] == leaves[i]);
        }
    }
}

/// Adding a resting order at a price that already has a level grows that
/// level by the order's quantity.
proof fn lemma_aggregate_existing(levels: Seq<BookLevel>, leaves: Seq<Leaf>, leaf: Leaf, d: Decimals, j: int)
    requires
        aggregates(levels, leaves, d),
        0 <= j < levels.len(),
        levels[j].price == price_of_raw(leaf_price(leaf), d),
        levels[j].size.value + leaf.quantity <= u128::MAX,
    ensures
        aggregates(
            levels.update(
                j,
                BookLevel {
                    price: levels[j].price,
                    size: Amount { value: (levels[j].size.value + leaf.quantity) as u128, decimals: d.asset },
                },
            ),
            leaves.push(leaf),
            d,
        ),
{
    let p = leaf_price(leaf);
    let next = leaves.push(leaf);
    let grown = BookLevel {
        price: levels[j].price,
        size: Amount { value: (levels[j].size.value + leaf.quantity) as u128, decimals: d.asset },
    };
    let updated = levels.update(j, grown);
    assert forall|k: int| 0 <= k < updated.len() implies #[trigger] level_at(updated[k], next, d) by {
        assert(level_at(levels[k], leaves, d));
        let q = level_raw_price(levels[k]);
        lemma_has_price_push(leaves, leaf, q);
        lemma_quantity_push(leaves, leaf, q);
        if k == j {
            assert(q == p);
            assert(updated[k] == grown);
            assert(grown.size.value == quantity_at(next, p));
        } else {
            assert(levels[k].price != levels[j].price);
            assert(q != p);
            assert(updated[k] == levels[k]);
        }
    }
    assert forall|a: int, b: int| 0 <= a < b < updated.len() implies updated[a].price != updated[b].price by {
        assert(updated[a].price == levels[a].price);
        assert(updated[b].price == levels[b].price);
    }
    assert forall|i: int| 0 <= i < next.len() implies has_level(updated, price_of_raw(leaf_price(#[trigger] next[i]), d)) by {
        if i < leaves.len() {
            assert(next[i] == leaves[i]);
            assert(has_level(levels, price_of_raw(leaf_price(leaves[i]), d)));
            let k = choose|k: int| 0 <= k < levels.len() && (#[trigger] levels[k]).price == price_of_raw(leaf_price(leaves[i]), d);
            assert(updated[k].price == levels[k].price);
        } else {
            assert(next[i] == leaf);
            assert(updated[j].price == price_of_raw(leaf_price(next[i]), d));
        }
    }
}

/// Adding a resting order at a price without a level opens a level holding
/// just that order.
proof fn lemma_aggregate_new(levels: Seq<BookLevel>, leaves: Seq<Leaf>, leaf: Leaf, d: Decimals)
    requires
        aggregates(levels, leaves, d),
        forall|k: int| 0 <= k < levels.len() ==> levels[k].price != price_of_raw(leaf_price(leaf), d),
    ensures
        aggregates(
            levels.push(
                BookLevel {
                    price: price_of_raw(leaf_price(leaf), d),
                    size: Amount { value: leaf.quantity as u128, decimals: d.asset },
                },
            ),
            leaves.push(leaf),
            d,
        ),
{
    let p = leaf_price(leaf);
    let next = leaves.push(leaf);
    let opened = BookLevel {
        price: price_of_raw(p, d),
        size: Amount { value: leaf.quantity as u128, decimals: d.asset },
    };
    let grown = levels.push(opened);
    assert(!has_price(leaves, p)) by {
        if has_price(leaves, p) {
            let i = choose|i: int| 0 <= i < leaves.len() && leaf_price(#[trigger] leaves[i]) == p;
            assert(has_level(levels, price_of_raw(leaf_price(leaves[i]), d)));
            let k = choose|k: int| 0 <= k < levels.len() && (#[trigger] levels[k]).price == price_of_raw(leaf_price(leaves[i]), d);
            assert(levels[k].price == price_of_raw(p, d));
        }
    }
    lemma_quantity_absent(leaves, p);
    lemma_quantity_push(leaves, leaf, p);
    lemma_has_price_push(leaves, leaf, p);
    assert forall|k: int| 0 <= k < grown.len() implies #[trigger] level_at(grown[k], next, d) by {
        if k < levels.len() {
            assert(level_at(levels[k], leaves, d));
            let q = level_raw_price(levels[k]);
            lemma_has_price_push(leaves, leaf, q);
            lemma_quantity_push(leaves, leaf, q);
            assert(grown[k] == levels[k]);
            assert(q != p);
        } else {
            assert(grown[k] == opened);
        }
    }
    assert forall|a: int, b: int| 0 <= a < b < grown.len() implies grown[a].price != grown[b].price by {
        assert(grown[a] == levels[a]);
        if b < levels.len() {
            assert(grown[b] == levels[b]);
        } else {
            assert(grown[b] == opened);
        }
    }
    assert forall|i: int| 0 <= i < next.len() implies has_level(grown, price_of_raw(leaf_price(#[trigger] next[i]), d)) by {
        if i < leaves.len() {
            assert(next[i] == leaves[i]);
            assert(has_level(levels, price_of_raw(leaf_price(leaves[i]), d)));
            let k = choose|k: int| 0 <= k < levels.len() && (#[trigger] levels[k]).price == price_of_raw(leaf_price(leaves[i]), d);
            assert(grown[k] == levels[k]);
        } else {
            assert(next[i] == leaf);
            assert(grown[levels.len() as int] == opened);
        }
    }
}

/// The index of the level at `price`, if there is one.
fn find_level(levels: &Vec<BookLevel>, price: Amount) -> (r: Option<usize>)
    ensures
        match r {
            Some(j) => j < levels@.len() && levels@[j as int].price == price,
            None => forall|k: int| 0 <= k < levels@.len() ==> levels@[k].price != price,
        },
{
    let mut j: usize = 0;
    while j < levels.len()
        invariant
            j <= levels@.len(),
            forall|k: int| 0 <= k < j ==> levels@[k].price != price,
        decreases levels@.len() - j,
    {
        if levels[j].price.value == price.value && levels[j].price.decimals == price.decimals {
            return Some(j);
        }
        j = j + 1;
    }
    None
}

/// Aggregates the resting orders of one side into price levels, in the order
/// each price is first met.
pub fn aggregate_levels(leaves: &Vec<Leaf>, d: Decimals) -> (r: Vec<BookLevel>)
    requires
        d.valid(),
    ensures
        aggregates(r@, leaves@, d),
{
    let mut levels: Vec<BookLevel> = Vec::new();
    let n = leaves.len();
    let mut i: usize = 0;
    assert(leaves@.subrange(0, 0) =~= Seq::<Leaf>::empty());
    while i < n
        invariant
            n == leaves@.len(),
            i <= n,
            d.valid(),
            aggregates(levels@, leaves@.subrange(0, i as int), d),
        decreases n - i,
    {
        let leaf = leaves[i];
        let price = decode_price(raw_price(&leaf), d);
        let ghost prefix = leaves@.subrange(0, i as int);
        assert(leaves@.subrange(0, i as int + 1) =~= prefix.push(leaf));
        match find_level(&levels, price) {
            Some(j) => {
                let ghost p = leaf_price(leaf);
                proof {
                    assert(level_at(levels@[j as int], prefix, d));
                    lemma_quantity_bound(prefix.push(leaf), p);
                    lemma_quantity_push(prefix, leaf, p);
                    assert(prefix.push(leaf).len() * (u64::MAX as nat) <= u128::MAX) by (nonlinear_arith)
                        requires
                            prefix.push(leaf).len() <= u64::MAX;
                }
                let old_size = levels[j].size.value;
                let grown = BookLevel {
                    price: price,
                    size: Amount { value: old_size + leaf.quantity as u128, decimals: d.asset },
                };
                proof {
                    lemma_aggregate_existing(levels@, prefix, leaf, d, j as int);
                }
                levels.set(j, grown);
            },
            None => {
                proof {
                    lemma_aggregate_new(levels@, prefix, leaf, d);
                }
                levels.push(BookLevel { price: price, size: Amount { value: leaf.quantity as u128, decimals: d.asset } });
            },
        }
        i = i + 1;
    }
    assert(leaves@.subrange(0, n as int) =~= leaves@);
    levels
}

/// Both sides of a market aggregated into price levels.
pub fn decode_book(bids: &Vec<Leaf>, asks: &Vec<Leaf>, d: Decimals) -> (r: Book)
    requires
        d.valid(),
    ensures
        aggregates(r.bids@, bids@, d),
        aggregates(r.asks@, asks@, d),
{
    Book { bids: aggregate_levels(bids, d), asks: aggregate_levels(asks, d) }
}

/// The first resting order among `leaves` with order id `id`.
pub open spec fn first_match(leaves: Seq<Leaf>, id: u128) -> Option<Leaf>
    decreases leaves.len(),
{
    if leaves.len() == 0 {
        None
    } else {
        match first_match(leaves.drop_last(), id) {
            Some(found) => Some(found),
            None => if leaves.last().order_id == id {
                Some(leaves.last())
            } else {
                None
            },
        }
    }
}

/// Looks up a resting order by its order id.
pub fn find_order(leaves: &Vec<Leaf>, id: u128) -> (r: Option<Leaf>)
    ensures
        r == first_match(leaves@, id),
{
    let mut found: Option<Leaf> = None;
    let n = leaves.len();
    let mut i: usize = 0;
    assert(leaves@.subrange(0, 0) =~= Seq::<Leaf>::empty());
    while i < n
        invariant
            n == leaves@.len(),
            i <= n,
            found == first_match(leaves@.subrange(0, i as int), id),
        decreases n - i,
    {
        assert(leaves@.subrange(0, i as int + 1).drop_last() =~= leaves@.subrange(0, i as int));
        if found.is_none() && leaves[i].order_id == id {
            found = Some(leaves[i]);
        }
        i = i + 1;
    }
    assert(leaves@.subrange(0, n as int) =~= leaves@);
    found
}

/// A trader's open orders: each order id of the trader's open-orders record,
/// in record order, found among the asks and else among the bids, with its
/// side fixed by the slab that holds it. Ids found in neither are left out.
pub open spec fn orders_of(ids: Seq<u128>, asks: Seq<Leaf>, bids: Seq<Leaf>, d: Decimals) -> Seq<OptifiOrder>
    decreases ids.len(),
{
    if ids.len() == 0 {
        seq![]
    } else {
        let before = orders_of(ids.drop_last(), asks, bids, d);
        match first_match(asks, ids.last()) {
            Some(leaf) => before.push(order_of_leaf(OrderSide::Ask, leaf, d)),
            None => match first_match(bids, ids.last()) {
                Some(leaf) => before.push(order_of_leaf(OrderSide::Bid, leaf, d)),
                None => before,
            },
        }
    }
}

/// A trader's open orders on one market. `order_ids` is `None` when the
/// trader has no open-orders account there yet, which is no error: the trader
/// simply has no orders.
pub fn open_orders(order_ids: &Option<Vec<u128>>, asks: &Vec<Leaf>, bids: &Vec<Leaf>, d: Decimals) -> (r: Vec<OptifiOrder>)
    requires
        d.valid(),
    ensures
        match order_ids {
            Some(ids) => r@ == orders_of(ids@, asks@, bids@, d),
            None => r@ == Seq::<OptifiOrder>::empty(),
        },
{
    let mut orders: Vec<OptifiOrder> = Vec::new();
    match order_ids {
        None => orders,
        Some(ids) => {
            let n = ids.len();
            let mut i: usize = 0;
            assert(ids@.subrange(0, 0) =~= Seq::<u128>::empty());
            while i < n
                invariant
                    n == ids@.len(),
                    i <= n,
                    d.valid(),
                    orders@ == orders_of(ids@.subrange(0, i as int), asks@, bids@, d),
                decreases n - i,
            {
                let id = ids[i];
                let ghost prefix = ids@.subrange(0, i as int + 1);
                assert(prefix.drop_last() =~= ids@.subrange(0, i as int));
                assert(prefix.last() == id);
                match find_order(asks, id) {
                    Some(leaf) => {
                        orders.push(decode_order(OrderSide::Ask, &leaf, d));
                    },
                    None => match find_order(bids, id) {
                        Some(leaf) => {
                            orders.push(decode_order(OrderSide::Bid, &leaf, d));
                        },
                        None => {},
                    },
                }
                i = i + 1;
            }
            assert(ids@.subrange(0, n as int) =~= ids@);
            orders
        },
    }
}

} // verus!
