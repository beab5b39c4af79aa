//! The order book of one symbol: bid and ask ladders kept in price order,
//! and what is derived from them (fair price, spread, depth).

use crate::clock::utc_now_millis;
use crate::model::hl_msgs::{OrderBookData, PriceLevel};
use crate::numeric::decimal::{
    as_decimal, as_notional, decimal_of_text, digits_view, product_of, quotient_of, sum_of,
    trunc_div, Decimal, Digits, Notional,
};
use vstd::prelude::*;

verus! {

/// A level as numbers: raw units of its price and of its size.
pub open spec fn level_view(level: (Decimal, Decimal)) -> (int, int) {
    (level.0@, level.1@)
}

/// A ladder as numbers.
pub open spec fn levels_view(side: Seq<(Decimal, Decimal)>) -> Seq<(int, int)> {
    Seq::new(side.len(), |i: int| level_view(side[i]))
}

/// Price `a` stands before price `b` on a ladder: the higher bid first, the
/// lower ask first.
pub open spec fn precedes(a: int, b: int, descending: bool) -> bool {
    if descending {
        a > b
    } else {
        a < b
    }
}

/// The ladder holds each price once, best first.
pub open spec fn ordered(side: Seq<(int, int)>, descending: bool) -> bool {
    forall|i: int, j: int| 0 <= i < j < side.len() ==> precedes(side[i].0, side[j].0, descending)
}

/// `k` is where a level of `price` belongs on the ladder: all before `k`
/// precede it, nothing from `k` on does.
pub open spec fn is_insertion_point(
    side: Seq<(int, int)>,
    price: int,
    descending: bool,
    k: int,
) -> bool {
    &&& 0 <= k <= side.len()
    &&& forall|i: int| 0 <= i < k ==> precedes(#[trigger] side[i].0, price, descending)
    &&& forall|i: int| k <= i < side.len() ==> !precedes(#[trigger] side[i].0, price, descending)
}

pub open spec fn insertion_point(side: Seq<(int, int)>, price: int, descending: bool) -> int {
    choose|k: int| is_insertion_point(side, price, descending, k)
}

/// The ladder with the level at `price` set to `size`: replaced where the
/// price is on the ladder, put in its place where it is not.
pub open spec fn with_level(side: Seq<(int, int)>, price: int, size: int, descending: bool) -> Seq<
    (int, int),
> {
    let k = insertion_point(side, price, descending);
    if k < side.len() && side[k].0 == price {
        side.update(k, (price, size))
    } else {
        side.insert(k, (price, size))
    }
}

/// The ladder that a list of feed levels builds, taken in order: a level
/// whose price or size is no decimal is passed over, and a price that comes
/// again replaces the earlier size.
pub open spec fn side_of_levels(levels: Seq<PriceLevel>, descending: bool) -> Seq<(int, int)>
    decreases levels.len(),
{
    if levels.len() == 0 {
        Seq::empty()
    } else {
        let rest = side_of_levels(levels.drop_last(), descending);
        let last = levels.last();
        match (decimal_of_text(last.px@), decimal_of_text(last.sz@)) {
            (Some(price), Some(size)) => with_level(rest, price, size, descending),
            _ => rest,
        }
    }
}

/// The point halfway between the best bid and the best ask; where it has
/// a ninth place, that place is cut off, toward nothing.
pub open spec fn mid_of(bids: Seq<(int, int)>, asks: Seq<(int, int)>) -> Option<int> {
    if bids.len() > 0 && asks.len() > 0 {
        Some(trunc_div(bids[0].0 + asks[0].0, 2))
    } else {
        None
    }
}

/// The best ask less the best bid, where a `Decimal` holds it.
pub open spec fn spread_of(bids: Seq<(int, int)>, asks: Seq<(int, int)>) -> Option<int> {
    if bids.len() > 0 && asks.len() > 0 {
        as_decimal(asks[0].0 - bids[0].0)
    } else {
        None
    }
}

/// The spread in basis points of the fair price: the spread divided by
/// the fair price and taken ten thousand times, quotient and product
/// being `rust_decimal`'s; nothing where the fair price is not above
/// nothing.
pub open spec fn spread_bps_of(bids: Seq<(int, int)>, asks: Seq<(int, int)>) -> Option<(int, nat)> {
    match (spread_of(bids, asks), mid_of(bids, asks)) {
        (Some(spread), Some(mid)) => if mid > 0 {
            match quotient_of((spread, 8nat), (mid, 8nat)) {
                Some(ratio) => product_of(ratio, (10000int, 0nat)),
                None => None,
            }
        } else {
            Some((0int, 0nat))
        },
        _ => None,
    }
}

/// The sizes of the first `n` levels added up, while a `Decimal` holds
/// every partial sum.
pub open spec fn volume_of(side: Seq<(int, int)>, n: int) -> Option<int>
    decreases n,
{
    if n <= 0 {
        Some(0)
    } else {
        match volume_of(side, n - 1) {
            Some(sum) => as_decimal(sum + side[n - 1].1),
            None => None,
        }
    }
}

/// Price times size of the first `n` levels added up, while a `Notional`
/// holds every product and every partial sum.
pub open spec fn turnover_of(side: Seq<(int, int)>, n: int) -> Option<int>
    decreases n,
{
    if n <= 0 {
        Some(0)
    } else {
        match (turnover_of(side, n - 1), as_notional(side[n - 1].0 * side[n - 1].1)) {
            (Some(sum), Some(product)) => as_notional(sum + product),
            _ => None,
        }
    }
}

pub open spec fn min_int(a: int, b: int) -> int {
    if a <= b {
        a
    } else {
        b
    }
}

/// The volume-weighted average price of the first `depth` levels of a
/// ladder, where its volume is positive: price times size added up,
/// divided by the sizes added up. The quotient is `rust_decimal`'s.
pub open spec fn vwap_of(side: Seq<(int, int)>, depth: int) -> Option<(int, nat)> {
    let n = min_int(depth, side.len() as int);
    match (volume_of(side, n), turnover_of(side, n)) {
        (Some(volume), Some(turnover)) => if volume > 0 {
            quotient_of((turnover, 16nat), (volume, 8nat))
        } else {
            None
        },
        _ => None,
    }
}

/// Halfway between the volume-weighted average prices of the two
/// ladders: their sum divided by two, sum and quotient being
/// `rust_decimal`'s.
pub open spec fn weighted_mid_of(
    bids: Seq<(int, int)>,
    asks: Seq<(int, int)>,
    depth: int,
) -> Option<(int, nat)> {
    match (vwap_of(bids, depth), vwap_of(asks, depth)) {
        (Some(bid), Some(ask)) => match sum_of(bid, ask) {
            Some(both) => quotient_of(both, (2int, 0nat)),
            None => None,
        },
        _ => None,
    }
}

proof fn lemma_insertion_point_unique(
    side: Seq<(int, int)>,
    price: int,
    descending: bool,
    k: int,
)
    requires
        is_insertion_point(side, price, descending, k),
    ensures
        insertion_point(side, price, descending) == k,
{
    let c = insertion_point(side, price, descending);
    assert(is_insertion_point(side, price, descending, c));
    if c < k {
        assert(precedes(side[c].0, price, descending));
    } else if k < c {
        assert(precedes(side[k].0, price, descending));
    }
}

/// Setting a level keeps a ladder in price order.
pub proof fn lemma_with_level_ordered(
    side: Seq<(int, int)>,
    price: int,
    size: int,
    descending: bool,
    k: int,
)
    requires
        ordered(side, descending),
        is_insertion_point(side, price, descending, k),
    ensures
        ordered(with_level(side, price, size, descending), descending),
{
    lemma_insertion_point_unique(side, price, descending, k);
    let out = with_level(side, price, size, descending);
    assert forall|i: int, j: int| 0 <= i < j < out.len() implies precedes(
        out[i].0,
        out[j].0,
        descending,
    ) by {
        if k < side.len() && side[k].0 == price {
            assert(out[i].0 == side[i].0);
            assert(out[j].0 == side[j].0);
        } else {
            if j < k {
                assert(out[i] == side[i] && out[j] == side[j]);
            } else if j == k {
                assert(out[i] == side[i]);
                assert(precedes(side[i].0, price, descending));
            } else if i < k {
                assert(out[i] == side[i] && out[j] == side[j - 1]);
            } else if i == k {
                assert(out[j] == side[j - 1]);
                assert(!precedes(side[j - 1].0, price, descending));
                if j - 1 > k {
                    assert(precedes(side[k].0, side[j - 1].0, descending));
                    assert(!precedes(side[k].0, price, descending));
                }
            } else {
                assert(out[i] == side[i - 1] && out[j] == side[j - 1]);
            }
        }
    }
}

fn price_precedes(a: &Decimal, b: &Decimal, descending: bool) -> (r: bool)
    ensures
        r == precedes(a@, b@, descending),
{
    if descending {
        a.gt(b)
    } else {
        a.lt(b)
    }
}

fn insert_level(side: &mut Vec<(Decimal, Decimal)>, price: Decimal, size: Decimal, descending: bool)
    requires
        ordered(levels_view(old(side)@), descending),
    ensures
        levels_view(final(side)@) == with_level(
            levels_view(old(side)@),
            price@,
            size@,
            descending,
        ),
        ordered(levels_view(final(side)@), descending),
{
    let ghost before = levels_view(side@);
    let mut k: usize = 0;
    while k < side.len() && price_precedes(&side[k].0, &price, descending)
        invariant
            k <= side.len(),
            side@ == old(side)@,
            before == levels_view(side@),
            forall|i: int| 0 <= i < k ==> precedes(#[trigger] before[i].0, price@, descending),
        decreases side.len() - k,
    {
        k = k + 1;
    }
    proof {
        assert forall|i: int| k <= i < before.len() implies !precedes(
            #[trigger] before[i].0,
            price@,
            descending,
        ) by {
            if i > k {
                assert(precedes(before[k as int].0, before[i].0, descending));
            }
        }
        assert(is_insertion_point(before, price@, descending, k as int));
        lemma_insertion_point_unique(before, price@, descending, k as int);
        lemma_with_level_ordered(before, price@, size@, descending, k as int);
    }
    if k < side.len() && side[k].0.equals(&price) {
        side.set(k, (price, size));
        assert(levels_view(side@) =~= before.update(k as int, (price@, size@)));
    } else {
        side.insert(k, (price, size));
        assert(levels_view(side@) =~= before.insert(k as int, (price@, size@)));
    }
}

fn build_side(levels: &Vec<PriceLevel>, descending: bool) -> (side: Vec<(Decimal, Decimal)>)
    ensures
        levels_view(side@) == side_of_levels(levels@, descending),
        ordered(levels_view(side@), descending),
{
    let mut side: Vec<(Decimal, Decimal)> = Vec::new();
    let mut i: usize = 0;
    assert(levels@.subrange(0, 0) =~= Seq::empty());
    assert(levels_view(side@) =~= Seq::empty());
    while i < levels.len()
        invariant
            i <= levels.len(),
            levels_view(side@) == side_of_levels(levels@.subrange(0, i as int), descending),
            ordered(levels_view(side@), descending),
        decreases levels.len() - i,
    {
        let level = &levels[i];
        assert(levels@.subrange(0, i + 1).drop_last() =~= levels@.subrange(0, i as int));
        assert(levels@.subrange(0, i + 1).last() == levels@[i as int]);
        let price = Decimal::from_str(level.px.as_str());
        let size = Decimal::from_str(level.sz.as_str());
        match (price, size) {
            (Some(p), Some(z)) => {
                insert_level(&mut side, p, z, descending);
            },
            _ => {},
        }
        i = i + 1;
    }
    assert(levels@.subrange(0, i as int) =~= levels@);
    side
}

fn take_levels(side: &Vec<(Decimal, Decimal)>, count: usize) -> (r: Vec<(Decimal, Decimal)>)
    ensures
        r@ == side@.take(min_int(count as int, side@.len() as int)),
{
    let mut out: Vec<(Decimal, Decimal)> = Vec::new();
    let mut i: usize = 0;
    while i < side.len() && i < count
        invariant
            i <= side.len(),
            i <= count,
            out@ == side@.take(i as int),
        decreases side.len() - i,
    {
        out.push(side[i]);
        assert(out@ =~= side@.take(i + 1));
        i = i + 1;
    }
    out
}

fn vwap(side: &Vec<(Decimal, Decimal)>, depth: usize) -> (r: Option<Digits>)
    ensures
        digits_view(r) == vwap_of(levels_view(side@), depth as int),
{
    let ghost view = levels_view(side@);
    let n = if depth < side.len() {
        depth
    } else {
        side.len()
    };
    let mut volume = Decimal::zero();
    let mut turnover = Notional::zero();
    let mut i: usize = 0;
    while i < n
        invariant
            i <= n <= side.len(),
            n == min_int(depth as int, side@.len() as int),
            view == levels_view(side@),
            volume_of(view, i as int) == Some(volume@),
            turnover_of(view, i as int) == Some(turnover@),
        decreases n - i,
    {
        let level = side[i];
        assert(view[i as int] == level_view(level));
        let next_volume = volume.checked_add(&level.1);
        let product = level.0.checked_mul(&level.1);
        let ghost step = i as int + 1;
        match (next_volume, product) {
            (Some(v), Some(p)) => {
                match turnover.checked_add(&p) {
                    Some(t) => {
                        volume = v;
                        turnover = t;
                    },
                    None => {
                        proof {
                            lemma_sums_stay_undefined(view, step, n as int);
                        }
                        return None;
                    },
                }
            },
            _ => {
                proof {
                    lemma_sums_stay_undefined(view, step, n as int);
                }
                return None;
            },
        }
        i = i + 1;
    }
    if volume.is_positive() {
        Digits::from_notional(&turnover).checked_div(&Digits::from_decimal(&volume))
    } else {
        None
    }
}

/// Once a partial sum is out of range, so is every later one.
proof fn lemma_sums_stay_undefined(side: Seq<(int, int)>, at: int, n: int)
    requires
        0 <= at <= n,
        volume_of(side, at) is None || turnover_of(side, at) is None,
    ensures
        volume_of(side, n) is None || turnover_of(side, n) is None,
    decreases n - at,
{
    if at < n {
        lemma_sums_stay_undefined(side, at + 1, n);
    }
}

pub struct OrderBook {
    symbol: String,
    bids: Vec<(Decimal, Decimal)>,
    asks: Vec<(Decimal, Decimal)>,
    last_update: i64,
    sequence: u64,
}

impl OrderBook {
    #[verifier::type_invariant]
    spec fn in_price_order(&self) -> bool {
        &&& ordered(levels_view(self.bids@), true)
        &&& ordered(levels_view(self.asks@), false)
    }

    pub closed spec fn spec_symbol(&self) -> Seq<char> {
        self.symbol@
    }

    /// The bid ladder, highest price first: raw units of price and size.
    pub closed spec fn bids_view(&self) -> Seq<(int, int)> {
        levels_view(self.bids@)
    }

    /// The ask ladder, lowest price first: raw units of price and size.
    pub closed spec fn asks_view(&self) -> Seq<(int, int)> {
        levels_view(self.asks@)
    }

    pub closed spec fn spec_last_update(&self) -> int {
        self.last_update as int
    }

    pub closed spec fn spec_sequence(&self) -> int {
        self.sequence as int
    }

    /// An empty book, stamped with the time `now`.
    pub fn new_at(symbol: String, now: i64) -> (book: Self)
        ensures
            book.spec_symbol() == symbol@,
            book.bids_view() == Seq::<(int, int)>::empty(),
            book.asks_view() == Seq::<(int, int)>::empty(),
            book.spec_last_update() == now,
            book.spec_sequence() == 0,
    {
        let book = OrderBook {
            symbol,
            bids: Vec::new(),
            asks: Vec::new(),
            last_update: now,
            sequence: 0,
        };
        assert(levels_view(book.bids@) =~= Seq::<(int, int)>::empty());
        assert(levels_view(book.asks@) =~= Seq::<(int, int)>::empty());
        book
    }

    /// An empty book, stamped with the present time, whatever the clock
    /// reads.
    pub fn new(symbol: String) -> (book: Self)
        ensures
            book.spec_symbol() == symbol@,
            book.bids_view() == Seq::<(int, int)>::empty(),
            book.asks_view() == Seq::<(int, int)>::empty(),
            book.spec_sequence() == 0,
            i64::MIN <= book.spec_last_update() <= i64::MAX,
    {
        Self::new_at(symbol, utc_now_millis())
    }

    /// Replaces both ladders by what the snapshot holds: its first list of
    /// levels makes the bids, its second the asks, and a list that is not
    /// there leaves that ladder empty. Counts the update, unless the count
    /// is at its largest, and stamps the book with `now`.
    pub fn update_from_tob_at(&mut self, tob_data: &OrderBookData, now: i64)
        ensures
            final(self).spec_symbol() == old(self).spec_symbol(),
            final(self).bids_view() == if tob_data.levels@.len() > 0 {
                side_of_levels(tob_data.levels@[0]@, true)
            } else {
                Seq::empty()
            },
            final(self).asks_view() == if tob_data.levels@.len() > 1 {
                side_of_levels(tob_data.levels@[1]@, false)
            } else {
                Seq::empty()
            },
            final(self).spec_last_update() == now,
            final(self).spec_sequence() == if old(self).spec_sequence() < u64::MAX {
                old(self).spec_sequence() + 1
            } else {
                old(self).spec_sequence()
            },
    {
        let bids = if tob_data.levels.len() > 0 {
            build_side(&tob_data.levels[0], true)
        } else {
            let empty: Vec<(Decimal, Decimal)> = Vec::new();
            assert(levels_view(empty@) =~= Seq::<(int, int)>::empty());
            empty
        };
        let asks = if tob_data.levels.len() > 1 {
            build_side(&tob_data.levels[1], false)
        } else {
            let empty: Vec<(Decimal, Decimal)> = Vec::new();
            assert(levels_view(empty@) =~= Seq::<(int, int)>::empty());
            empty
        };
        proof {
            use_type_invariant(&*self);
        }
        self.bids = bids;
        self.asks = asks;
        self.last_update = now;
        if self.sequence < u64::MAX {
            self.sequence = self.sequence + 1;
        }
    }

    /// Sets the bid at `price` to `size`: replaced where the price is on
    /// the ladder, put in its place, highest first, where it is not.
    pub fn set_bid(&mut self, price: Decimal, size: Decimal)
        ensures
            final(self).bids_view() == with_level(old(self).bids_view(), price@, size@, true),
            final(self).asks_view() == old(self).asks_view(),
            final(self).spec_symbol() == old(self).spec_symbol(),
            final(self).spec_last_update() == old(self).spec_last_update(),
            final(self).spec_sequence() == old(self).spec_sequence(),
    {
        proof {
            use_type_invariant(&*self);
        }
        let mut bids: Vec<(Decimal, Decimal)> = Vec::new();
        assert(levels_view(bids@) =~= Seq::<(int, int)>::empty());
        core::mem::swap(&mut bids, &mut self.bids);
        insert_level(&mut bids, price, size, true);
        self.bids = bids;
    }

    /// Sets the ask at `price` to `size`: replaced where the price is on
    /// the ladder, put in its place, lowest first, where it is not.
    pub fn set_ask(&mut self, price: Decimal, size: Decimal)
        ensures
            final(self).asks_view() == with_level(old(self).asks_view(), price@, size@, false),
            final(self).bids_view() == old(self).bids_view(),
            final(self).spec_symbol() == old(self).spec_symbol(),
            final(self).spec_last_update() == old(self).spec_last_update(),
            final(self).spec_sequence() == old(self).spec_sequence(),
    {
        proof {
            use_type_invariant(&*self);
        }
        let mut asks: Vec<(Decimal, Decimal)> = Vec::new();
        assert(levels_view(asks@) =~= Seq::<(int, int)>::empty());
        core::mem::swap(&mut asks, &mut self.asks);
        insert_level(&mut asks, price, size, false);
        self.asks = asks;
    }

    /// `update_from_tob_at` with the present time.
    pub fn update_from_tob(&mut self, tob_data: &OrderBookData)
        ensures
            final(self).spec_symbol() == old(self).spec_symbol(),
            final(self).bids_view() == if tob_data.levels@.len() > 0 {
                side_of_levels(tob_data.levels@[0]@, true)
            } else {
                Seq::empty()
            },
            final(self).asks_view() == if tob_data.levels@.len() > 1 {
                side_of_levels(tob_data.levels@[1]@, false)
            } else {
                Seq::empty()
            },
            final(self).spec_sequence() == if old(self).spec_sequence() < u64::MAX {
                old(self).spec_sequence() + 1
            } else {
                old(self).spec_sequence()
            },
    {
        self.update_from_tob_at(tob_data, utc_now_millis())
    }

    /// The symbol of the book.
    pub fn symbol(&self) -> (r: &String)
        ensures
            r@ == self.spec_symbol(),
    {
        &self.symbol
    }

    /// When the book was last updated.
    pub fn last_update(&self) -> (r: i64)
        ensures
            r == self.spec_last_update(),
    {
        self.last_update
    }

    /// How many updates the book has taken.
    pub fn sequence(&self) -> (r: u64)
        ensures
            r == self.spec_sequence(),
    {
        self.sequence
    }

    /// The highest bid with its size: no bid on the book is higher.
    pub fn best_bid(&self) -> (r: Option<(Decimal, Decimal)>)
        ensures
            self.bids_view().len() == 0 ==> r is None,
            self.bids_view().len() > 0 ==> r is Some && level_view(r->0) == self.bids_view()[0],
            forall|i: int|
                0 <= i < self.bids_view().len() ==> (#[trigger] self.bids_view()[i]).0
                    <= self.bids_view()[0].0,
    {
        proof {
            use_type_invariant(self);
            let view = levels_view(self.bids@);
            assert forall|i: int| 0 <= i < view.len() implies (#[trigger] view[i]).0
                <= view[0].0 by {
                if i > 0 {
                    assert(precedes(view[0].0, view[i].0, true));
                }
            }
        }
        if self.bids.len() > 0 {
            Some(self.bids[0])
        } else {
            None
        }
    }

    /// The lowest ask with its size: no ask on the book is lower.
    pub fn best_ask(&self) -> (r: Option<(Decimal, Decimal)>)
        ensures
            self.asks_view().len() == 0 ==> r is None,
            self.asks_view().len() > 0 ==> r is Some && level_view(r->0) == self.asks_view()[0],
            forall|i: int|
                0 <= i < self.asks_view().len() ==> (#[trigger] self.asks_view()[i]).0
                    >= self.asks_view()[0].0,
    {
        proof {
            use_type_invariant(self);
            let view = levels_view(self.asks@);
            assert forall|i: int| 0 <= i < view.len() implies (#[trigger] view[i]).0
                >= view[0].0 by {
                if i > 0 {
                    assert(precedes(view[0].0, view[i].0, false));
                }
            }
        }
        if self.asks.len() > 0 {
            Some(self.asks[0])
        } else {
            None
        }
    }

    /// The fair price: halfway between the best bid and the best ask, a
    /// ninth place cut off.
    pub fn mid_price(&self) -> (r: Option<Decimal>)
        ensures
            crate::numeric::decimal::decimal_units(r) == mid_of(self.bids_view(), self.asks_view()),
    {
        match (self.best_bid(), self.best_ask()) {
            (Some((bid, _)), Some((ask, _))) => Some(bid.midpoint(&ask)),
            _ => None,
        }
    }

    /// The best ask less the best bid, where the book has both.
    pub fn spread(&self) -> (r: Option<Decimal>)
        ensures
            crate::numeric::decimal::decimal_units(r) == spread_of(
                self.bids_view(),
                self.asks_view(),
            ),
    {
        match (self.best_bid(), self.best_ask()) {
            (Some((bid, _)), Some((ask, _))) => ask.checked_sub(&bid),
            _ => None,
        }
    }

    /// The spread in basis points of the fair price.
    pub fn spread_bps(&self) -> (r: Option<Digits>)
        ensures
            digits_view(r) == spread_bps_of(self.bids_view(), self.asks_view()),
    {
        match (self.spread(), self.mid_price()) {
            (Some(spread), Some(mid)) => {
                if mid.is_positive() {
                    match Digits::from_decimal(&spread).checked_div(&Digits::from_decimal(&mid)) {
                        Some(ratio) => ratio.checked_mul(&Digits::from_int(10000)),
                        None => None,
                    }
                } else {
                    Some(Digits::from_int(0))
                }
            },
            _ => None,
        }
    }

    /// Halfway between the volume-weighted average prices of the first
    /// `depth` bids and of the first `depth` asks.
    pub fn volume_weighted_mid(&self, depth: usize) -> (r: Option<Digits>)
        ensures
            digits_view(r) == weighted_mid_of(self.bids_view(), self.asks_view(), depth as int),
    {
        match (vwap(&self.bids, depth), vwap(&self.asks, depth)) {
            (Some(bid), Some(ask)) => match bid.checked_add(&ask) {
                Some(both) => both.checked_div(&Digits::from_int(2)),
                None => None,
            },
            _ => None,
        }
    }

    /// The first `levels` bids and the first `levels` asks, best first.
    pub fn get_depth(&self, levels: usize) -> (r: (Vec<(Decimal, Decimal)>, Vec<(Decimal, Decimal)>))
        ensures
            levels_view(r.0@) == self.bids_view().take(
                min_int(levels as int, self.bids_view().len() as int),
            ),
            levels_view(r.1@) == self.asks_view().take(
                min_int(levels as int, self.asks_view().len() as int),
            ),
    {
        let bids = take_levels(&self.bids, levels);
        let asks = take_levels(&self.asks, levels);
        assert(levels_view(bids@) =~= levels_view(self.bids@).take(
            min_int(levels as int, self.bids@.len() as int),
        ));
        assert(levels_view(asks@) =~= levels_view(self.asks@).take(
            min_int(levels as int, self.asks@.len() as int),
        ));
        (bids, asks)
    }
}

impl Clone for OrderBook {
    fn clone(&self) -> (r: Self)
        ensures
            r.spec_symbol() == self.spec_symbol(),
            r.bids_view() == self.bids_view(),
            r.asks_view() == self.asks_view(),
            r.spec_last_update() == self.spec_last_update(),
            r.spec_sequence() == self.spec_sequence(),
    {
        proof {
            use_type_invariant(self);
        }
        let bids = take_levels(&self.bids, self.bids.len());
        let asks = take_levels(&self.asks, self.asks.len());
        assert(bids@ =~= self.bids@);
        assert(asks@ =~= self.asks@);
        OrderBook {
            symbol: self.symbol.clone(),
            bids,
            asks,
            last_update: self.last_update,
            sequence: self.sequence,
        }
    }
}

} // verus!
