//! The arithmetic of a position under fills, over mathematical integers,
//! and the laws of profit accounting that follow from it.
//!
//! Sizes and prices are in raw `Decimal` units, profits in raw `Notional`
//! units, so that a profit is the plain product of a price difference and a
//! size.

use crate::numeric::decimal::{abs_int, trunc_div};
use crate::trading::types::{Fill, Position, Side};
use vstd::prelude::*;

verus! {

/// The numbers of a position.
pub struct PositionState {
    pub size: int,
    pub entry_price: int,
    pub mark_price: int,
    pub unrealized_pnl: int,
    pub realized_pnl: int,
}

/// The numbers of a fill.
pub struct FillTerms {
    pub side: Side,
    pub price: int,
    pub size: int,
}

pub open spec fn position_state(position: Position) -> PositionState {
    PositionState {
        size: position.size@,
        entry_price: position.entry_price@,
        mark_price: position.mark_price@,
        unrealized_pnl: position.unrealized_pnl@,
        realized_pnl: position.realized_pnl@,
    }
}

pub open spec fn fill_terms(fill: Fill) -> FillTerms {
    FillTerms { side: fill.side, price: fill.price@, size: fill.size@ }
}

/// The state of a symbol that has no position yet.
pub open spec fn flat_state(mark_price: int) -> PositionState {
    PositionState { size: 0, entry_price: 0, mark_price, unrealized_pnl: 0, realized_pnl: 0 }
}

/// The invariant of a position: an open one shows as open profit what its
/// mark price is above its entry price, times its size; a flat one has no
/// entry price and no open profit.
pub open spec fn state_wf(p: PositionState) -> bool {
    &&& p.size != 0 ==> p.unrealized_pnl == (p.mark_price - p.entry_price) * p.size
    &&& p.size == 0 ==> p.entry_price == 0 && p.unrealized_pnl == 0
}

pub open spec fn sign_of(x: int) -> int {
    if x > 0 {
        1
    } else if x < 0 {
        -1
    } else {
        0
    }
}

/// The change in size that a fill brings: its size for a buy, the opposite
/// for a sell.
pub open spec fn signed_size(f: FillTerms) -> int {
    match f.side {
        Side::Buy => f.size,
        Side::Sell => -f.size,
    }
}

/// The direction of a fill: a buy counts as upward also when its size is
/// zero, a sell as downward.
pub open spec fn fill_is_upward(f: FillTerms) -> bool {
    match f.side {
        Side::Buy => f.size >= 0,
        Side::Sell => f.size < 0,
    }
}

/// A fill reduces a position that is open in the direction opposite to it.
pub open spec fn reduces(p: PositionState, f: FillTerms) -> bool {
    p.size != 0 && (p.size > 0) != fill_is_upward(f)
}

/// How much of a reducing fill meets the position.
pub open spec fn reduced_qty(p: PositionState, f: FillTerms) -> int {
    if abs_int(signed_size(f)) <= abs_int(p.size) {
        abs_int(signed_size(f))
    } else {
        abs_int(p.size)
    }
}

/// The profit that a fill realizes: on the quantity by which it reduces the
/// position, the exit price less the entry price, counted in the
/// position's direction.
pub open spec fn realized_by(p: PositionState, f: FillTerms) -> int {
    if reduces(p, f) {
        (f.price - p.entry_price) * sign_of(p.size) * reduced_qty(p, f)
    } else {
        0
    }
}

/// The entry price after a fill: none when the position closes, the fill's
/// price when it opens or flips, unchanged when it is reduced, and the
/// volume-weighted average of old and new when it grows. The average is a
/// quotient that the position has to hold in eight places: what lies
/// beyond the eighth is cut off, toward nothing.
pub open spec fn entry_after(p: PositionState, f: FillTerms) -> int {
    let new_size = p.size + signed_size(f);
    if new_size == 0 {
        0
    } else if p.size == 0 || sign_of(new_size) != sign_of(p.size) {
        f.price
    } else if reduces(p, f) {
        p.entry_price
    } else {
        trunc_div(p.size * p.entry_price + signed_size(f) * f.price, new_size)
    }
}

/// The position after a fill. The fill's price becomes the mark price.
pub open spec fn after_fill(p: PositionState, f: FillTerms) -> PositionState {
    let new_size = p.size + signed_size(f);
    let entry = entry_after(p, f);
    PositionState {
        size: new_size,
        entry_price: entry,
        mark_price: f.price,
        unrealized_pnl: if new_size == 0 {
            0
        } else {
            (f.price - entry) * new_size
        },
        realized_pnl: p.realized_pnl + realized_by(p, f),
    }
}

/// The position after a new mark price: size and entry price stay.
pub open spec fn after_mark(p: PositionState, mark_price: int) -> PositionState {
    PositionState {
        size: p.size,
        entry_price: p.entry_price,
        mark_price,
        unrealized_pnl: if p.size == 0 {
            p.unrealized_pnl
        } else {
            (mark_price - p.entry_price) * p.size
        },
        realized_pnl: p.realized_pnl,
    }
}

/// The position after a list of fills, taken in order.
pub open spec fn after_fills(p: PositionState, fills: Seq<FillTerms>) -> PositionState
    decreases fills.len(),
{
    if fills.len() == 0 {
        p
    } else {
        after_fill(after_fills(p, fills.drop_last()), fills.last())
    }
}

/// What a list of fills realizes, fill by fill: the sum, over every fill
/// that reduces the position it meets, of exit price less entry price times
/// the quantity reduced.
pub open spec fn realized_sum(p: PositionState, fills: Seq<FillTerms>) -> int
    decreases fills.len(),
{
    if fills.len() == 0 {
        0
    } else {
        realized_sum(p, fills.drop_last()) + realized_by(
            after_fills(p, fills.drop_last()),
            fills.last(),
        )
    }
}

/// A fill leaves a position that meets the invariant, whatever it met.
pub proof fn lemma_after_fill_wf(p: PositionState, f: FillTerms)
    ensures
        state_wf(after_fill(p, f)),
{
}

/// A new mark price keeps the invariant.
pub proof fn lemma_after_mark_wf(p: PositionState, mark_price: int)
    requires
        state_wf(p),
    ensures
        state_wf(after_mark(p, mark_price)),
        after_mark(p, mark_price).size == p.size,
        after_mark(p, mark_price).entry_price == p.entry_price,
        after_mark(p, mark_price).realized_pnl == p.realized_pnl,
{
}

/// The realized profit of a position after any list of fills is what it
/// was before, plus the sum over the reducing fills of exit price less
/// entry price times the quantity reduced.
pub proof fn lemma_realized_is_sum(p: PositionState, fills: Seq<FillTerms>)
    ensures
        after_fills(p, fills).realized_pnl == p.realized_pnl + realized_sum(p, fills),
    decreases fills.len(),
{
    if fills.len() > 0 {
        lemma_realized_is_sum(p, fills.drop_last());
    }
}

/// Fills that do not reduce a position realize nothing.
pub proof fn lemma_growing_realizes_nothing(p: PositionState, f: FillTerms)
    requires
        !reduces(p, f),
    ensures
        after_fill(p, f).realized_pnl == p.realized_pnl,
{
}

/// A fill in two parts realizes what it realizes in one: two fills on one
/// side at one price, one after the other, leave the size and the realized
/// profit that a single fill of both sizes together leaves.
pub proof fn lemma_split_fill(p: PositionState, side: Side, price: int, first: int, second: int)
    requires
        first >= 0,
        second >= 0,
    ensures
        ({
            let a = FillTerms { side, price, size: first };
            let b = FillTerms { side, price, size: second };
            let whole = FillTerms { side, price, size: first + second };
            &&& after_fill(after_fill(p, a), b).size == after_fill(p, whole).size
            &&& after_fill(after_fill(p, a), b).realized_pnl == after_fill(p, whole).realized_pnl
            &&& after_fill(after_fill(p, a), b).mark_price == after_fill(p, whole).mark_price
        }),
{
    let a = FillTerms { side, price, size: first };
    let b = FillTerms { side, price, size: second };
    let whole = FillTerms { side, price, size: first + second };
    let mid = after_fill(p, a);
    let unit = (price - p.entry_price) * sign_of(p.size);
    if reduces(p, whole) {
        if first == 0 && !reduces(p, a) {
            // A sell of nothing against a short position, or a buy of
            // nothing against a long one, cannot occur here: a buy of zero
            // is upward and a sell of zero downward, as the whole is.
            assert(false);
        }
        assert(reduces(p, a));
        assert(realized_by(p, a) == unit * reduced_qty(p, a));
        assert(realized_by(p, whole) == unit * reduced_qty(p, whole));
        if first < abs_int(p.size) {
            assert(mid.entry_price == p.entry_price);
            assert(sign_of(mid.size) == sign_of(p.size));
            assert(reduces(mid, b));
            assert(realized_by(mid, b) == unit * reduced_qty(mid, b));
            assert(reduced_qty(p, a) + reduced_qty(mid, b) == reduced_qty(p, whole));
            assert(unit * reduced_qty(p, a) + unit * reduced_qty(mid, b) == unit * (reduced_qty(
                p,
                a,
            ) + reduced_qty(mid, b))) by (nonlinear_arith);
        } else {
            assert(!reduces(mid, b));
            assert(reduced_qty(p, a) == reduced_qty(p, whole));
        }
    } else {
        assert(!reduces(p, a));
        assert(!reduces(mid, b));
    }
}

/// Dividing a multiple of `n` by `n` is exact.
pub proof fn lemma_trunc_div_exact(x: int, n: int)
    requires
        n != 0,
    ensures
        trunc_div(x * n, n) == x,
{
    let ax = abs_int(x);
    let an = abs_int(n);
    assert(abs_int(x * n) == ax * an) by (nonlinear_arith)
        requires
            ax == abs_int(x),
            an == abs_int(n),
    ;
    assert((ax * an) / an == ax) by (nonlinear_arith)
        requires
            an > 0,
            ax >= 0,
    ;
    assert((x * n >= 0) == (n > 0) || x * n == 0 || x == 0 || ((x * n >= 0) != (n > 0) && x
        < 0)) by (nonlinear_arith)
        requires
            n != 0,
    ;
    if x == 0 {
        assert(x * n == 0);
    } else if x > 0 {
        assert((x * n >= 0) == (n > 0)) by (nonlinear_arith)
            requires
                x > 0,
                n != 0,
        ;
    } else {
        assert((x * n >= 0) != (n > 0)) by (nonlinear_arith)
            requires
                x < 0,
                n != 0,
        ;
    }
}

/// In a split fill that reduces, closes or flips a position, also the entry
/// price and the open profit come out as in the single fill: the whole
/// position does.
pub proof fn lemma_split_fill_entry(
    p: PositionState,
    side: Side,
    price: int,
    first: int,
    second: int,
)
    requires
        first >= 0,
        second >= 0,
        reduces(p, FillTerms { side, price, size: first + second }),
    ensures
        after_fill(
            after_fill(p, FillTerms { side, price, size: first }),
            FillTerms { side, price, size: second },
        ) == after_fill(p, FillTerms { side, price, size: first + second }),
{
    let a = FillTerms { side, price, size: first };
    let b = FillTerms { side, price, size: second };
    let whole = FillTerms { side, price, size: first + second };
    let mid = after_fill(p, a);
    lemma_split_fill(p, side, price, first, second);
    if first > abs_int(p.size) {
        let end = mid.size + signed_size(b);
        assert(mid.entry_price == price);
        assert(mid.size * price + signed_size(b) * price == price * end) by (nonlinear_arith)
            requires
                end == mid.size + signed_size(b),
        ;
        lemma_trunc_div_exact(price, end);
    }
}

} // verus!
