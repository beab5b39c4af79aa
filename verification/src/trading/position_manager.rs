//! The position ledger: one position per symbol, kept under fills and mark
//! prices, with the profit realized and the fees paid so far. Events are
//! queued here and drained by the caller, who forwards them.

use crate::clock::utc_now_millis;
use crate::numeric::decimal::{
    abs_int, as_notional, decimal_in_range, shown, div_toward_zero, mul_wide,
    notional_in_range, notional_units, print_short, Decimal, Notional, DECIMAL_SCALE,
};
use crate::datastructures::symbol_map::{
    distinct_texts, holds_key, lemma_key_slot, slot_of_key, SymbolMap,
};
use crate::trading::position_math::{
    after_fill, after_mark, fill_terms, flat_state, position_state, realized_by, reduces,
    sign_of, state_wf, PositionState,
};
use crate::trading::types::{Fill, Position, RiskLimits, Side};
use crate::utils::text::join_four;
use vstd::prelude::*;
use vstd::string::StringExecFns;

verus! {

#[derive(Debug)]
pub enum PositionEvent {
    PositionUpdated(Position),
    FillProcessed(Fill),
    PnlRealized(Notional),
}

impl Clone for PositionEvent {
    fn clone(&self) -> (r: Self)
        ensures
            r == *self,
    {
        match self {
            PositionEvent::PositionUpdated(p) => PositionEvent::PositionUpdated(p.clone()),
            PositionEvent::FillProcessed(f) => PositionEvent::FillProcessed(f.clone()),
            PositionEvent::PnlRealized(n) => PositionEvent::PnlRealized(*n),
        }
    }
}

/// What became of a change to the position ledger.
#[derive(Debug, Clone, Copy, PartialEq, Eq, Structural)]
pub enum LedgerOutcome {
    /// The ledger was changed.
    Applied,
    /// The ledger holds no position of that symbol; nothing was changed.
    NoPosition,
    /// A number that the change leads to is beyond what the ledger can
    /// hold; nothing was changed.
    OutOfRange,
}

pub open spec fn distinct_symbols(positions: Seq<Position>) -> bool {
    forall|i: int, j: int|
        0 <= i < j < positions.len() ==> positions[i].symbol@ != positions[j].symbol@
}

pub open spec fn all_positions_wf(positions: Seq<Position>) -> bool {
    forall|i: int| 0 <= i < positions.len() ==> (#[trigger] positions[i]).wf()
}

/// What holds of the ledger's positions at all times: one position per
/// symbol, each meeting the invariant of a position.
pub open spec fn positions_wf(positions: Seq<Position>) -> bool {
    distinct_symbols(positions) && all_positions_wf(positions)
}

pub open spec fn holds_symbol(positions: Seq<Position>, symbol: Seq<char>) -> bool {
    exists|i: int| 0 <= i < positions.len() && (#[trigger] positions[i]).symbol@ == symbol
}

pub open spec fn slot_of_symbol(positions: Seq<Position>, symbol: Seq<char>) -> int {
    choose|i: int| 0 <= i < positions.len() && (#[trigger] positions[i]).symbol@ == symbol
}

/// The position of a symbol, where the ledger holds one.
pub open spec fn position_of(positions: Seq<Position>, symbol: Seq<char>) -> Option<Position> {
    if holds_symbol(positions, symbol) {
        Some(positions[slot_of_symbol(positions, symbol)])
    } else {
        None
    }
}

/// The numbers of a symbol's position; those of a flat position marked at
/// `mark_price` where the ledger holds none.
pub open spec fn state_of(
    positions: Seq<Position>,
    symbol: Seq<char>,
    mark_price: int,
) -> PositionState {
    match position_of(positions, symbol) {
        Some(p) => position_state(p),
        None => flat_state(mark_price),
    }
}

/// The record that holds the numbers `state` for `symbol`.
pub open spec fn record_of(symbol: String, state: PositionState, now: i64) -> Position {
    Position {
        symbol,
        size: Decimal::from_units(state.size),
        entry_price: Decimal::from_units(state.entry_price),
        mark_price: Decimal::from_units(state.mark_price),
        unrealized_pnl: Notional::from_units(state.unrealized_pnl),
        realized_pnl: Notional::from_units(state.realized_pnl),
        updated_at: now,
    }
}

/// The positions with `record` among them: in the place of the position of
/// its symbol where there is one, at the end where there is none.
pub open spec fn put_position(positions: Seq<Position>, record: Position) -> Seq<Position> {
    if holds_symbol(positions, record.symbol@) {
        positions.update(slot_of_symbol(positions, record.symbol@), record)
    } else {
        positions.push(record)
    }
}

/// The ledger can hold the numbers of a position.
pub open spec fn state_in_range(state: PositionState) -> bool {
    &&& decimal_in_range(state.size)
    &&& decimal_in_range(state.entry_price)
    &&& decimal_in_range(state.mark_price)
    &&& notional_in_range(state.unrealized_pnl)
    &&& notional_in_range(state.realized_pnl)
}

/// The ledger can hold all that a fill leads to: the position after it,
/// what it realizes, and the totals of realized profit and of fees.
pub open spec fn fill_fits(
    positions: Seq<Position>,
    realized_total: int,
    fees_total: int,
    fill: Fill,
) -> bool {
    let before = state_of(positions, fill.symbol@, fill.price@);
    &&& state_in_range(after_fill(before, fill_terms(fill)))
    &&& notional_in_range(realized_by(before, fill_terms(fill)))
    &&& notional_in_range(realized_total + realized_by(before, fill_terms(fill)))
    &&& notional_in_range(fees_total + fill.fee@ * DECIMAL_SCALE)
}

/// The events of a fill: what it realized, where it reduced the position,
/// then the fill, then the position as it stands.
pub open spec fn fill_events(before: PositionState, fill: Fill, record: Position) -> Seq<
    PositionEvent,
> {
    if reduces(before, fill_terms(fill)) {
        seq![
            PositionEvent::PnlRealized(
                Notional::from_units(realized_by(before, fill_terms(fill))),
            ),
            PositionEvent::FillProcessed(fill),
            PositionEvent::PositionUpdated(record),
        ]
    } else {
        seq![PositionEvent::FillProcessed(fill), PositionEvent::PositionUpdated(record)]
    }
}

/// The numbers that `update_position` sets: size, entry and mark price as
/// given, with the open profit that they show; a flat position has no
/// entry price. The realized profit stays.
pub open spec fn state_set(
    realized_pnl: int,
    size: int,
    entry_price: int,
    mark_price: int,
) -> PositionState {
    PositionState {
        size,
        entry_price: if size == 0 {
            0
        } else {
            entry_price
        },
        mark_price,
        unrealized_pnl: if size == 0 {
            0
        } else {
            (mark_price - entry_price) * size
        },
        realized_pnl,
    }
}

/// The open profit of the first `n` positions added up, while a `Notional`
/// holds every partial sum.
pub open spec fn unrealized_total(positions: Seq<Position>, n: int) -> Option<int>
    decreases n,
{
    if n <= 0 {
        Some(0)
    } else {
        match unrealized_total(positions, n - 1) {
            Some(sum) => as_notional(sum + positions[n - 1].unrealized_pnl@),
            None => None,
        }
    }
}

/// Realized profit and all open profit together.
pub open spec fn total_pnl_of(positions: Seq<Position>, realized_total: int) -> Option<int> {
    match unrealized_total(positions, positions.len() as int) {
        Some(open) => as_notional(realized_total + open),
        None => None,
    }
}

/// Size in magnitude times mark price of the first `n` positions added up,
/// while a `Notional` holds every product and every partial sum.
pub open spec fn exposure_total(positions: Seq<Position>, n: int) -> Option<int>
    decreases n,
{
    if n <= 0 {
        Some(0)
    } else {
        match (
            exposure_total(positions, n - 1),
            as_notional(abs_int(positions[n - 1].size@) * positions[n - 1].mark_price@),
        ) {
            (Some(sum), Some(product)) => as_notional(sum + product),
            _ => None,
        }
    }
}

/// What a risk check finds.
pub enum RiskFinding {
    /// Nothing stands against the order.
    Clear,
    /// The position would be of this size, beyond the limit.
    PositionTooLarge { size: int },
    /// Profit and loss together are at this amount, below the loss allowed.
    LossTooLarge { pnl: int },
    /// Profit and loss together are beyond what the ledger can add up.
    PnlUnknown,
}

/// The finding of `check_risk_limits`: first the size that the position
/// would have, then the loss of the day.
pub open spec fn risk_finding(
    positions: Seq<Position>,
    realized_total: int,
    limits: RiskLimits,
    symbol: Seq<char>,
    new_order_size: int,
) -> RiskFinding {
    let current = match position_of(positions, symbol) {
        Some(p) => p.size@,
        None => 0,
    };
    let size = abs_int(current + new_order_size);
    if size > limits.max_position_size@ {
        RiskFinding::PositionTooLarge { size }
    } else {
        match total_pnl_of(positions, realized_total) {
            None => RiskFinding::PnlUnknown,
            Some(pnl) => if pnl < -(limits.max_daily_loss@ * DECIMAL_SCALE) {
                RiskFinding::LossTooLarge { pnl }
            } else {
                RiskFinding::Clear
            },
        }
    }
}

/// The words in which a finding is reported.
pub open spec fn finding_text(finding: RiskFinding, limits: RiskLimits) -> Seq<char> {
    match finding {
        RiskFinding::Clear => Seq::empty(),
        RiskFinding::PositionTooLarge { size } => "Position size "@ + shown(size, 8)
            + " would exceed limit "@ + shown(limits.max_position_size@, 8),
        RiskFinding::LossTooLarge { pnl } => "Daily loss "@ + shown(pnl, 16)
            + " exceeds limit "@ + shown(limits.max_daily_loss@, 8),
        RiskFinding::PnlUnknown => "Profit and loss are out of range"@,
    }
}

proof fn lemma_symbol_slot(positions: Seq<Position>, symbol: Seq<char>, i: int)
    requires
        distinct_symbols(positions),
        0 <= i < positions.len(),
        positions[i].symbol@ == symbol,
    ensures
        holds_symbol(positions, symbol),
        slot_of_symbol(positions, symbol) == i,
{
    let c = slot_of_symbol(positions, symbol);
    if c < i {
        assert(positions[c].symbol@ != positions[i].symbol@);
    } else if i < c {
        assert(positions[i].symbol@ != positions[c].symbol@);
    }
}

proof fn lemma_put_position_wf_parts(positions: Seq<Position>, record: Position)
    requires
        all_positions_wf(positions),
        record.wf(),
    ensures
        all_positions_wf(positions.push(record)),
        forall|k: int|
            0 <= k < positions.len() ==> all_positions_wf(#[trigger] positions.update(k, record)),
{
    assert forall|i: int| 0 <= i < positions.push(record).len() implies (#[trigger] positions.push(
        record,
    )[i]).wf() by {
        if i < positions.len() {
            assert(positions[i].wf());
        }
    }
    assert forall|k: int| 0 <= k < positions.len() implies all_positions_wf(
        #[trigger] positions.update(k, record),
    ) by {
        assert forall|i: int| 0 <= i < positions.len() implies (#[trigger] positions.update(
            k,
            record,
        )[i]).wf() by {
            if i != k {
                assert(positions[i].wf());
            }
        }
    }
}

/// A record of numbers that meet the invariant and are in range meets the
/// invariant of a position, and holds those numbers.
proof fn lemma_record_holds(symbol: String, state: PositionState, now: i64)
    requires
        state_in_range(state),
    ensures
        position_state(record_of(symbol, state, now)) == state,
        state_wf(state) ==> record_of(symbol, state, now).wf(),
{
    broadcast use Decimal::lemma_from_units, Notional::lemma_from_units;

}

proof fn lemma_unrealized_stays_undefined(positions: Seq<Position>, at: int, n: int)
    requires
        0 <= at <= n,
        unrealized_total(positions, at) is None,
    ensures
        unrealized_total(positions, n) is None,
    decreases n - at,
{
    if at < n {
        lemma_unrealized_stays_undefined(positions, at + 1, n);
    }
}

proof fn lemma_exposure_stays_undefined(positions: Seq<Position>, at: int, n: int)
    requires
        0 <= at <= n,
        exposure_total(positions, at) is None,
    ensures
        exposure_total(positions, n) is None,
    decreases n - at,
{
    if at < n {
        lemma_exposure_stays_undefined(positions, at + 1, n);
    }
}

/// Each position stands under its own symbol.
pub open spec fn keyed_by_symbol(keys: Seq<Seq<char>>, positions: Seq<Position>) -> bool {
    &&& keys.len() == positions.len()
    &&& forall|i: int| 0 <= i < positions.len() ==> keys[i] == (#[trigger] positions[i]).symbol@
}

proof fn lemma_keys_give_symbols(keys: Seq<Seq<char>>, positions: Seq<Position>)
    requires
        keyed_by_symbol(keys, positions),
        distinct_texts(keys),
    ensures
        distinct_symbols(positions),
        forall|symbol: Seq<char>|
            holds_key(keys, symbol) <==> #[trigger] holds_symbol(positions, symbol),
        forall|symbol: Seq<char>| #[trigger]
            holds_symbol(positions, symbol) ==> slot_of_symbol(positions, symbol) == slot_of_key(
                keys,
                symbol,
            ),
{
    assert forall|i: int, j: int| 0 <= i < j < positions.len() implies positions[i].symbol@
        != positions[j].symbol@ by {
        assert(keys[i] != keys[j]);
    }
    assert forall|symbol: Seq<char>|
        holds_key(keys, symbol) <==> #[trigger] holds_symbol(positions, symbol) by {
        if holds_key(keys, symbol) {
            let i = slot_of_key(keys, symbol);
            assert(positions[i].symbol@ == symbol);
        }
        if holds_symbol(positions, symbol) {
            let i = slot_of_symbol(positions, symbol);
            assert(keys[i] == symbol);
        }
    }
    assert forall|symbol: Seq<char>| #[trigger] holds_symbol(positions, symbol) implies slot_of_symbol(
        positions,
        symbol,
    ) == slot_of_key(keys, symbol) by {
        let i = slot_of_symbol(positions, symbol);
        assert(keys[i] == symbol);
        lemma_key_slot(keys, symbol, i);
    }
}

pub struct PositionManager {
    positions: SymbolMap<Position>,
    realized_pnl: Notional,
    total_fees: Notional,
    events: Vec<PositionEvent>,
}

impl PositionManager {
    #[verifier::type_invariant]
    spec fn sound(&self) -> bool {
        &&& self.positions.wf()
        &&& all_positions_wf(self.positions.values_view())
        &&& keyed_by_symbol(self.positions.keys_view(), self.positions.values_view())
    }

    /// The positions, in the order in which their symbols first came.
    pub closed spec fn positions_view(&self) -> Seq<Position> {
        self.positions.values_view()
    }

    /// The profit realized so far, over all symbols.
    pub closed spec fn realized_view(&self) -> int {
        self.realized_pnl@
    }

    /// The fees paid so far, over all symbols.
    pub closed spec fn fees_view(&self) -> int {
        self.total_fees@
    }

    /// The events that wait to be drained.
    pub closed spec fn events_view(&self) -> Seq<PositionEvent> {
        self.events@
    }

    /// A ledger that holds no positions.
    pub fn new() -> (r: Self)
        ensures
            r.positions_view() == Seq::<Position>::empty(),
            r.realized_view() == 0,
            r.fees_view() == 0,
            r.events_view() == Seq::<PositionEvent>::empty(),
    {
        PositionManager {
            positions: SymbolMap::new(),
            realized_pnl: Notional::zero(),
            total_fees: Notional::zero(),
            events: Vec::new(),
        }
    }

    fn find(&self, symbol: &str) -> (r: Option<usize>)
        ensures
            positions_wf(self.positions.values_view()),
            self.positions.wf(),
            r is Some <==> holds_symbol(self.positions.values_view(), symbol@),
            r matches Some(i) ==> i == slot_of_symbol(self.positions.values_view(), symbol@) && i
                < self.positions.values_view().len() && self.positions.values_view()[i as int].symbol@
                == symbol@,
    {
        proof {
            use_type_invariant(self);
        }
        let found = self.positions.find(symbol);
        proof {
            let keys = self.positions.keys_view();
            let held = self.positions.values_view();
            lemma_keys_give_symbols(keys, held);
            assert(holds_key(keys, symbol@) == holds_symbol(held, symbol@));
            if holds_symbol(held, symbol@) {
                assert(slot_of_symbol(held, symbol@) == slot_of_key(keys, symbol@));
            }
        }
        found
    }

    fn store(&mut self, record: Position)
        requires
            record.wf(),
        ensures
            final(self).positions.values_view() == put_position(
                old(self).positions.values_view(),
                record,
            ),
            positions_wf(final(self).positions.values_view()),
            position_of(final(self).positions.values_view(), record.symbol@) == Some(record),
            final(self).realized_pnl == old(self).realized_pnl,
            final(self).total_fees == old(self).total_fees,
            final(self).events@ == old(self).events@,
    {
        proof {
            use_type_invariant(&*self);
            lemma_put_position_wf_parts(self.positions.values_view(), record);
            lemma_keys_give_symbols(self.positions.keys_view(), self.positions.values_view());
        }
        let ghost keys_before = self.positions.keys_view();
        let ghost held_before = self.positions.values_view();
        let mut positions: SymbolMap<Position> = SymbolMap::new();
        core::mem::swap(&mut positions, &mut self.positions);
        positions.insert(record.symbol.clone(), record);
        proof {
            assert(holds_symbol(held_before, record.symbol@) == holds_key(
                keys_before,
                record.symbol@,
            ));
            assert(positions.values_view() == put_position(held_before, record));
            assert(keyed_by_symbol(positions.keys_view(), positions.values_view()));
            lemma_keys_give_symbols(positions.keys_view(), positions.values_view());
            lemma_put_holds(held_before, record);
        }
        self.positions = positions;
    }

    fn push_event(&mut self, event: PositionEvent)
        ensures
            final(self).events@ == old(self).events@.push(event),
            final(self).positions == old(self).positions,
            final(self).realized_pnl == old(self).realized_pnl,
            final(self).total_fees == old(self).total_fees,
    {
        proof {
            use_type_invariant(&*self);
        }
        let mut events: Vec<PositionEvent> = Vec::new();
        core::mem::swap(&mut events, &mut self.events);
        events.push(event);
        self.events = events;
    }

    /// What `update_position_at` does to the ledger.
    pub open spec fn position_set(
        before: Self,
        after: Self,
        symbol: String,
        size: Decimal,
        entry_price: Decimal,
        mark_price: Decimal,
        now: i64,
        outcome: LedgerOutcome,
    ) -> bool {
        let realized = state_of(
            before.positions_view(),
            symbol@,
            mark_price@,
        ).realized_pnl;
        let state = state_set(realized, size@, entry_price@, mark_price@);
        let record = record_of(symbol, state, now);
        if notional_in_range(state.unrealized_pnl) {
            &&& outcome is Applied
            &&& after.positions_view() == put_position(
                before.positions_view(),
                record,
            )
            &&& after.events_view() == before.events_view().push(
                PositionEvent::PositionUpdated(record),
            )
        } else {
            &&& outcome is OutOfRange
            &&& after.positions_view() == before.positions_view()
            &&& after.events_view() == before.events_view()
        }
    }

    /// Sets size, entry price and mark price of a symbol's position, as an
    /// account statement reports them, and the open profit that they show;
    /// enters the position where the ledger holds none. Queues the event
    /// that the position was updated.
    pub fn update_position_at(
        &mut self,
        symbol: String,
        size: Decimal,
        entry_price: Decimal,
        mark_price: Decimal,
        now: i64,
    ) -> (outcome: LedgerOutcome)
        ensures
            Self::position_set(
                *old(self),
                *final(self),
                symbol,
                size,
                entry_price,
                mark_price,
                now,
                outcome,
            ),
            final(self).realized_view() == old(self).realized_view(),
            final(self).fees_view() == old(self).fees_view(),
            positions_wf(final(self).positions_view()),
    {
        proof {
            use_type_invariant(&*self);
        }
        let slot = self.find(symbol.as_str());
        let realized = match slot {
            Some(i) => self.positions.value_at(i).realized_pnl,
            None => Notional::zero(),
        };
        let size_units = size.raw() as i128;
        let entry_units = entry_price.raw() as i128;
        let mark_units = mark_price.raw() as i128;
        let (entry, unrealized) = if size_units == 0 {
            (Decimal::zero(), Some(Notional::zero()))
        } else {
            (
                entry_price,
                Notional::from_raw(mul_wide(mark_units - entry_units, size_units)),
            )
        };
        let unrealized = match unrealized {
            Some(u) => u,
            None => {
                return LedgerOutcome::OutOfRange;
            },
        };
        let ghost state = state_set(realized@, size@, entry_price@, mark_price@);
        let record = Position {
            symbol,
            size,
            entry_price: entry,
            mark_price,
            unrealized_pnl: unrealized,
            realized_pnl: realized,
            updated_at: now,
        };
        proof {
            broadcast use Decimal::lemma_units_round_trip, Notional::lemma_units_round_trip;

            assert(record == record_of(symbol, state, now));
            assert(record.wf());
        }
        let event = PositionEvent::PositionUpdated(record.clone());
        self.store(record);
        self.push_event(event);
        LedgerOutcome::Applied
    }

    /// `update_position_at` with the present time.
    pub fn update_position(
        &mut self,
        symbol: String,
        size: Decimal,
        entry_price: Decimal,
        mark_price: Decimal,
    ) -> (outcome: LedgerOutcome)
        ensures
            exists|now: i64| #[trigger]
                Self::position_set(
                    *old(self),
                    *final(self),
                    symbol,
                    size,
                    entry_price,
                    mark_price,
                    now,
                    outcome,
                ),
            final(self).realized_view() == old(self).realized_view(),
            final(self).fees_view() == old(self).fees_view(),
            positions_wf(final(self).positions_view()),
    {
        let now = utc_now_millis();
        self.update_position_at(symbol, size, entry_price, mark_price, now)
    }

    /// What `process_fill_at` does to the ledger.
    pub open spec fn fill_taken(
        before: Self,
        after: Self,
        fill: Fill,
        now: i64,
        outcome: LedgerOutcome,
    ) -> bool {
        let met = state_of(before.positions_view(), fill.symbol@, fill.price@);
        let landed = after_fill(met, fill_terms(fill));
        let record = record_of(fill.symbol, landed, now);
        if fill_fits(
            before.positions_view(),
            before.realized_view(),
            before.fees_view(),
            fill,
        ) {
            &&& outcome is Applied
            &&& after.positions_view() == put_position(
                before.positions_view(),
                record,
            )
            &&& position_state(record) == landed
            &&& position_of(after.positions_view(), fill.symbol@) == Some(record)
            &&& after.realized_view() == before.realized_view() + realized_by(
                met,
                fill_terms(fill),
            )
            &&& after.fees_view() == before.fees_view() + fill.fee@
                * DECIMAL_SCALE
            &&& after.events_view() == before.events_view() + fill_events(
                met,
                fill,
                record,
            )
        } else {
            &&& outcome is OutOfRange
            &&& after.positions_view() == before.positions_view()
            &&& after.realized_view() == before.realized_view()
            &&& after.fees_view() == before.fees_view()
            &&& after.events_view() == before.events_view()
        }
    }

    /// Takes a fill into the position of its symbol, which is entered flat
    /// where the ledger holds none: realizes profit on what the fill
    /// reduces, then closes, flips, reduces or grows the position, marks it
    /// at the fill's price and stamps it with `now`. Adds what was realized
    /// and the fee to the totals, and queues the events of the fill.
    pub fn process_fill_at(&mut self, fill: &Fill, now: i64) -> (outcome: LedgerOutcome)
        ensures
            Self::fill_taken(*old(self), *final(self), *fill, now, outcome),
            positions_wf(final(self).positions_view()),
    {
        proof {
            use_type_invariant(&*self);
        }
        let slot = self.find(fill.symbol.as_str());
        let price = fill.price.raw() as i128;
        let qty = fill.size.raw() as i128;
        let (size, entry, realized) = match slot {
            Some(i) => (
                self.positions.value_at(i).size.raw() as i128,
                self.positions.value_at(i).entry_price.raw() as i128,
                self.positions.value_at(i).realized_pnl.raw(),
            ),
            None => (0, 0, 0),
        };
        let ghost before = state_of(self.positions.values_view(), fill.symbol@, fill.price@);
        let ghost terms = fill_terms(*fill);
        let ghost after = after_fill(before, terms);
        assert(before.size == size && before.entry_price == entry && before.realized_pnl
            == realized);
        let (delta, upward) = match fill.side {
            Side::Buy => (qty, qty >= 0),
            Side::Sell => (-qty, qty < 0),
        };
        let reducing = size != 0 && (size > 0) != upward;
        let gain: i128 = if reducing {
            let delta_abs = if delta < 0 {
                -delta
            } else {
                delta
            };
            let size_abs = if size < 0 {
                -size
            } else {
                size
            };
            let overlap = if delta_abs <= size_abs {
                delta_abs
            } else {
                size_abs
            };
            let per_unit = if size > 0 {
                price - entry
            } else {
                entry - price
            };
            proof {
                let diff = price - entry;
                if size > 0 {
                    assert(sign_of(size as int) == 1);
                    assert(diff * 1 == per_unit);
                } else {
                    assert(sign_of(size as int) == -1);
                    assert(diff * (-1) == per_unit);
                }
                assert(diff * sign_of(size as int) == per_unit);
            }
            mul_wide(per_unit, overlap)
        } else {
            0
        };
        assert(gain == realized_by(before, terms));
        let new_size = size + delta;
        let new_entry: i128 = if new_size == 0 {
            0
        } else if size == 0 || (new_size > 0) != (size > 0) {
            price
        } else if reducing {
            entry
        } else {
            div_toward_zero(mul_wide(size, entry) + mul_wide(delta, price), new_size)
        };
        assert(new_entry == after.entry_price);
        let size_d = Decimal::from_i128(new_size);
        let entry_d = Decimal::from_i128(new_entry);
        let (size_d, entry_d) = match (size_d, entry_d) {
            (Some(s), Some(e)) => (s, e),
            _ => {
                return LedgerOutcome::OutOfRange;
            },
        };
        let open: i128 = if new_size == 0 {
            0
        } else {
            mul_wide(price - new_entry, new_size)
        };
        assert(open == after.unrealized_pnl);
        let fee = Notional::from_decimal(&fill.fee);
        let parts = (
            Notional::from_raw(open),
            Notional::from_raw(realized + gain),
            Notional::from_raw(gain),
            Notional::from_raw(self.realized_pnl.raw() + gain),
            self.total_fees.checked_add(&fee),
        );
        let (open_n, realized_n, gain_n, total_n, fees_n) = match parts {
            (Some(a), Some(b), Some(c), Some(d), Some(e)) => (a, b, c, d, e),
            _ => {
                return LedgerOutcome::OutOfRange;
            },
        };
        let record = Position {
            symbol: fill.symbol.clone(),
            size: size_d,
            entry_price: entry_d,
            mark_price: fill.price,
            unrealized_pnl: open_n,
            realized_pnl: realized_n,
            updated_at: now,
        };
        proof {
            broadcast use Decimal::lemma_units_round_trip, Notional::lemma_units_round_trip;

            assert(record == record_of(fill.symbol, after, now));
            crate::trading::position_math::lemma_after_fill_wf(before, terms);
            lemma_record_holds(fill.symbol, after, now);
        }
        let ghost events_before = self.events@;
        let updated = PositionEvent::PositionUpdated(record.clone());
        self.store(record);
        proof {
            use_type_invariant(&*self);
        }
        self.realized_pnl = total_n;
        self.total_fees = fees_n;
        if reducing {
            self.push_event(PositionEvent::PnlRealized(gain_n));
        }
        self.push_event(PositionEvent::FillProcessed(fill.clone()));
        self.push_event(updated);
        assert(self.events@ =~= events_before + fill_events(before, *fill, record));
        LedgerOutcome::Applied
    }

    /// `process_fill_at` with the present time.
    pub fn process_fill(&mut self, fill: &Fill) -> (outcome: LedgerOutcome)
        ensures
            exists|now: i64| #[trigger] Self::fill_taken(*old(self), *final(self), *fill, now, outcome),
            (outcome is Applied) == fill_fits(
                old(self).positions_view(),
                old(self).realized_view(),
                old(self).fees_view(),
                *fill,
            ),
            positions_wf(final(self).positions_view()),
    {
        let now = utc_now_millis();
        self.process_fill_at(fill, now)
    }

    /// What `update_mark_prices_at` does to the positions and the events.
    pub open spec fn mark_taken(
        before: Self,
        after: Self,
        symbol: Seq<char>,
        mark_price: Decimal,
        now: i64,
        outcome: LedgerOutcome,
    ) -> bool {
        match position_of(before.positions_view(), symbol) {
            None => outcome is NoPosition,
            Some(p) => {
                let state = after_mark(position_state(p), mark_price@);
                if notional_in_range(state.unrealized_pnl) {
                    &&& outcome is Applied
                    &&& after.positions_view() == put_position(
                        before.positions_view(),
                        record_of(p.symbol, state, now),
                    )
                    &&& after.events_view() == before.events_view().push(
                        PositionEvent::PositionUpdated(record_of(p.symbol, state, now)),
                    )
                } else {
                    outcome is OutOfRange
                }
            },
        }
    }

    /// Marks the position of a symbol at a new price and shows its open
    /// profit at that price; size and entry price stay. Queues the event
    /// that the position was updated.
    pub fn update_mark_prices_at(&mut self, symbol: &str, mark_price: Decimal, now: i64) -> (outcome:
        LedgerOutcome)
        ensures
            Self::mark_taken(*old(self), *final(self), symbol@, mark_price, now, outcome),
            !(outcome is Applied) ==> final(self).positions_view() == old(self).positions_view()
                && final(self).events_view() == old(self).events_view(),
            final(self).realized_view() == old(self).realized_view(),
            final(self).fees_view() == old(self).fees_view(),
            positions_wf(final(self).positions_view()),
    {
        proof {
            use_type_invariant(&*self);
        }
        let slot = match self.find(symbol) {
            Some(i) => i,
            None => {
                return LedgerOutcome::NoPosition;
            },
        };
        let current = self.positions.value_at(slot);
        assert(current.wf());
        let size = current.size.raw() as i128;
        let entry = current.entry_price.raw() as i128;
        let mark = mark_price.raw() as i128;
        let open = if size == 0 {
            Some(current.unrealized_pnl)
        } else {
            Notional::from_raw(mul_wide(mark - entry, size))
        };
        let open = match open {
            Some(o) => o,
            None => {
                return LedgerOutcome::OutOfRange;
            },
        };
        let ghost state = after_mark(position_state(*current), mark_price@);
        let record = Position {
            symbol: current.symbol.clone(),
            size: current.size,
            entry_price: current.entry_price,
            mark_price,
            unrealized_pnl: open,
            realized_pnl: current.realized_pnl,
            updated_at: now,
        };
        proof {
            broadcast use Decimal::lemma_units_round_trip, Notional::lemma_units_round_trip;

            assert(record == record_of(current.symbol, state, now));
            assert(record.wf());
        }
        let event = PositionEvent::PositionUpdated(record.clone());
        self.store(record);
        self.push_event(event);
        LedgerOutcome::Applied
    }

    /// `update_mark_prices_at` with the present time.
    pub fn update_mark_prices(&mut self, symbol: &str, mark_price: Decimal) -> (outcome:
        LedgerOutcome)
        ensures
            exists|now: i64| #[trigger]
                Self::mark_taken(*old(self), *final(self), symbol@, mark_price, now, outcome),
            !(outcome is Applied) ==> final(self).positions_view() == old(self).positions_view()
                && final(self).events_view() == old(self).events_view(),
            final(self).realized_view() == old(self).realized_view(),
            final(self).fees_view() == old(self).fees_view(),
            positions_wf(final(self).positions_view()),
    {
        let now = utc_now_millis();
        self.update_mark_prices_at(symbol, mark_price, now)
    }

    /// The position of a symbol, where the ledger holds one.
    pub fn get_position(&self, symbol: &str) -> (r: Option<Position>)
        ensures
            r == position_of(self.positions_view(), symbol@),
            r matches Some(p) ==> p.wf() && p.symbol@ == symbol@,
    {
        proof {
            use_type_invariant(self);
        }
        match self.find(symbol) {
            Some(i) => Some(self.positions.value_at(i).clone()),
            None => None,
        }
    }

    /// The open profit of all positions together; `None` where the sum
    /// leaves the range of `Notional`.
    pub fn get_total_unrealized_pnl(&self) -> (r: Option<Notional>)
        ensures
            notional_units(r) == unrealized_total(
                self.positions_view(),
                self.positions_view().len() as int,
            ),
    {
        let mut total = Notional::zero();
        let n = self.positions.len();
        let mut i: usize = 0;
        while i < n
            invariant
                i <= n,
                n == self.positions.spec_len(),
                self.positions.wf(),
                unrealized_total(self.positions.values_view(), i as int) == Some(total@),
            decreases n - i,
        {
            match total.checked_add(&self.positions.value_at(i).unrealized_pnl) {
                Some(t) => {
                    total = t;
                },
                None => {
                    proof {
                        lemma_unrealized_stays_undefined(
                            self.positions.values_view(),
                            i as int + 1,
                            self.positions.values_view().len() as int,
                        );
                    }
                    return None;
                },
            }
            i = i + 1;
        }
        Some(total)
    }

    /// Realized profit and all open profit together; `None` where the sum
    /// leaves the range of `Notional`.
    pub fn get_total_pnl(&self) -> (r: Option<Notional>)
        ensures
            notional_units(r) == total_pnl_of(self.positions_view(), self.realized_view()),
    {
        match self.get_total_unrealized_pnl() {
            Some(open) => self.realized_pnl.checked_add(&open),
            None => None,
        }
    }

    /// Size times mark price of a symbol's position; nothing where the
    /// ledger holds none, `None` where the product leaves the range.
    pub fn get_position_value(&self, symbol: &str) -> (r: Option<Notional>)
        ensures
            notional_units(r) == match position_of(self.positions_view(), symbol@) {
                Some(p) => as_notional(p.size@ * p.mark_price@),
                None => Some(0),
            },
    {
        match self.find(symbol) {
            Some(i) => self.positions.value_at(i).size.checked_mul(&self.positions.value_at(i).mark_price),
            None => Some(Notional::zero()),
        }
    }

    /// Size in magnitude times mark price, over all positions; `None` where
    /// a product or the sum leaves the range of `Notional`.
    pub fn get_net_exposure(&self) -> (r: Option<Notional>)
        ensures
            notional_units(r) == exposure_total(
                self.positions_view(),
                self.positions_view().len() as int,
            ),
    {
        let mut total = Notional::zero();
        let n = self.positions.len();
        let mut i: usize = 0;
        while i < n
            invariant
                i <= n,
                n == self.positions.spec_len(),
                self.positions.wf(),
                exposure_total(self.positions.values_view(), i as int) == Some(total@),
            decreases n - i,
        {
            let product = self.positions.value_at(i).size.abs().checked_mul(
                &self.positions.value_at(i).mark_price,
            );
            let next = match product {
                Some(p) => total.checked_add(&p),
                None => None,
            };
            match next {
                Some(t) => {
                    total = t;
                },
                None => {
                    proof {
                        lemma_exposure_stays_undefined(
                            self.positions.values_view(),
                            i as int + 1,
                            self.positions.values_view().len() as int,
                        );
                    }
                    return None;
                },
            }
            i = i + 1;
        }
        Some(total)
    }

    /// Whether an order of `new_order_size` (negative for a sell) may be
    /// placed: the position that it would lead to must be within the size
    /// limit, and profit and loss together not below the loss allowed.
    pub fn check_risk_limits(&self, limits: &RiskLimits, symbol: &str, new_order_size: Decimal) -> (r:
        Result<(), String>)
        ensures
            ({
                let finding = risk_finding(
                    self.positions_view(),
                    self.realized_view(),
                    *limits,
                    symbol@,
                    new_order_size@,
                );
                match r {
                    Ok(_) => finding is Clear,
                    Err(text) => !(finding is Clear) && text@ == finding_text(finding, *limits),
                }
            }),
    {
        let current: i128 = match self.find(symbol) {
            Some(i) => self.positions.value_at(i).size.raw() as i128,
            None => 0,
        };
        let sum = current + new_order_size.raw() as i128;
        let size = if sum < 0 {
            -sum
        } else {
            sum
        };
        let limit = limits.max_position_size.raw();
        if size > limit as i128 {
            let text = join_four(
                "Position size ",
                print_short(size, 8).as_str(),
                " would exceed limit ",
                limits.max_position_size.to_string().as_str(),
            );
            return Err(text);
        }
        let pnl = match self.get_total_pnl() {
            Some(p) => p,
            None => {
                return Err("Profit and loss are out of range".to_string());
            },
        };
        let allowed = Notional::from_decimal(&limits.max_daily_loss).neg();
        if pnl.lt(&allowed) {
            let text = join_four(
                "Daily loss ",
                pnl.to_string().as_str(),
                " exceeds limit ",
                limits.max_daily_loss.to_string().as_str(),
            );
            return Err(text);
        }
        Ok(())
    }

    /// The profit realized so far, over all symbols.
    pub fn get_realized_pnl(&self) -> (r: Notional)
        ensures
            r@ == self.realized_view(),
    {
        self.realized_pnl
    }

    /// The fees paid so far, over all symbols.
    pub fn get_total_fees(&self) -> (r: Notional)
        ensures
            r@ == self.fees_view(),
    {
        self.total_fees
    }

    /// The positions, in the order in which their symbols first came.
    pub fn get_all_positions(&self) -> (r: Vec<Position>)
        ensures
            r@ == self.positions_view(),
    {
        let mut out: Vec<Position> = Vec::new();
        let n = self.positions.len();
        let mut i: usize = 0;
        while i < n
            invariant
                i <= n,
                n == self.positions.spec_len(),
                self.positions.wf(),
                out@ == self.positions.values_view().take(i as int),
            decreases n - i,
        {
            out.push(self.positions.value_at(i).clone());
            assert(out@ =~= self.positions.values_view().take(i + 1));
            i = i + 1;
        }
        assert(self.positions.values_view().take(i as int) =~= self.positions.values_view());
        out
    }

    /// Hands out the events that wait, oldest first, and forgets them.
    pub fn drain_events(&mut self) -> (r: Vec<PositionEvent>)
        ensures
            r@ == old(self).events_view(),
            final(self).events_view() == Seq::<PositionEvent>::empty(),
            final(self).positions_view() == old(self).positions_view(),
            final(self).realized_view() == old(self).realized_view(),
            final(self).fees_view() == old(self).fees_view(),
    {
        proof {
            use_type_invariant(&*self);
        }
        let mut out: Vec<PositionEvent> = Vec::new();
        core::mem::swap(&mut out, &mut self.events);
        out
    }

    /// How many positions the ledger holds.
    pub fn len(&self) -> (r: usize)
        ensures
            r == self.positions_view().len(),
    {
        self.positions.len()
    }

    /// Whether the ledger holds no positions.
    pub fn is_empty(&self) -> (r: bool)
        ensures
            r == (self.positions_view().len() == 0),
    {
        self.positions.len() == 0
    }
}

impl Default for PositionManager {
    fn default() -> (r: Self)
        ensures
            r.positions_view() == Seq::<Position>::empty(),
            r.realized_view() == 0,
            r.fees_view() == 0,
            r.events_view() == Seq::<PositionEvent>::empty(),
    {
        PositionManager::new()
    }
}

/// After a record is put among the positions, it is the position of its symbol.
pub proof fn lemma_put_holds(positions: Seq<Position>, record: Position)
    requires
        distinct_symbols(positions),
    ensures
        position_of(put_position(positions, record), record.symbol@) == Some(record),
{
    let out = put_position(positions, record);
    if holds_symbol(positions, record.symbol@) {
        let k = slot_of_symbol(positions, record.symbol@);
        assert(out[k] == record);
        assert forall|i: int, j: int| 0 <= i < j < out.len() implies out[i].symbol@
            != out[j].symbol@ by {
            assert(out[i].symbol@ == positions[i].symbol@);
            assert(out[j].symbol@ == positions[j].symbol@);
        }
        lemma_symbol_slot(out, record.symbol@, k);
    } else {
        let k = positions.len() as int;
        assert(out[k] == record);
        assert forall|i: int, j: int| 0 <= i < j < out.len() implies out[i].symbol@
            != out[j].symbol@ by {
            if j == positions.len() {
                assert(positions[i].symbol@ != record.symbol@);
            }
        }
        lemma_symbol_slot(out, record.symbol@, k);
    }
}

} // verus!
