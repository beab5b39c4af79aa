//! The order ledger: every order the engine has placed, with its lifecycle
//! state, and the events and cancel requests that its operations give rise
//! to. Events and requests are queued here and drained by the caller, who
//! forwards them.

use crate::clock::{fresh_uuid, utc_now_millis};
use crate::datastructures::id_map::{distinct_keys, holds_id, slot_of_id, IdMap};
use crate::datastructures::symbol_map::same_text;
use crate::numeric::decimal::{
    decimal_in_range, digits_view, product_of, sum_of, Decimal, Digits,
};
use crate::trading::types::{clone_text, NewOrder, Order, OrderAction, OrderStatus, Side};
use vstd::prelude::*;

verus! {

#[derive(Debug)]
pub enum OrderEvent {
    OrderPlaced(Order),
    OrderUpdated(Order),
    OrderCancelled(u128),
    OrderFilled(Order),
}

impl Clone for OrderEvent {
    fn clone(&self) -> (r: Self)
        ensures
            r == *self,
    {
        match self {
            OrderEvent::OrderPlaced(o) => OrderEvent::OrderPlaced(o.clone()),
            OrderEvent::OrderUpdated(o) => OrderEvent::OrderUpdated(o.clone()),
            OrderEvent::OrderCancelled(id) => OrderEvent::OrderCancelled(*id),
            OrderEvent::OrderFilled(o) => OrderEvent::OrderFilled(o.clone()),
        }
    }
}

/// What became of an update to an order.
#[derive(Debug, Clone, Copy, PartialEq, Eq, Structural)]
pub enum UpdateOutcome {
    /// The order was changed.
    Applied,
    /// The ledger holds no order of that identity; nothing was changed.
    UnknownOrder,
    /// The lifecycle does not lead from the order's state to the new one;
    /// nothing was changed.
    InvalidTransition,
    /// The filled size is negative or more than the order's size; nothing
    /// was changed.
    InvalidFill,
}

pub open spec fn distinct_ids(orders: Seq<Order>) -> bool {
    forall|i: int, j: int| 0 <= i < j < orders.len() ==> orders[i].id != orders[j].id
}

pub open spec fn all_wf(orders: Seq<Order>) -> bool {
    forall|i: int| 0 <= i < orders.len() ==> (#[trigger] orders[i]).wf()
}

/// What holds of the ledger's orders at all times: no identity occurs
/// twice, and of each order the filled and the remaining size add up to
/// its size.
pub open spec fn ledger_wf(orders: Seq<Order>) -> bool {
    distinct_ids(orders) && all_wf(orders)
}

pub open spec fn holds_order(orders: Seq<Order>, id: u128) -> bool {
    exists|i: int| 0 <= i < orders.len() && (#[trigger] orders[i]).id == id
}

pub open spec fn slot_of(orders: Seq<Order>, id: u128) -> int {
    choose|i: int| 0 <= i < orders.len() && (#[trigger] orders[i]).id == id
}

/// The order that `id` identifies, where the ledger holds it.
pub open spec fn order_of(orders: Seq<Order>, id: u128) -> Option<Order> {
    if holds_order(orders, id) {
        Some(orders[slot_of(orders, id)])
    } else {
        None
    }
}

/// The record of a new order: pending, with nothing filled.
pub open spec fn new_record(id: u128, now: i64, order: NewOrder) -> Order {
    Order {
        id,
        client_id: order.client_id,
        symbol: order.symbol,
        side: order.side,
        order_type: order.order_type,
        price: order.price,
        size: order.size,
        filled_size: Decimal::from_units(0),
        remaining_size: order.size,
        status: OrderStatus::Pending,
        created_at: now,
        updated_at: now,
    }
}

/// The orders with `order` among them: in the place of the order of its
/// identity where there is one, at the end where there is none.
pub open spec fn put_order(orders: Seq<Order>, order: Order) -> Seq<Order> {
    if holds_order(orders, order.id) {
        orders.update(slot_of(orders, order.id), order)
    } else {
        orders.push(order)
    }
}

/// A filled size that an update may report: none, or one from nothing up
/// to the order's size.
pub open spec fn fill_accepted(order: Order, filled: Option<Decimal>) -> bool {
    match filled {
        Some(f) => 0 <= f@ <= order.size@,
        None => true,
    }
}

pub open spec fn update_outcome(
    orders: Seq<Order>,
    id: u128,
    status: OrderStatus,
    filled: Option<Decimal>,
) -> UpdateOutcome {
    match order_of(orders, id) {
        None => UpdateOutcome::UnknownOrder,
        Some(order) => if !order.status.spec_can_become(status) {
            UpdateOutcome::InvalidTransition
        } else if !fill_accepted(order, filled) {
            UpdateOutcome::InvalidFill
        } else {
            UpdateOutcome::Applied
        },
    }
}

/// The order after an update: in its new state, and, where a filled size
/// was reported, with that size filled and the rest of its size remaining.
pub open spec fn updated_record(
    order: Order,
    status: OrderStatus,
    filled: Option<Decimal>,
    now: i64,
) -> Order {
    Order {
        id: order.id,
        client_id: order.client_id,
        symbol: order.symbol,
        side: order.side,
        order_type: order.order_type,
        price: order.price,
        size: order.size,
        filled_size: match filled {
            Some(f) => f,
            None => order.filled_size,
        },
        remaining_size: match filled {
            Some(f) => Decimal::from_units(order.size@ - f@),
            None => order.remaining_size,
        },
        status,
        created_at: order.created_at,
        updated_at: now,
    }
}

/// The events of an update: the order as updated, and once more as filled
/// where its new state is `Filled`.
pub open spec fn update_events(updated: Order) -> Seq<OrderEvent> {
    if updated.status is Filled {
        seq![OrderEvent::OrderUpdated(updated), OrderEvent::OrderFilled(updated)]
    } else {
        seq![OrderEvent::OrderUpdated(updated)]
    }
}

/// The orders after an accepted update of the order `id`.
pub open spec fn orders_after_update(
    orders: Seq<Order>,
    id: u128,
    status: OrderStatus,
    filled: Option<Decimal>,
    now: i64,
) -> Seq<Order> {
    let slot = slot_of(orders, id);
    orders.update(slot, updated_record(orders[slot], status, filled, now))
}

/// The events of an accepted update of the order `id`.
pub open spec fn events_of_update(
    orders: Seq<Order>,
    id: u128,
    status: OrderStatus,
    filled: Option<Decimal>,
    now: i64,
) -> Seq<OrderEvent> {
    update_events(updated_record(orders[slot_of(orders, id)], status, filled, now))
}

/// Whether a query selects an order: it is working, it is of the symbol
/// asked for, if any, and on the side asked for, if any.
pub open spec fn selects(order: Order, symbol: Option<Seq<char>>, side: Option<Side>) -> bool {
    &&& order.status.spec_is_active()
    &&& symbol matches Some(s) ==> order.symbol@ == s
    &&& side matches Some(d) ==> order.side == d
}

/// The orders that a query selects, in the ledger's order.
pub open spec fn select(orders: Seq<Order>, symbol: Option<Seq<char>>, side: Option<Side>) -> Seq<
    Order,
>
    decreases orders.len(),
{
    if orders.len() == 0 {
        Seq::empty()
    } else {
        let rest = select(orders.drop_last(), symbol, side);
        if selects(orders.last(), symbol, side) {
            rest.push(orders.last())
        } else {
            rest
        }
    }
}

/// One cancel request for each of the orders.
pub open spec fn cancel_actions(targets: Seq<Order>) -> Seq<OrderAction> {
    Seq::new(targets.len(), |i: int| OrderAction::spec_cancel(targets[i].id))
}

/// One cancellation event for each of the orders.
pub open spec fn cancel_events(targets: Seq<Order>) -> Seq<OrderEvent> {
    Seq::new(targets.len(), |i: int| OrderEvent::OrderCancelled(targets[i].id))
}

/// Remaining size times price, added up over the first `n` of the orders,
/// beginning with nothing. The prices have more places than the ledger
/// counts in, so the products and the sums are `rust_decimal`'s; `None`
/// where one of them is too large for it.
pub open spec fn exposure_of(orders: Seq<Order>, n: int) -> Option<(int, nat)>
    decreases n,
{
    if n <= 0 {
        Some((0int, 0nat))
    } else {
        match (
            exposure_of(orders, n - 1),
            product_of((orders[n - 1].remaining_size@, 8nat), orders[n - 1].price@),
        ) {
            (Some(sum), Some(product)) => sum_of(sum, product),
            _ => None,
        }
    }
}

/// The law of the order ledger: an accepted update leaves the filled and
/// the remaining size of an order adding up to its size, with neither
/// negative.
pub proof fn lemma_update_keeps_sizes(
    order: Order,
    status: OrderStatus,
    filled: Option<Decimal>,
    now: i64,
)
    requires
        order.wf(),
        fill_accepted(order, filled),
        decimal_in_range(order.size@),
    ensures
        updated_record(order, status, filled, now).wf(),
        updated_record(order, status, filled, now).size == order.size,
{
    broadcast use Decimal::lemma_from_units;

    if let Some(f) = filled {
        assert(decimal_in_range(order.size@ - f@));
    }
}

/// A new order's sizes add up: nothing is filled and all of it remains.
pub proof fn lemma_new_record_wf(id: u128, now: i64, order: NewOrder)
    ensures
        new_record(id, now, order).wf(),
{
    broadcast use Decimal::lemma_from_units;

}

/// Among orders of distinct identities an identity stands in one place only.
pub proof fn lemma_order_slot(orders: Seq<Order>, id: u128, i: int)
    requires
        distinct_ids(orders),
        0 <= i < orders.len(),
        orders[i].id == id,
    ensures
        holds_order(orders, id),
        slot_of(orders, id) == i,
{
    let c = slot_of(orders, id);
    if c < i {
        assert(orders[c].id != orders[i].id);
    } else if i < c {
        assert(orders[i].id != orders[c].id);
    }
}

proof fn lemma_put_keeps_wf(orders: Seq<Order>, order: Order)
    requires
        ledger_wf(orders),
        order.wf(),
    ensures
        ledger_wf(put_order(orders, order)),
{
    let out = put_order(orders, order);
    if holds_order(orders, order.id) {
        let k = slot_of(orders, order.id);
        assert forall|i: int, j: int| 0 <= i < j < out.len() implies out[i].id != out[j].id by {
            assert(out[i].id == orders[i].id);
            assert(out[j].id == orders[j].id);
        }
        assert forall|i: int| 0 <= i < out.len() implies (#[trigger] out[i]).wf() by {
            if i != k {
                assert(orders[i].wf());
            }
        }
    } else {
        assert forall|i: int, j: int| 0 <= i < j < out.len() implies out[i].id != out[j].id by {
            if j == orders.len() {
                assert(orders[i].id != order.id);
            }
        }
        assert forall|i: int| 0 <= i < out.len() implies (#[trigger] out[i]).wf() by {
            if i < orders.len() {
                assert(orders[i].wf());
            }
        }
    }
}

/// Each order stands under its own identity.
pub open spec fn keyed_by_id(keys: Seq<u128>, orders: Seq<Order>) -> bool {
    &&& keys.len() == orders.len()
    &&& forall|i: int| 0 <= i < orders.len() ==> keys[i] == (#[trigger] orders[i]).id
}

proof fn lemma_keys_give_ids(keys: Seq<u128>, orders: Seq<Order>)
    requires
        keyed_by_id(keys, orders),
        distinct_keys(keys),
    ensures
        distinct_ids(orders),
        forall|id: u128|
            holds_id(keys, id) <==> #[trigger] holds_order(orders, id),
        forall|id: u128| #[trigger]
            holds_order(orders, id) ==> slot_of(orders, id)
                == slot_of_id(keys, id),
{
    assert forall|i: int, j: int| 0 <= i < j < orders.len() implies orders[i].id
        != orders[j].id by {
        assert(keys[i] != keys[j]);
    }
    assert forall|id: u128|
        holds_id(keys, id) <==> #[trigger] holds_order(
            orders,
            id,
        ) by {
        if holds_id(keys, id) {
            let i = slot_of_id(keys, id);
            assert(orders[i].id == id);
        }
        if holds_order(orders, id) {
            let i = slot_of(orders, id);
            assert(keys[i] == id);
        }
    }
    assert forall|id: u128| #[trigger] holds_order(orders, id) implies slot_of(orders, id)
        == slot_of_id(keys, id) by {
        let i = slot_of(orders, id);
        assert(keys[i] == id);
        crate::datastructures::id_map::lemma_id_slot(keys, id, i);
    }
}

pub struct OrderManager {
    orders: IdMap<Order>,
    pending_actions: Vec<OrderAction>,
    events: Vec<OrderEvent>,
}

impl OrderManager {
    #[verifier::type_invariant]
    spec fn sound(&self) -> bool {
        &&& all_wf(self.orders.values_view())
        &&& keyed_by_id(self.orders.keys_view(), self.orders.values_view())
    }

    /// The orders, in the order in which they came.
    pub closed spec fn orders_view(&self) -> Seq<Order> {
        self.orders.values_view()
    }

    /// The cancel requests that wait to be drained.
    pub closed spec fn pending_view(&self) -> Seq<OrderAction> {
        self.pending_actions@
    }

    /// The events that wait to be drained.
    pub closed spec fn events_view(&self) -> Seq<OrderEvent> {
        self.events@
    }

    /// A ledger that holds no orders.
    pub fn new() -> (r: Self)
        ensures
            r.orders_view() == Seq::<Order>::empty(),
            r.pending_view() == Seq::<OrderAction>::empty(),
            r.events_view() == Seq::<OrderEvent>::empty(),
    {
        OrderManager { orders: IdMap::new(), pending_actions: Vec::new(), events: Vec::new() }
    }

    fn find(&self, id: u128) -> (r: Option<usize>)
        ensures
            ledger_wf(self.orders.values_view()),
            self.orders.wf(),
            keyed_by_id(self.orders.keys_view(), self.orders.values_view()),
            r is Some <==> holds_order(self.orders.values_view(), id),
            r matches Some(i) ==> i == slot_of(self.orders.values_view(), id) && i
                < self.orders.values_view().len() && self.orders.values_view()[i as int].id == id,
    {
        proof {
            use_type_invariant(self);
        }
        let found = self.orders.find(id);
        proof {
            lemma_keys_give_ids(self.orders.keys_view(), self.orders.values_view());
        }
        found
    }

    /// Enters a new order under the identity `id`, pending and with nothing
    /// filled, stamped with the time `now`, and queues the event that it
    /// was placed. An order that the ledger holds under `id` is replaced.
    pub fn add_order_with(&mut self, id: u128, now: i64, new_order: NewOrder)
        ensures
            final(self).orders_view() == put_order(
                old(self).orders_view(),
                new_record(id, now, new_order),
            ),
            final(self).events_view() == old(self).events_view().push(
                OrderEvent::OrderPlaced(new_record(id, now, new_order)),
            ),
            final(self).pending_view() == old(self).pending_view(),
            ledger_wf(final(self).orders_view()),
    {
        let zero = Decimal::zero();
        let order = Order {
            id,
            client_id: new_order.client_id,
            symbol: new_order.symbol,
            side: new_order.side,
            order_type: new_order.order_type,
            price: new_order.price,
            size: new_order.size,
            filled_size: zero,
            remaining_size: new_order.size,
            status: OrderStatus::Pending,
            created_at: now,
            updated_at: now,
        };
        assert(order == new_record(id, now, new_order));
        let event = OrderEvent::OrderPlaced(order.clone());
        let slot = self.find(id);
        proof {
            use_type_invariant(&*self);
            lemma_new_record_wf(id, now, new_order);
            lemma_put_keeps_wf(self.orders.values_view(), order);
            lemma_keys_give_ids(self.orders.keys_view(), self.orders.values_view());
        }
        let ghost keys_before = self.orders.keys_view();
        let ghost held_before = self.orders.values_view();
        let mut orders: IdMap<Order> = IdMap::new();
        core::mem::swap(&mut orders, &mut self.orders);
        orders.insert(id, order);
        proof {
            assert(holds_order(held_before, id) == holds_id(
                keys_before,
                id,
            ));
            assert(orders.values_view() == put_order(held_before, order));
            assert(keyed_by_id(orders.keys_view(), orders.values_view()));
        }
        self.orders = orders;
        self.push_event(event);
    }

    fn push_event(&mut self, event: OrderEvent)
        ensures
            final(self).events@ == old(self).events@.push(event),
            final(self).orders == old(self).orders,
            final(self).pending_actions@ == old(self).pending_actions@,
    {
        proof {
            use_type_invariant(&*self);
        }
        let mut events: Vec<OrderEvent> = Vec::new();
        core::mem::swap(&mut events, &mut self.events);
        events.push(event);
        self.events = events;
    }

    fn push_action(&mut self, action: OrderAction)
        ensures
            final(self).pending_actions@ == old(self).pending_actions@.push(action),
            final(self).orders == old(self).orders,
            final(self).events@ == old(self).events@,
    {
        proof {
            use_type_invariant(&*self);
        }
        let mut actions: Vec<OrderAction> = Vec::new();
        core::mem::swap(&mut actions, &mut self.pending_actions);
        actions.push(action);
        self.pending_actions = actions;
    }

    /// Enters a new order under a fresh identity, stamped with the present
    /// time, and hands the identity back.
    pub fn add_order(&mut self, new_order: NewOrder) -> (id: u128)
        ensures
            exists|now: i64|
                {
                    &&& final(self).orders_view() == put_order(
                        old(self).orders_view(),
                        #[trigger] new_record(id, now, new_order),
                    )
                    &&& final(self).events_view() == old(self).events_view().push(
                        OrderEvent::OrderPlaced(new_record(id, now, new_order)),
                    )
                },
            final(self).pending_view() == old(self).pending_view(),
            ledger_wf(final(self).orders_view()),
    {
        let id = fresh_uuid();
        let now = utc_now_millis();
        self.add_order_with(id, now, new_order);
        id
    }

    /// Moves an order to a new state, with a new filled size where one is
    /// given, stamps it with the time `now`, and queues the events of the
    /// update. An update that the ledger cannot accept changes nothing.
    pub fn update_order_at(
        &mut self,
        order_id: u128,
        status: OrderStatus,
        filled_size: Option<Decimal>,
        now: i64,
    ) -> (outcome: UpdateOutcome)
        ensures
            outcome == update_outcome(old(self).orders_view(), order_id, status, filled_size),
            outcome is Applied ==> {
                &&& final(self).orders_view() == orders_after_update(
                    old(self).orders_view(),
                    order_id,
                    status,
                    filled_size,
                    now,
                )
                &&& final(self).events_view() == old(self).events_view() + events_of_update(
                    old(self).orders_view(),
                    order_id,
                    status,
                    filled_size,
                    now,
                )
            },
            !(outcome is Applied) ==> final(self).orders_view() == old(self).orders_view()
                && final(self).events_view() == old(self).events_view(),
            final(self).pending_view() == old(self).pending_view(),
            ledger_wf(final(self).orders_view()),
    {
        proof {
            use_type_invariant(&*self);
        }
        let slot = match self.find(order_id) {
            Some(i) => i,
            None => {
                return UpdateOutcome::UnknownOrder;
            },
        };
        let order = self.orders.value_at(slot);
        if !order.status.can_become(status) {
            return UpdateOutcome::InvalidTransition;
        }
        let size_units = order.size.raw();
        let (filled, remaining) = match filled_size {
            Some(f) => {
                if f.is_negative() || f.gt(&order.size) {
                    return UpdateOutcome::InvalidFill;
                }
                match order.size.checked_sub(&f) {
                    Some(rest) => (f, rest),
                    None => {
                        return UpdateOutcome::InvalidFill;
                    },
                }
            },
            None => (order.filled_size, order.remaining_size),
        };
        let updated = Order {
            id: order.id,
            client_id: clone_text(&order.client_id),
            symbol: order.symbol.clone(),
            side: order.side,
            order_type: order.order_type,
            price: order.price,
            size: order.size,
            filled_size: filled,
            remaining_size: remaining,
            status,
            created_at: order.created_at,
            updated_at: now,
        };
        proof {
            broadcast use Decimal::lemma_units_round_trip;

            lemma_update_keeps_sizes(*order, status, filled_size, now);
            assert(updated == updated_record(*order, status, filled_size, now));
            let before = self.orders.values_view();
            let after = before.update(slot as int, updated);
            assert forall|i: int, j: int| 0 <= i < j < after.len() implies after[i].id
                != after[j].id by {
                assert(after[i].id == before[i].id);
                assert(after[j].id == before[j].id);
            }
            assert forall|i: int| 0 <= i < after.len() implies (#[trigger] after[i]).wf() by {
                if i != slot {
                    assert(before[i].wf());
                }
            }
        }
        let is_filled = match status {
            OrderStatus::Filled => true,
            _ => false,
        };
        let first = OrderEvent::OrderUpdated(updated.clone());
        let second = if is_filled {
            Some(OrderEvent::OrderFilled(updated.clone()))
        } else {
            None
        };
        let mut orders: IdMap<Order> = IdMap::new();
        core::mem::swap(&mut orders, &mut self.orders);
        orders.set_value(slot, updated);
        self.orders = orders;
        let ghost events_before = self.events@;
        self.push_event(first);
        match second {
            Some(event) => {
                self.push_event(event);
            },
            None => {},
        }
        assert(self.events@ =~= events_before + update_events(updated));
        UpdateOutcome::Applied
    }

    /// `update_order_at` with the present time.
    pub fn update_order(
        &mut self,
        order_id: u128,
        status: OrderStatus,
        filled_size: Option<Decimal>,
    ) -> (outcome: UpdateOutcome)
        ensures
            outcome == update_outcome(old(self).orders_view(), order_id, status, filled_size),
            outcome is Applied ==> exists|now: i64|
                {
                    &&& final(self).orders_view() == #[trigger] orders_after_update(
                        old(self).orders_view(),
                        order_id,
                        status,
                        filled_size,
                        now,
                    )
                    &&& final(self).events_view() == old(self).events_view() + events_of_update(
                        old(self).orders_view(),
                        order_id,
                        status,
                        filled_size,
                        now,
                    )
                },
            !(outcome is Applied) ==> final(self).orders_view() == old(self).orders_view()
                && final(self).events_view() == old(self).events_view(),
            final(self).pending_view() == old(self).pending_view(),
            ledger_wf(final(self).orders_view()),
    {
        let now = utc_now_millis();
        self.update_order_at(order_id, status, filled_size, now)
    }

    /// Queues a request to cancel the order, and the event that it was
    /// cancelled. The order itself is left as it is: it changes when the
    /// exchange confirms.
    pub fn cancel_order(&mut self, order_id: u128)
        ensures
            final(self).pending_view() == old(self).pending_view().push(
                OrderAction::spec_cancel(order_id),
            ),
            final(self).events_view() == old(self).events_view().push(
                OrderEvent::OrderCancelled(order_id),
            ),
            final(self).orders_view() == old(self).orders_view(),
    {
        self.push_action(OrderAction::cancel(order_id));
        self.push_event(OrderEvent::OrderCancelled(order_id));
    }

    /// Queues a cancel request and a cancellation event for every working
    /// order, or for those of one symbol, in the ledger's order.
    pub fn cancel_all_orders(&mut self, symbol: Option<&str>)
        ensures
            final(self).pending_view() == old(self).pending_view() + cancel_actions(
                select(old(self).orders_view(), symbol_view(symbol), None),
            ),
            final(self).events_view() == old(self).events_view() + cancel_events(
                select(old(self).orders_view(), symbol_view(symbol), None),
            ),
            final(self).orders_view() == old(self).orders_view(),
    {
        let ghost wanted = symbol_view(symbol);
        let n = self.orders.len();
        let mut i: usize = 0;
        assert(self.orders.values_view().take(0) =~= Seq::empty());
        assert(self.pending_actions@ =~= old(self).pending_actions@ + cancel_actions(
            Seq::empty(),
        ));
        assert(self.events@ =~= old(self).events@ + cancel_events(Seq::empty()));
        while i < n
            invariant
                i <= n,
                n == self.orders.spec_len(),
                self.orders.wf(),
                wanted == symbol_view(symbol),
                self.orders == old(self).orders,
                self.pending_actions@ == old(self).pending_actions@ + cancel_actions(
                    select(self.orders.values_view().take(i as int), wanted, None),
                ),
                self.events@ == old(self).events@ + cancel_events(
                    select(self.orders.values_view().take(i as int), wanted, None),
                ),
            decreases n - i,
        {
            let ghost done = select(self.orders.values_view().take(i as int), wanted, None);
            assert(self.orders.values_view().take(i + 1).drop_last() =~= self.orders.values_view().take(i as int));
            assert(self.orders.values_view().take(i + 1).last() == self.orders.values_view()[i as int]);
            if order_selected(self.orders.value_at(i), symbol, None) {
                let id = self.orders.value_at(i).id;
                self.push_action(OrderAction::cancel(id));
                self.push_event(OrderEvent::OrderCancelled(id));
                assert(self.pending_actions@ =~= old(self).pending_actions@ + cancel_actions(
                    done.push(self.orders.values_view()[i as int]),
                ));
                assert(self.events@ =~= old(self).events@ + cancel_events(
                    done.push(self.orders.values_view()[i as int]),
                ));
            }
            i = i + 1;
        }
        assert(self.orders.values_view().take(i as int) =~= self.orders.values_view());
    }

    fn collect(&self, symbol: Option<&str>, side: Option<Side>) -> (r: Vec<Order>)
        ensures
            r@ == select(self.orders.values_view(), symbol_view(symbol), side),
    {
        let ghost wanted = symbol_view(symbol);
        let mut out: Vec<Order> = Vec::new();
        let n = self.orders.len();
        let mut i: usize = 0;
        assert(self.orders.values_view().take(0) =~= Seq::empty());
        while i < n
            invariant
                i <= n,
                n == self.orders.spec_len(),
                self.orders.wf(),
                wanted == symbol_view(symbol),
                out@ == select(self.orders.values_view().take(i as int), wanted, side),
            decreases n - i,
        {
            assert(self.orders.values_view().take(i + 1).drop_last() =~= self.orders.values_view().take(i as int));
            assert(self.orders.values_view().take(i + 1).last() == self.orders.values_view()[i as int]);
            if order_selected(self.orders.value_at(i), symbol, side) {
                out.push(self.orders.value_at(i).clone());
            }
            i = i + 1;
        }
        assert(self.orders.values_view().take(i as int) =~= self.orders.values_view());
        out
    }

    /// The working orders, or those of one symbol, in the ledger's order.
    pub fn get_active_orders(&self, symbol: Option<&str>) -> (r: Vec<Order>)
        ensures
            r@ == select(self.orders_view(), symbol_view(symbol), None),
    {
        self.collect(symbol, None)
    }

    /// The working orders of one symbol on one side.
    pub fn get_orders_by_side(&self, symbol: &str, side: Side) -> (r: Vec<Order>)
        ensures
            r@ == select(self.orders_view(), Some(symbol@), Some(side)),
    {
        self.collect(Some(symbol), Some(side))
    }

    /// Hands out the cancel requests that wait, and forgets them.
    pub fn drain_pending_actions(&mut self) -> (r: Vec<OrderAction>)
        ensures
            r@ == old(self).pending_view(),
            final(self).pending_view() == Seq::<OrderAction>::empty(),
            final(self).orders_view() == old(self).orders_view(),
            final(self).events_view() == old(self).events_view(),
    {
        proof {
            use_type_invariant(&*self);
        }
        let mut out: Vec<OrderAction> = Vec::new();
        core::mem::swap(&mut out, &mut self.pending_actions);
        out
    }

    /// Hands out the events that wait, oldest first, and forgets them.
    pub fn drain_events(&mut self) -> (r: Vec<OrderEvent>)
        ensures
            r@ == old(self).events_view(),
            final(self).events_view() == Seq::<OrderEvent>::empty(),
            final(self).orders_view() == old(self).orders_view(),
            final(self).pending_view() == old(self).pending_view(),
    {
        proof {
            use_type_invariant(&*self);
        }
        let mut out: Vec<OrderEvent> = Vec::new();
        core::mem::swap(&mut out, &mut self.events);
        out
    }

    /// How many working orders a symbol has on the buy and on the sell side.
    pub fn get_order_count(&self, symbol: &str) -> (r: (usize, usize))
        ensures
            r.0 == select(self.orders_view(), Some(symbol@), Some(Side::Buy)).len(),
            r.1 == select(self.orders_view(), Some(symbol@), Some(Side::Sell)).len(),
    {
        let buys = self.get_orders_by_side(symbol, Side::Buy);
        let sells = self.get_orders_by_side(symbol, Side::Sell);
        (buys.len(), sells.len())
    }

    /// What the working orders of a symbol would cost if they filled as
    /// they stand: remaining size times price, added up for the buy and for
    /// the sell side. `None` where a product or a sum is too large.
    pub fn get_total_exposure(&self, symbol: &str) -> (r: Option<(Digits, Digits)>)
        ensures
            match (
                side_exposure(self.orders_view(), symbol@, Side::Buy),
                side_exposure(self.orders_view(), symbol@, Side::Sell),
            ) {
                (Some(buy), Some(sell)) => r matches Some(e) && e.0@ == buy && e.1@ == sell,
                _ => r is None,
            },
    {
        let buys = self.get_orders_by_side(symbol, Side::Buy);
        let sells = self.get_orders_by_side(symbol, Side::Sell);
        match (sum_exposure(&buys), sum_exposure(&sells)) {
            (Some(buy), Some(sell)) => Some((buy, sell)),
            _ => None,
        }
    }

    /// The order of an identity, where the ledger holds it.
    pub fn get_order(&self, order_id: &u128) -> (r: Option<Order>)
        ensures
            r == order_of(self.orders_view(), *order_id),
            r matches Some(order) ==> order.wf(),
    {
        proof {
            use_type_invariant(self);
        }
        match self.find(*order_id) {
            Some(i) => Some(self.orders.value_at(i).clone()),
            None => None,
        }
    }

    /// How many orders the ledger holds.
    pub fn len(&self) -> (r: usize)
        ensures
            r == self.orders_view().len(),
    {
        self.orders.len()
    }

    /// Whether the ledger holds no orders.
    pub fn is_empty(&self) -> (r: bool)
        ensures
            r == (self.orders_view().len() == 0),
    {
        self.orders.len() == 0
    }
}

impl Default for OrderManager {
    fn default() -> (r: Self)
        ensures
            r.orders_view() == Seq::<Order>::empty(),
            r.pending_view() == Seq::<OrderAction>::empty(),
            r.events_view() == Seq::<OrderEvent>::empty(),
    {
        OrderManager::new()
    }
}

/// The symbol that a query asks for, as characters.
pub open spec fn symbol_view(symbol: Option<&str>) -> Option<Seq<char>> {
    match symbol {
        Some(s) => Some(s@),
        None => None,
    }
}

/// The exposure of the working orders of a symbol on one side.
pub open spec fn side_exposure(orders: Seq<Order>, symbol: Seq<char>, side: Side) -> Option<
    (int, nat),
> {
    let chosen = select(orders, Some(symbol), Some(side));
    exposure_of(chosen, chosen.len() as int)
}

fn order_selected(order: &Order, symbol: Option<&str>, side: Option<Side>) -> (r: bool)
    ensures
        r == selects(*order, symbol_view(symbol), side),
{
    if !order.status.is_active() {
        return false;
    }
    let symbol_ok = match symbol {
        Some(s) => same_text(order.symbol.as_str(), s),
        None => true,
    };
    let side_ok = match side {
        Some(d) => order.side == d,
        None => true,
    };
    symbol_ok && side_ok
}

fn sum_exposure(orders: &Vec<Order>) -> (r: Option<Digits>)
    ensures
        digits_view(r) == exposure_of(orders@, orders@.len() as int),
{
    let mut total = Digits::from_int(0);
    let mut i: usize = 0;
    while i < orders.len()
        invariant
            i <= orders.len(),
            exposure_of(orders@, i as int) == Some(total@),
        decreases orders.len() - i,
    {
        let product = Digits::from_decimal(&orders[i].remaining_size).checked_mul(&orders[i].price);
        let next = match product {
            Some(p) => total.checked_add(&p),
            None => None,
        };
        match next {
            Some(t) => {
                total = t;
            },
            None => {
                proof {
                    lemma_exposure_stays_undefined(orders@, i as int + 1, orders@.len() as int);
                }
                return None;
            },
        }
        i = i + 1;
    }
    Some(total)
}

proof fn lemma_exposure_stays_undefined(orders: Seq<Order>, at: int, n: int)
    requires
        0 <= at <= n,
        exposure_of(orders, at) is None,
    ensures
        exposure_of(orders, n) is None,
    decreases n - at,
{
    if at < n {
        lemma_exposure_stays_undefined(orders, at + 1, n);
    }
}

} // verus!
