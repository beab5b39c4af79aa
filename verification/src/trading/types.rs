//! The records that the ledgers, the risk engine and the quote generator share.

use crate::model::hl_msgs::TobMsg;
use crate::numeric::decimal::{Decimal, Digits, Notional};
use vstd::prelude::*;

verus! {

#[derive(Debug, Clone, Copy, PartialEq, Eq, Structural, Hash)]
pub enum Side {
    Buy,
    Sell,
}

#[derive(Debug, Clone, Copy, PartialEq, Eq, Structural, Hash)]
pub enum OrderStatus {
    Pending,
    Submitted,
    PartiallyFilled,
    Filled,
    Cancelled,
    Rejected,
}

#[derive(Debug, Clone, Copy, PartialEq, Eq, Structural, Hash)]
pub enum OrderType {
    Market,
    Limit,
    PostOnly,
}

#[derive(Debug, Clone, Copy, PartialEq, Eq, Structural, Hash)]
pub enum OrderActionType {
    Place,
    Cancel,
    Modify,
}

impl OrderStatus {
    /// An order in one of these states is still working at the exchange.
    pub open spec fn spec_is_active(self) -> bool {
        self is Pending || self is Submitted || self is PartiallyFilled
    }

    /// Whether an order in this state is still working at the exchange.
    #[verifier::when_used_as_spec(spec_is_active)]
    pub fn is_active(self) -> (r: bool)
        ensures
            r == self.spec_is_active(),
    {
        match self {
            OrderStatus::Pending | OrderStatus::Submitted | OrderStatus::PartiallyFilled => true,
            _ => false,
        }
    }

    /// Filled, cancelled and rejected orders never change again.
    pub open spec fn spec_is_terminal(self) -> bool {
        self is Filled || self is Cancelled || self is Rejected
    }

    /// Whether an order in this state never changes again.
    #[verifier::when_used_as_spec(spec_is_terminal)]
    pub fn is_terminal(self) -> (r: bool)
        ensures
            r == self.spec_is_terminal(),
    {
        match self {
            OrderStatus::Filled | OrderStatus::Cancelled | OrderStatus::Rejected => true,
            _ => false,
        }
    }

    /// The lifecycle of an order: pending orders are submitted, cancelled or
    /// rejected; working orders fill partly (any number of times), fill,
    /// are cancelled or rejected; terminal states are left by nothing.
    pub open spec fn spec_can_become(self, next: OrderStatus) -> bool {
        match self {
            OrderStatus::Pending => next is Submitted || next is Cancelled || next is Rejected,
            OrderStatus::Submitted | OrderStatus::PartiallyFilled => next is PartiallyFilled
                || next is Filled || next is Cancelled || next is Rejected,
            _ => false,
        }
    }

    /// Whether the lifecycle of an order leads from this state to `next`.
    #[verifier::when_used_as_spec(spec_can_become)]
    pub fn can_become(self, next: OrderStatus) -> (r: bool)
        ensures
            r == self.spec_can_become(next),
    {
        match self {
            OrderStatus::Pending => match next {
                OrderStatus::Submitted | OrderStatus::Cancelled | OrderStatus::Rejected => true,
                _ => false,
            },
            OrderStatus::Submitted | OrderStatus::PartiallyFilled => match next {
                OrderStatus::PartiallyFilled
                | OrderStatus::Filled
                | OrderStatus::Cancelled
                | OrderStatus::Rejected => true,
                _ => false,
            },
            _ => false,
        }
    }

    /// How far along its lifecycle a status is.
    pub open spec fn rank(self) -> int {
        match self {
            OrderStatus::Pending => 0,
            OrderStatus::Submitted => 1,
            OrderStatus::PartiallyFilled => 2,
            _ => 3,
        }
    }

    /// A permitted transition never moves an order back.
    pub proof fn lemma_transitions_are_monotonic(from: OrderStatus, to: OrderStatus)
        requires
            from.spec_can_become(to),
        ensures
            from.rank() <= to.rank(),
            !from.spec_is_terminal(),
    {
    }

    /// Terminal states are absorbing.
    pub proof fn lemma_terminal_is_absorbing(from: OrderStatus, to: OrderStatus)
        requires
            from.spec_is_terminal(),
        ensures
            !from.spec_can_become(to),
    {
    }
}

/// A copy of a text that may be absent.
pub fn clone_text(text: &Option<String>) -> (r: Option<String>)
    ensures
        r == *text,
{
    match text {
        Some(s) => Some(s.clone()),
        None => None,
    }
}

#[derive(Debug)]
pub struct Order {
    pub id: u128,
    pub client_id: Option<String>,
    pub symbol: String,
    pub side: Side,
    pub order_type: OrderType,
    pub price: Digits,
    pub size: Decimal,
    pub filled_size: Decimal,
    pub remaining_size: Decimal,
    pub status: OrderStatus,
    pub created_at: i64,
    pub updated_at: i64,
}

impl Order {
    /// What is left is the size less what was filled; nothing filled is
    /// negative, and an order of non-negative size has nothing negative left.
    pub open spec fn wf(&self) -> bool {
        &&& self.filled_size@ + self.remaining_size@ == self.size@
        &&& self.filled_size@ >= 0
        &&& self.size@ >= 0 ==> self.remaining_size@ >= 0
    }
}

impl Clone for Order {
    fn clone(&self) -> (r: Self)
        ensures
            r == *self,
    {
        Order {
            id: self.id,
            client_id: clone_text(&self.client_id),
            symbol: self.symbol.clone(),
            side: self.side,
            order_type: self.order_type,
            price: self.price,
            size: self.size,
            filled_size: self.filled_size,
            remaining_size: self.remaining_size,
            status: self.status,
            created_at: self.created_at,
            updated_at: self.updated_at,
        }
    }
}

#[derive(Debug)]
pub struct Position {
    pub symbol: String,
    pub size: Decimal,
    pub entry_price: Decimal,
    pub mark_price: Decimal,
    pub unrealized_pnl: Notional,
    pub realized_pnl: Notional,
    pub updated_at: i64,
}

impl Position {
    /// An open position carries the profit that its mark price shows over
    /// its entry price; a flat one has neither entry price nor open profit.
    pub open spec fn wf(&self) -> bool {
        &&& self.size@ != 0 ==> self.unrealized_pnl@ == (self.mark_price@ - self.entry_price@)
            * self.size@
        &&& self.size@ == 0 ==> self.entry_price@ == 0 && self.unrealized_pnl@ == 0
    }
}

impl Clone for Position {
    fn clone(&self) -> (r: Self)
        ensures
            r == *self,
    {
        Position {
            symbol: self.symbol.clone(),
            size: self.size,
            entry_price: self.entry_price,
            mark_price: self.mark_price,
            unrealized_pnl: self.unrealized_pnl,
            realized_pnl: self.realized_pnl,
            updated_at: self.updated_at,
        }
    }
}

#[derive(Debug)]
pub struct Fill {
    pub id: u128,
    pub order_id: u128,
    pub symbol: String,
    pub side: Side,
    pub price: Decimal,
    pub size: Decimal,
    pub fee: Decimal,
    pub timestamp: i64,
}

impl Clone for Fill {
    fn clone(&self) -> (r: Self)
        ensures
            r == *self,
    {
        Fill {
            id: self.id,
            order_id: self.order_id,
            symbol: self.symbol.clone(),
            side: self.side,
            price: self.price,
            size: self.size,
            fee: self.fee,
            timestamp: self.timestamp,
        }
    }
}

#[derive(Debug)]
pub struct NewOrder {
    pub symbol: String,
    pub side: Side,
    pub order_type: OrderType,
    pub price: Digits,
    pub size: Decimal,
    pub client_id: Option<String>,
}

impl Clone for NewOrder {
    fn clone(&self) -> (r: Self)
        ensures
            r == *self,
    {
        NewOrder {
            symbol: self.symbol.clone(),
            side: self.side,
            order_type: self.order_type,
            price: self.price,
            size: self.size,
            client_id: clone_text(&self.client_id),
        }
    }
}

/// What a consumer of the engine may be told of.
#[derive(Debug, Clone)]
pub enum TradingEvent {
    MarketData(TobMsg),
    OrderUpdate(Order),
    PositionUpdate(Position),
    Fill(Fill),
    Error(String),
}

#[derive(Debug)]
pub struct OrderAction {
    pub action_type: OrderActionType,
    pub order: Option<NewOrder>,
    pub order_id: Option<u128>,
}

impl OrderAction {
    /// The action that cancels the order `order_id`.
    pub open spec fn spec_cancel(order_id: u128) -> OrderAction {
        OrderAction { action_type: OrderActionType::Cancel, order: None, order_id: Some(order_id) }
    }

    /// The action that cancels the order `order_id`.
    #[verifier::when_used_as_spec(spec_cancel)]
    pub fn cancel(order_id: u128) -> (r: OrderAction)
        ensures
            r == Self::spec_cancel(order_id),
    {
        OrderAction { action_type: OrderActionType::Cancel, order: None, order_id: Some(order_id) }
    }

    /// The action that places `order`.
    pub open spec fn spec_place(order: NewOrder) -> OrderAction {
        OrderAction { action_type: OrderActionType::Place, order: Some(order), order_id: None }
    }

    /// The action that places `order`.
    #[verifier::when_used_as_spec(spec_place)]
    pub fn place(order: NewOrder) -> (r: OrderAction)
        ensures
            r == Self::spec_place(order),
    {
        OrderAction { action_type: OrderActionType::Place, order: Some(order), order_id: None }
    }
}

impl Clone for OrderAction {
    fn clone(&self) -> (r: Self)
        ensures
            r == *self,
    {
        OrderAction {
            action_type: self.action_type,
            order: match &self.order {
                Some(o) => Some(o.clone()),
                None => None,
            },
            order_id: self.order_id,
        }
    }
}

#[derive(Debug, Clone, Copy)]
pub struct RiskLimits {
    pub max_position_size: Decimal,
    pub max_daily_loss: Decimal,
    pub max_order_size: Decimal,
    pub max_orders_per_side: usize,
}

impl Default for RiskLimits {
    fn default() -> (r: Self)
        ensures
            r.max_position_size@ == 100 * crate::numeric::decimal::DECIMAL_SCALE,
            r.max_daily_loss@ == 1000 * crate::numeric::decimal::DECIMAL_SCALE,
            r.max_order_size@ == 10 * crate::numeric::decimal::DECIMAL_SCALE,
            r.max_orders_per_side == 5,
    {
        RiskLimits {
            max_position_size: Decimal::from_int(100),
            max_daily_loss: Decimal::from_int(1000),
            max_order_size: Decimal::from_int(10),
            max_orders_per_side: 5,
        }
    }
}

/// A new order with its texts as characters and its numbers as raw units.
pub struct NewOrderView {
    pub symbol: Seq<char>,
    pub side: Side,
    pub order_type: OrderType,
    pub price: (int, nat),
    pub size: int,
    pub client_id: Option<Seq<char>>,
}

impl View for NewOrder {
    type V = NewOrderView;

    open spec fn view(&self) -> NewOrderView {
        NewOrderView {
            symbol: self.symbol@,
            side: self.side,
            order_type: self.order_type,
            price: self.price@,
            size: self.size@,
            client_id: match self.client_id {
                Some(tag) => Some(tag@),
                None => None,
            },
        }
    }
}

/// An order action with its order as a view.
pub struct OrderActionView {
    pub action_type: OrderActionType,
    pub order: Option<NewOrderView>,
    pub order_id: Option<u128>,
}

impl View for OrderAction {
    type V = OrderActionView;

    open spec fn view(&self) -> OrderActionView {
        OrderActionView {
            action_type: self.action_type,
            order: match self.order {
                Some(o) => Some(o@),
                None => None,
            },
            order_id: self.order_id,
        }
    }
}

/// A list of actions as their views.
pub open spec fn actions_view(actions: Seq<OrderAction>) -> Seq<OrderActionView> {
    Seq::new(actions.len(), |i: int| actions[i]@)
}

/// The view of the action that cancels the order `order_id`.
pub open spec fn cancel_view(order_id: u128) -> OrderActionView {
    OrderActionView { action_type: OrderActionType::Cancel, order: None, order_id: Some(order_id) }
}

/// The view of the action that places `order`.
pub open spec fn place_view(order: NewOrderView) -> OrderActionView {
    OrderActionView { action_type: OrderActionType::Place, order: Some(order), order_id: None }
}

} // verus!
