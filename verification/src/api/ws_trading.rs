//! The private feed of the exchange: what its messages mean, when its
//! connection counts as lost, and when to connect anew. Times are in
//! milliseconds.

use crate::api::types::{
    ApiConfig, ApiError, ApiEvent, HyperLiquidFill, HyperLiquidOrderStatus, HyperLiquidPosition,
};
use crate::clock::utc_now_millis;
use crate::numeric::decimal::{decimal_of_text, Decimal};
use crate::trading::types::{Fill, Side};
use crate::datastructures::symbol_map::same_text;
use crate::utils::text::{digits_of, u64_to_text};
use vstd::prelude::*;

verus! {

/// After how long without a heartbeat the connection counts as lost.
pub const HEARTBEAT_TIMEOUT_MILLIS: i64 = 60_000;

/// How many times in a row the connection is tried anew.
pub const MAX_RECONNECT_ATTEMPTS: u32 = 10;

#[derive(Debug)]
pub enum ConnectionState {
    Disconnected,
    Connecting,
    Connected,
    Reconnecting,
    Error(String),
}

impl Clone for ConnectionState {
    fn clone(&self) -> (r: Self)
        ensures
            r == *self,
    {
        match self {
            ConnectionState::Disconnected => ConnectionState::Disconnected,
            ConnectionState::Connecting => ConnectionState::Connecting,
            ConnectionState::Connected => ConnectionState::Connected,
            ConnectionState::Reconnecting => ConnectionState::Reconnecting,
            ConnectionState::Error(m) => ConnectionState::Error(m.clone()),
        }
    }
}

#[derive(Debug, Clone, Copy, PartialEq, Eq, Structural)]
pub struct SubscriptionState {
    pub user_events: bool,
    pub fills: bool,
    pub orders: bool,
    pub positions: bool,
}

impl Default for SubscriptionState {
    fn default() -> (r: Self)
        ensures
            !r.user_events && !r.fills && !r.orders && !r.positions,
    {
        SubscriptionState { user_events: false, fills: false, orders: false, positions: false }
    }
}

/// The channels of the private feed.
#[derive(Debug, Clone, Copy, PartialEq, Eq, Structural)]
pub enum FeedChannel {
    UserEvents,
    Fills,
    Orders,
    Positions,
    Pong,
    Unknown,
}

pub open spec fn spec_channel_of(name: Seq<char>) -> FeedChannel {
    if name == "userEvents"@ {
        FeedChannel::UserEvents
    } else if name == "fills"@ {
        FeedChannel::Fills
    } else if name == "orders"@ {
        FeedChannel::Orders
    } else if name == "positions"@ {
        FeedChannel::Positions
    } else if name == "pong"@ {
        FeedChannel::Pong
    } else {
        FeedChannel::Unknown
    }
}

/// The channel that a message names.
pub fn channel_of(name: &str) -> (r: FeedChannel)
    ensures
        r == spec_channel_of(name@),
{
    if same_text(name, "userEvents") {
        FeedChannel::UserEvents
    } else if same_text(name, "fills") {
        FeedChannel::Fills
    } else if same_text(name, "orders") {
        FeedChannel::Orders
    } else if same_text(name, "positions") {
        FeedChannel::Positions
    } else if same_text(name, "pong") {
        FeedChannel::Pong
    } else {
        FeedChannel::Unknown
    }
}

/// The event that tells of a fill.
pub fn fill_event(fill: &HyperLiquidFill) -> (r: ApiEvent)
    ensures
        r matches ApiEvent::Fill { order_id, fill_size, fill_price, fee, timestamp } && order_id
            == fill.oid && fill_size == fill.sz && fill_price == fill.px && fee == fill.fee
            && timestamp == fill.time,
{
    ApiEvent::Fill {
        order_id: fill.oid,
        fill_size: fill.sz.clone(),
        fill_price: fill.px.clone(),
        fee: fill.fee.clone(),
        timestamp: fill.time,
    }
}

/// The event that tells of a position.
pub fn position_event(position: &HyperLiquidPosition) -> (r: ApiEvent)
    ensures
        r matches ApiEvent::PositionUpdate { coin, size, entry_price, unrealized_pnl } && coin
            == position.coin && size == position.szi && entry_price == position.entry_px
            && unrealized_pnl == position.unrealized_pnl,
{
    ApiEvent::PositionUpdate {
        coin: position.coin.clone(),
        size: position.szi.clone(),
        entry_price: position.entry_px.clone(),
        unrealized_pnl: position.unrealized_pnl.clone(),
    }
}

/// Whether an event tells that an order rests with this much remaining.
pub open spec fn is_rest_event(
    event: ApiEvent,
    oid: u64,
    sz: Seq<char>,
    px: Seq<char>,
    at: u64,
) -> bool {
    event matches ApiEvent::OrderUpdate {
        order_id,
        status,
        filled_size,
        remaining_size,
        price,
        timestamp,
    } && order_id == oid && status@ == "rest"@ && filled_size@ == "0"@ && remaining_size@ == sz
        && price@ == px && timestamp == at
}

/// Whether an event tells that this much of an order was filled.
pub open spec fn is_filled_event(
    event: ApiEvent,
    oid: u64,
    sz: Seq<char>,
    px: Seq<char>,
    at: u64,
) -> bool {
    event matches ApiEvent::OrderUpdate {
        order_id,
        status,
        filled_size,
        remaining_size,
        price,
        timestamp,
    } && order_id == oid && status@ == "filled"@ && filled_size@ == sz && remaining_size@ == "0"@
        && price@ == px && timestamp == at
}

/// The events that tell of an order's status: one for what rests of it,
/// then one for what was filled, each where the status says so.
pub fn order_update_events(status: &HyperLiquidOrderStatus) -> (r: Vec<ApiEvent>)
    ensures
        r@.len() == (if status.rest is Some {
            1int
        } else {
            0int
        }) + (if status.filled is Some {
            1int
        } else {
            0int
        }),
        status.rest matches Some(rest) ==> is_rest_event(
            r@[0],
            rest.oid,
            rest.sz@,
            rest.px@,
            rest.timestamp,
        ),
        status.filled matches Some(filled) ==> is_filled_event(
            r@[r@.len() - 1],
            filled.oid,
            filled.sz@,
            filled.px@,
            filled.timestamp,
        ),
{
    let mut events: Vec<ApiEvent> = Vec::new();
    match &status.rest {
        Some(rest) => {
            events.push(
                ApiEvent::OrderUpdate {
                    order_id: rest.oid,
                    status: "rest".to_string(),
                    filled_size: "0".to_string(),
                    remaining_size: rest.sz.clone(),
                    price: rest.px.clone(),
                    timestamp: rest.timestamp,
                },
            );
        },
        None => {},
    }
    match &status.filled {
        Some(filled) => {
            events.push(
                ApiEvent::OrderUpdate {
                    order_id: filled.oid,
                    status: "filled".to_string(),
                    filled_size: filled.sz.clone(),
                    remaining_size: "0".to_string(),
                    price: filled.px.clone(),
                    timestamp: filled.timestamp,
                },
            );
        },
        None => {},
    }
    events
}

/// Whether the connection counts as lost at the time `now`: its last
/// heartbeat is longer ago than the timeout.
pub open spec fn spec_heartbeat_lost(last_heartbeat: i64, now: i64) -> bool {
    now - last_heartbeat > HEARTBEAT_TIMEOUT_MILLIS
}

/// Whether the connection counts as lost at the time `now`.
#[verifier::when_used_as_spec(spec_heartbeat_lost)]
pub fn heartbeat_lost(last_heartbeat: i64, now: i64) -> (r: bool)
    ensures
        r == spec_heartbeat_lost(last_heartbeat, now),
{
    (now as i128) - (last_heartbeat as i128) > HEARTBEAT_TIMEOUT_MILLIS as i128
}

/// What the reconnect loop does at one of its ticks.
#[derive(Debug, Clone, Copy, PartialEq, Eq, Structural)]
pub enum ReconnectStep {
    /// The connection stands, or is being made: nothing to do.
    Idle,
    /// The connection is to be tried anew; this is the number of the try.
    Attempt(u32),
    /// The tries are used up: the loop ends.
    GiveUp,
}

/// Whether a connection in this state needs to be made anew.
pub open spec fn needs_reconnect(state: ConnectionState) -> bool {
    state is Disconnected || state is Error
}

/// A count one higher, unless it is at its largest.
pub open spec fn next_attempt(attempts: u32) -> u32 {
    if attempts < u32::MAX {
        (attempts + 1) as u32
    } else {
        attempts
    }
}

pub open spec fn spec_reconnect_step(state: ConnectionState, attempts: u32) -> ReconnectStep {
    if !needs_reconnect(state) {
        ReconnectStep::Idle
    } else if next_attempt(attempts) <= MAX_RECONNECT_ATTEMPTS {
        ReconnectStep::Attempt(next_attempt(attempts))
    } else {
        ReconnectStep::GiveUp
    }
}

/// Decides what the reconnect loop does at a tick, and counts the try: a
/// connection that is lost is tried anew, up to the number of tries
/// allowed in a row.
pub fn reconnect_step(state: &mut ConnectionState, attempts: &mut u32) -> (r: ReconnectStep)
    ensures
        r == spec_reconnect_step(*old(state), *old(attempts)),
        r is Idle ==> *final(state) == *old(state) && *final(attempts) == *old(attempts),
        r is Attempt ==> *final(state) == ConnectionState::Reconnecting && *final(attempts)
            == next_attempt(*old(attempts)),
        r is GiveUp ==> *final(state) == *old(state) && *final(attempts) == next_attempt(
            *old(attempts),
        ),
{
    let lost = match state {
        ConnectionState::Disconnected => true,
        ConnectionState::Error(_) => true,
        _ => false,
    };
    if !lost {
        return ReconnectStep::Idle;
    }
    if *attempts < u32::MAX {
        *attempts = *attempts + 1;
    }
    if *attempts <= MAX_RECONNECT_ATTEMPTS {
        *state = ConnectionState::Reconnecting;
        ReconnectStep::Attempt(*attempts)
    } else {
        ReconnectStep::GiveUp
    }
}

/// Takes the outcome of a try to connect: a connection that was made
/// stands and the count of tries begins anew; one that failed is in
/// error, with the reason.
pub fn finish_reconnect(
    state: &mut ConnectionState,
    attempts: &mut u32,
    outcome: Result<(), String>,
)
    ensures
        match outcome {
            Ok(_) => *final(state) == ConnectionState::Connected && *final(attempts) == 0,
            Err(why) => *final(state) == ConnectionState::Error(why) && *final(attempts) == *old(
                attempts,
            ),
        },
{
    match outcome {
        Ok(_) => {
            *state = ConnectionState::Connected;
            *attempts = 0;
        },
        Err(why) => {
            *state = ConnectionState::Error(why);
        },
    }
}

/// The side that the exchange's code for a side stands for: `B` for the
/// bid side, which buys, and `A` for the ask side, which sells.
pub open spec fn side_of_code(code: Seq<char>) -> Option<Side> {
    if code == "B"@ {
        Some(Side::Buy)
    } else if code == "A"@ {
        Some(Side::Sell)
    } else {
        None
    }
}

/// A time of the exchange as a time of the engine.
pub open spec fn engine_time(time: u64) -> i64 {
    if time <= i64::MAX as u64 {
        time as i64
    } else {
        i64::MAX
    }
}

/// The fill that a report of the exchange describes, under the identity
/// `id`: its order is the exchange's, its numbers are read from the
/// report's texts. `None` where the side or a number cannot be read.
pub fn fill_from_report(report: &HyperLiquidFill, id: u128) -> (r: Option<Fill>)
    ensures
        match (
            side_of_code(report.side@),
            decimal_of_text(report.px@),
            decimal_of_text(report.sz@),
            decimal_of_text(report.fee@),
        ) {
            (Some(side), Some(price), Some(size), Some(fee)) => r matches Some(f) && f.id == id
                && f.order_id == report.oid && f.symbol == report.coin && f.side == side
                && f.price@ == price && f.size@ == size && f.fee@ == fee && f.timestamp
                == engine_time(report.time),
            _ => r is None,
        },
{
    let side = if same_text(report.side.as_str(), "B") {
        Side::Buy
    } else if same_text(report.side.as_str(), "A") {
        Side::Sell
    } else {
        return None;
    };
    let price = match Decimal::from_str(report.px.as_str()) {
        Some(d) => d,
        None => {
            return None;
        },
    };
    let size = match Decimal::from_str(report.sz.as_str()) {
        Some(d) => d,
        None => {
            return None;
        },
    };
    let fee = match Decimal::from_str(report.fee.as_str()) {
        Some(d) => d,
        None => {
            return None;
        },
    };
    let timestamp: i64 = if report.time <= 0x7fff_ffff_ffff_ffff {
        report.time as i64
    } else {
        i64::MAX
    };
    Some(
        Fill {
            id,
            order_id: report.oid as u128,
            symbol: report.coin.clone(),
            side,
            price,
            size,
            fee,
            timestamp,
        },
    )
}

/// What a frame of the feed is.
#[derive(Debug, Clone, Copy, PartialEq, Eq, Structural)]
pub enum FrameKind {
    Text,
    Binary,
    Continuation,
    Ping,
    Pong,
    Close,
}

/// What is to be done about a frame.
#[derive(Debug, Clone, Copy, PartialEq, Eq, Structural)]
pub enum FrameReply {
    /// The frame holds a message, which is to be read.
    ReadText,
    /// The frame asks for a pong with what it carries.
    SendPong,
    Nothing,
}

/// What a message of the feed says, once it was read.
#[derive(Debug)]
pub enum FeedMessage {
    Fill(HyperLiquidFill),
    Order(HyperLiquidOrderStatus),
    Position(HyperLiquidPosition),
    Pong,
    /// A user event, a message of an unknown channel, or one whose body
    /// could not be read.
    Other,
}

/// A request to stream a channel of the private feed.
#[derive(Debug)]
pub struct UserSubscription {
    pub method: String,
    pub type_field: String,
    pub user: Option<String>,
}

/// The name of a channel of the private feed, where it can be subscribed to.
pub open spec fn channel_text(channel: FeedChannel) -> Option<Seq<char>> {
    match channel {
        FeedChannel::UserEvents => Some("userEvents"@),
        FeedChannel::Fills => Some("fills"@),
        FeedChannel::Orders => Some("orders"@),
        FeedChannel::Positions => Some("positions"@),
        _ => None,
    }
}

/// The subscriptions after a channel was subscribed to.
pub open spec fn subscribed(state: SubscriptionState, channel: FeedChannel) -> SubscriptionState {
    match channel {
        FeedChannel::UserEvents => SubscriptionState { user_events: true, ..state },
        FeedChannel::Fills => SubscriptionState { fills: true, ..state },
        FeedChannel::Orders => SubscriptionState { orders: true, ..state },
        FeedChannel::Positions => SubscriptionState { positions: true, ..state },
        _ => state,
    }
}

/// The events that a message gives rise to.
pub open spec fn message_event_count(message: FeedMessage) -> int {
    match message {
        FeedMessage::Fill(_) => 1,
        FeedMessage::Position(_) => 1,
        FeedMessage::Order(status) => (if status.rest is Some {
            1int
        } else {
            0int
        }) + (if status.filled is Some {
            1int
        } else {
            0int
        }),
        _ => 0,
    }
}

/// The state of the connection to the private feed. Its caller owns the
/// socket and tells this state what happened on it; events are queued
/// here and drained by the caller.
pub struct TradingWebSocket {
    pub account_id: Option<u64>,
    pub config: ApiConfig,
    /// Whether a socket was ever opened.
    pub has_socket: bool,
    pub connection_state: ConnectionState,
    pub subscription_state: SubscriptionState,
    pub reconnect_attempts: u32,
    pub last_heartbeat: i64,
    /// The events that wait to be drained.
    pub events: Vec<ApiEvent>,
}

impl TradingWebSocket {
    /// A feed that is not connected and subscribed to nothing, its last
    /// heartbeat counted as at `now`.
    pub fn new_at(account_id: Option<u64>, config: ApiConfig, now: i64) -> (r: Self)
        ensures
            r.account_id == account_id,
            r.config == config,
            !r.has_socket,
            r.connection_state is Disconnected,
            r.subscription_state == (SubscriptionState {
                user_events: false,
                fills: false,
                orders: false,
                positions: false,
            }),
            r.reconnect_attempts == 0,
            r.last_heartbeat == now,
            r.events@.len() == 0,
    {
        TradingWebSocket {
            account_id,
            config,
            has_socket: false,
            connection_state: ConnectionState::Disconnected,
            subscription_state: SubscriptionState {
                user_events: false,
                fills: false,
                orders: false,
                positions: false,
            },
            reconnect_attempts: 0,
            last_heartbeat: now,
            events: Vec::new(),
        }
    }

    /// A feed that is not connected, its last heartbeat counted as now.
    pub fn new(account_id: Option<u64>, config: ApiConfig) -> (r: Self)
        ensures
            r.account_id == account_id,
            r.config == config,
            !r.has_socket,
            r.connection_state is Disconnected,
            r.reconnect_attempts == 0,
            r.events@.len() == 0,
            r.subscription_state == (SubscriptionState {
                user_events: false,
                fills: false,
                orders: false,
                positions: false,
            }),
    {
        Self::new_at(account_id, config, utc_now_millis())
    }

    /// Notes that a connection is being made.
    pub fn begin_connect(&mut self)
        ensures
            final(self).connection_state is Connecting,
            final(self).account_id == old(self).account_id,
            final(self).config == old(self).config,
            final(self).has_socket == old(self).has_socket,
            final(self).subscription_state == old(self).subscription_state,
            final(self).reconnect_attempts == old(self).reconnect_attempts,
            final(self).last_heartbeat == old(self).last_heartbeat,
            final(self).events == old(self).events,
    {
        self.connection_state = ConnectionState::Connecting;
    }

    /// Takes the outcome of making a connection at the time `now`: one
    /// that was made stands, the count of tries begins anew and the
    /// heartbeat counts from `now`; one that failed is an error of the
    /// network, and the state stays as it was.
    pub fn connect(&mut self, outcome: Result<(), String>, now: i64) -> (r: Result<(), ApiError>)
        ensures
            match outcome {
                Ok(_) => r is Ok && final(self).connection_state is Connected && final(self).has_socket && final(self).reconnect_attempts == 0 && final(self).last_heartbeat
                    == now,
                Err(why) => r matches Err(ApiError::NetworkError(m)) && m == why && final(self).connection_state == old(self).connection_state && final(self).has_socket == old(self).has_socket && final(self).reconnect_attempts == old(self).reconnect_attempts
                    && final(self).last_heartbeat == old(self).last_heartbeat,
            },
            final(self).account_id == old(self).account_id,
            final(self).config == old(self).config,
            final(self).subscription_state == old(self).subscription_state,
            final(self).events == old(self).events,
    {
        match outcome {
            Ok(_) => {
                self.has_socket = true;
                self.connection_state = ConnectionState::Connected;
                self.reconnect_attempts = 0;
                self.last_heartbeat = now;
                Ok(())
            },
            Err(why) => Err(ApiError::NetworkError(why)),
        }
    }

    /// The request that subscribes to a channel for this account; an error
    /// of the network where no socket was opened, and an invalid order of
    /// a channel that cannot be subscribed to.
    pub fn subscription_request(&self, channel: FeedChannel) -> (r: Result<UserSubscription, ApiError>)
        ensures
            !self.has_socket ==> (r matches Err(ApiError::NetworkError(m)) && m@
                == "WebSocket not connected"@),
            self.has_socket ==> match channel_text(channel) {
                Some(name) => r matches Ok(request) && request.method@ == "subscribe"@
                    && request.type_field@ == name && match self.account_id {
                    Some(id) => request.user matches Some(user) && user@ == digits_of(id as nat),
                    None => request.user is None,
                },
                None => r matches Err(ApiError::InvalidOrder(m)) && m@ == "No such channel"@,
            },
    {
        if !self.has_socket {
            return Err(ApiError::NetworkError("WebSocket not connected".to_string()));
        }
        let type_field = match channel {
            FeedChannel::UserEvents => "userEvents".to_string(),
            FeedChannel::Fills => "fills".to_string(),
            FeedChannel::Orders => "orders".to_string(),
            FeedChannel::Positions => "positions".to_string(),
            _ => {
                return Err(ApiError::InvalidOrder("No such channel".to_string()));
            },
        };
        let user = match self.account_id {
            Some(id) => Some(u64_to_text(id)),
            None => None,
        };
        Ok(UserSubscription { method: "subscribe".to_string(), type_field, user })
    }

    /// Takes the outcome of sending the request for a channel: a request
    /// that was sent leaves the channel subscribed to; one that was not is
    /// an error of the network.
    pub fn finish_subscribe(&mut self, channel: FeedChannel, sent: Result<(), String>) -> (r: Result<
        (),
        ApiError,
    >)
        ensures
            match sent {
                Ok(_) => r is Ok && final(self).subscription_state == subscribed(
                    old(self).subscription_state,
                    channel,
                ),
                Err(why) => r matches Err(ApiError::NetworkError(m)) && m == why && final(self).subscription_state == old(self).subscription_state,
            },
            final(self).account_id == old(self).account_id,
            final(self).config == old(self).config,
            final(self).has_socket == old(self).has_socket,
            final(self).connection_state == old(self).connection_state,
            final(self).reconnect_attempts == old(self).reconnect_attempts,
            final(self).last_heartbeat == old(self).last_heartbeat,
            final(self).events == old(self).events,
    {
        match sent {
            Ok(_) => {
                match channel {
                    FeedChannel::UserEvents => {
                        self.subscription_state.user_events = true;
                    },
                    FeedChannel::Fills => {
                        self.subscription_state.fills = true;
                    },
                    FeedChannel::Orders => {
                        self.subscription_state.orders = true;
                    },
                    FeedChannel::Positions => {
                        self.subscription_state.positions = true;
                    },
                    _ => {},
                }
                Ok(())
            },
            Err(why) => Err(ApiError::NetworkError(why)),
        }
    }

    /// Takes the outcome of sending the request for user events.
    pub fn subscribe_to_user_events(&mut self, sent: Result<(), String>) -> (r: Result<(), ApiError>)
        ensures
            match sent {
                Ok(_) => r is Ok && final(self).subscription_state == subscribed(
                    old(self).subscription_state,
                    FeedChannel::UserEvents,
                ),
                Err(why) => r matches Err(ApiError::NetworkError(m)) && m == why
                    && final(self).subscription_state == old(self).subscription_state,
            },
    {
        self.finish_subscribe(FeedChannel::UserEvents, sent)
    }

    /// Takes the outcome of sending the request for fills.
    pub fn subscribe_to_fills(&mut self, sent: Result<(), String>) -> (r: Result<(), ApiError>)
        ensures
            match sent {
                Ok(_) => r is Ok && final(self).subscription_state == subscribed(
                    old(self).subscription_state,
                    FeedChannel::Fills,
                ),
                Err(why) => r matches Err(ApiError::NetworkError(m)) && m == why
                    && final(self).subscription_state == old(self).subscription_state,
            },
    {
        self.finish_subscribe(FeedChannel::Fills, sent)
    }

    /// Takes the outcome of sending the request for orders.
    pub fn subscribe_to_orders(&mut self, sent: Result<(), String>) -> (r: Result<(), ApiError>)
        ensures
            match sent {
                Ok(_) => r is Ok && final(self).subscription_state == subscribed(
                    old(self).subscription_state,
                    FeedChannel::Orders,
                ),
                Err(why) => r matches Err(ApiError::NetworkError(m)) && m == why
                    && final(self).subscription_state == old(self).subscription_state,
            },
    {
        self.finish_subscribe(FeedChannel::Orders, sent)
    }

    /// Takes the outcome of sending the request for positions.
    pub fn subscribe_to_positions(&mut self, sent: Result<(), String>) -> (r: Result<(), ApiError>)
        ensures
            match sent {
                Ok(_) => r is Ok && final(self).subscription_state == subscribed(
                    old(self).subscription_state,
                    FeedChannel::Positions,
                ),
                Err(why) => r matches Err(ApiError::NetworkError(m)) && m == why
                    && final(self).subscription_state == old(self).subscription_state,
            },
    {
        self.finish_subscribe(FeedChannel::Positions, sent)
    }

    /// Takes a frame of the feed at the time `now`: a text frame is to be
    /// read, a ping to be answered, a pong is a heartbeat, and a close
    /// frame leaves the feed disconnected.
    pub fn handle_message(&mut self, kind: FrameKind, now: i64) -> (r: FrameReply)
        ensures
            r == match kind {
                FrameKind::Text => FrameReply::ReadText,
                FrameKind::Ping => FrameReply::SendPong,
                _ => FrameReply::Nothing,
            },
            final(self).last_heartbeat == if kind is Pong {
                now
            } else {
                old(self).last_heartbeat
            },
            final(self).connection_state == if kind is Close {
                ConnectionState::Disconnected
            } else {
                old(self).connection_state
            },
            final(self).account_id == old(self).account_id,
            final(self).config == old(self).config,
            final(self).has_socket == old(self).has_socket,
            final(self).subscription_state == old(self).subscription_state,
            final(self).reconnect_attempts == old(self).reconnect_attempts,
            final(self).events == old(self).events,
    {
        match kind {
            FrameKind::Text => FrameReply::ReadText,
            FrameKind::Ping => FrameReply::SendPong,
            FrameKind::Pong => {
                self.last_heartbeat = now;
                FrameReply::Nothing
            },
            FrameKind::Close => {
                self.connection_state = ConnectionState::Disconnected;
                FrameReply::Nothing
            },
            _ => FrameReply::Nothing,
        }
    }

    /// Takes a message of the feed at the time `now`: a fill, an order's
    /// status and a position are told of in events, a pong is a heartbeat,
    /// and anything else is passed over.
    pub fn process_trading_message(&mut self, message: FeedMessage, now: i64)
        ensures
            final(self).events@.len() == old(self).events@.len() + message_event_count(message),
            final(self).events@.take(old(self).events@.len() as int) == old(self).events@,
            match message {
                FeedMessage::Fill(fill) => final(self).events@.last() matches ApiEvent::Fill {
                    order_id,
                    fill_size,
                    fill_price,
                    fee,
                    timestamp,
                } && order_id == fill.oid && fill_size == fill.sz && fill_price == fill.px && fee
                    == fill.fee && timestamp == fill.time,
                FeedMessage::Position(position) => final(self).events@.last() matches ApiEvent::PositionUpdate {
                    coin,
                    size,
                    entry_price,
                    unrealized_pnl,
                } && coin == position.coin && size == position.szi && entry_price
                    == position.entry_px && unrealized_pnl == position.unrealized_pnl,
                FeedMessage::Order(status) => {
                    &&& status.rest matches Some(rest) ==> is_rest_event(
                        final(self).events@[old(self).events@.len() as int],
                        rest.oid,
                        rest.sz@,
                        rest.px@,
                        rest.timestamp,
                    )
                    &&& status.filled matches Some(filled) ==> is_filled_event(
                        final(self).events@.last(),
                        filled.oid,
                        filled.sz@,
                        filled.px@,
                        filled.timestamp,
                    )
                },
                _ => true,
            },
            final(self).last_heartbeat == if message is Pong {
                now
            } else {
                old(self).last_heartbeat
            },
            final(self).account_id == old(self).account_id,
            final(self).config == old(self).config,
            final(self).has_socket == old(self).has_socket,
            final(self).connection_state == old(self).connection_state,
            final(self).subscription_state == old(self).subscription_state,
            final(self).reconnect_attempts == old(self).reconnect_attempts,
    {
        let ghost held = self.events@;
        match message {
            FeedMessage::Fill(fill) => {
                self.events.push(fill_event(&fill));
            },
            FeedMessage::Position(position) => {
                self.events.push(position_event(&position));
            },
            FeedMessage::Order(status) => {
                let mut told = order_update_events(&status);
                let ghost news = told@;
                self.events.append(&mut told);
                assert(self.events@ == held + news);
            },
            FeedMessage::Pong => {
                self.last_heartbeat = now;
            },
            FeedMessage::Other => {},
        }
        assert(self.events@.take(held.len() as int) =~= held);
    }

    /// Looks at the heartbeat at the time `now`: where it is lost, the
    /// feed is in error and an event tells of it. Says whether it is lost.
    pub fn check_heartbeat(&mut self, now: i64) -> (r: bool)
        ensures
            r == spec_heartbeat_lost(old(self).last_heartbeat, now),
            !r ==> final(self).connection_state == old(self).connection_state && final(self).events
                == old(self).events,
            r ==> {
                &&& final(self).connection_state matches ConnectionState::Error(m) && m@
                    == "Heartbeat timeout"@
                &&& final(self).events@.len() == old(self).events@.len() + 1
                &&& final(self).events@.drop_last() == old(self).events@
                &&& final(self).events@.last() matches ApiEvent::Error { error, timestamp } && error@
                    == "WebSocket heartbeat timeout"@ && timestamp == (if now < 0 {
                    0
                } else {
                    now as u64
                })
            },
            final(self).account_id == old(self).account_id,
            final(self).config == old(self).config,
            final(self).has_socket == old(self).has_socket,
            final(self).subscription_state == old(self).subscription_state,
            final(self).reconnect_attempts == old(self).reconnect_attempts,
            final(self).last_heartbeat == old(self).last_heartbeat,
    {
        if !heartbeat_lost(self.last_heartbeat, now) {
            return false;
        }
        let ghost held = self.events@;
        self.connection_state = ConnectionState::Error("Heartbeat timeout".to_string());
        let timestamp: u64 = if now < 0 {
            0
        } else {
            now as u64
        };
        self.events.push(
            ApiEvent::Error { error: "WebSocket heartbeat timeout".to_string(), timestamp },
        );
        assert(self.events@.drop_last() =~= held);
        true
    }

    /// Notes that the socket was closed.
    pub fn disconnect(&mut self)
        ensures
            final(self).connection_state is Disconnected,
            final(self).account_id == old(self).account_id,
            final(self).config == old(self).config,
            final(self).has_socket == old(self).has_socket,
            final(self).subscription_state == old(self).subscription_state,
            final(self).reconnect_attempts == old(self).reconnect_attempts,
            final(self).last_heartbeat == old(self).last_heartbeat,
            final(self).events == old(self).events,
    {
        self.connection_state = ConnectionState::Disconnected;
    }

    /// Whether the connection stands.
    pub fn is_connected(&self) -> (r: bool)
        ensures
            r == (self.connection_state is Connected),
    {
        match self.connection_state {
            ConnectionState::Connected => true,
            _ => false,
        }
    }

    /// The state of the connection.
    pub fn get_connection_state(&self) -> (r: ConnectionState)
        ensures
            r == self.connection_state,
    {
        self.connection_state.clone()
    }

    /// What the feed is subscribed to.
    pub fn get_subscription_state(&self) -> (r: SubscriptionState)
        ensures
            r == self.subscription_state,
    {
        self.subscription_state
    }

    /// What the reconnect loop does at one of its ticks, the try counted.
    pub fn reconnect_tick(&mut self) -> (r: ReconnectStep)
        ensures
            r == spec_reconnect_step(old(self).connection_state, old(self).reconnect_attempts),
            r is Idle ==> final(self).connection_state == old(self).connection_state && final(self).reconnect_attempts == old(self).reconnect_attempts,
            r is Attempt ==> final(self).connection_state is Reconnecting && final(self).reconnect_attempts == next_attempt(old(self).reconnect_attempts),
            r is GiveUp ==> final(self).connection_state == old(self).connection_state && final(self).reconnect_attempts == next_attempt(old(self).reconnect_attempts),
            final(self).account_id == old(self).account_id,
            final(self).config == old(self).config,
            final(self).has_socket == old(self).has_socket,
            final(self).subscription_state == old(self).subscription_state,
            final(self).last_heartbeat == old(self).last_heartbeat,
            final(self).events == old(self).events,
    {
        reconnect_step(&mut self.connection_state, &mut self.reconnect_attempts)
    }

    /// Takes the outcome of a try to connect anew: a connection that was
    /// made stands and the count of tries begins anew; one that failed is
    /// in error, with the reason.
    pub fn finish_reconnect(&mut self, outcome: Result<(), String>)
        ensures
            match outcome {
                Ok(_) => final(self).connection_state is Connected && final(self).reconnect_attempts
                    == 0 && final(self).has_socket,
                Err(why) => final(self).connection_state == ConnectionState::Error(why) && final(self).reconnect_attempts == old(self).reconnect_attempts && final(self).has_socket
                    == old(self).has_socket,
            },
            final(self).account_id == old(self).account_id,
            final(self).config == old(self).config,
            final(self).subscription_state == old(self).subscription_state,
            final(self).last_heartbeat == old(self).last_heartbeat,
            final(self).events == old(self).events,
    {
        if outcome.is_ok() {
            self.has_socket = true;
        }
        finish_reconnect(&mut self.connection_state, &mut self.reconnect_attempts, outcome);
    }

    /// Hands out the events that wait, oldest first, and forgets them.
    pub fn drain_events(&mut self) -> (r: Vec<ApiEvent>)
        ensures
            r@ == old(self).events@,
            final(self).events@ == Seq::<ApiEvent>::empty(),
            final(self).account_id == old(self).account_id,
            final(self).config == old(self).config,
            final(self).has_socket == old(self).has_socket,
            final(self).connection_state == old(self).connection_state,
            final(self).subscription_state == old(self).subscription_state,
            final(self).reconnect_attempts == old(self).reconnect_attempts,
            final(self).last_heartbeat == old(self).last_heartbeat,
    {
        let mut out: Vec<ApiEvent> = Vec::new();
        core::mem::swap(&mut out, &mut self.events);
        out
    }
}

} // verus!
