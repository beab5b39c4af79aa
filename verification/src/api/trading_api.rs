//! The submission pipeline: which order goes to the exchange when. The
//! pipeline decides; its caller talks to the exchange, sleeps where it is
//! told to wait, and reports back what the exchange said. Times are in
//! milliseconds.

use crate::api::types::{ApiConfig, ApiError, ApiEvent, HyperLiquidOrder};
use crate::clock::{fresh_uuid, utc_now_millis, uuid_string, uuid_text};
use crate::datastructures::id_map::IdMap;
use crate::datastructures::symbol_map::same_text;
use crate::numeric::decimal::{shown, Decimal, Digits};
use crate::trading::types::{NewOrder, OrderType, Side};
use crate::utils::text::join;
use vstd::prelude::*;
use vstd::string::StringExecFns;

verus! {

/// The length of a rate-limit window.
pub const RATE_WINDOW_MILLIS: i64 = 1000;

/// How many requests the exchange takes in one window.
pub const RATE_LIMIT_PER_WINDOW: u32 = 100;

/// An order on its way to the exchange.
#[derive(Debug)]
pub struct PendingOrder {
    pub internal_id: u128,
    pub client_order_id: u64,
    pub symbol: String,
    pub side: Side,
    pub order_type: OrderType,
    pub price: Digits,
    pub size: Decimal,
    pub created_at: i64,
    /// How often the submission was tried again.
    pub retry_count: u32,
}

impl Clone for PendingOrder {
    fn clone(&self) -> (r: Self)
        ensures
            r == *self,
    {
        PendingOrder {
            internal_id: self.internal_id,
            client_order_id: self.client_order_id,
            symbol: self.symbol.clone(),
            side: self.side,
            order_type: self.order_type,
            price: self.price,
            size: self.size,
            created_at: self.created_at,
            retry_count: self.retry_count,
        }
    }
}

/// A submission that failed and waits for its next try.
#[derive(Debug)]
pub struct RetryRequest {
    pub order: PendingOrder,
    /// The time from which the next try is due.
    pub retry_after: i64,
}

impl Clone for RetryRequest {
    fn clone(&self) -> (r: Self)
        ensures
            r == *self,
    {
        RetryRequest { order: self.order.clone(), retry_after: self.retry_after }
    }
}

/// The fixed-window rate limiter: at most `capacity` requests in each window.
#[derive(Debug, Clone, Copy)]
pub struct RateLimiter {
    pub last_request: i64,
    pub request_count: u32,
    pub window_start: i64,
    pub capacity: u32,
}

/// What the rate limiter tells a caller.
#[derive(Debug, Clone, Copy, PartialEq, Eq, Structural)]
pub enum RateDecision {
    /// The request may go now; it has been counted.
    Proceed,
    /// The window is used up: the caller waits this many milliseconds,
    /// holding no lock, and asks again.
    Wait(u64),
}

impl RateLimiter {
    /// What holds of a limiter at all times: no more requests counted than
    /// a window takes.
    pub open spec fn wf(&self) -> bool {
        self.request_count <= self.capacity
    }

    /// Whether the window of the limiter is over at the time `now`: more
    /// than a window's length has passed since it began. A clock that
    /// reads a time before the window began ends no window.
    pub open spec fn window_over(&self, now: i64) -> bool {
        now - self.window_start > RATE_WINDOW_MILLIS
    }

    /// Whether a request at the time `now` begins a new window: the old
    /// one is over, or it is used up and has lasted its full length.
    pub open spec fn expired(&self, now: i64) -> bool {
        self.window_over(now) || (self.request_count >= self.capacity && now - self.window_start
            == RATE_WINDOW_MILLIS)
    }

    /// The limiter as a request at the time `now` finds it: in a fresh
    /// window where the old one has expired.
    pub open spec fn rolled(&self, now: i64) -> RateLimiter {
        if self.expired(now) {
            RateLimiter {
                last_request: self.last_request,
                request_count: 0,
                window_start: now,
                capacity: self.capacity,
            }
        } else {
            *self
        }
    }

    /// How long a caller waits who finds the window used up at the time
    /// `now`: for what is left of the window, and for no more than a
    /// window's length where the clock reads a time before the window
    /// began.
    pub open spec fn wait_of(&self, now: i64) -> u64 {
        if now < self.window_start {
            RATE_WINDOW_MILLIS as u64
        } else {
            (self.window_start + RATE_WINDOW_MILLIS - now) as u64
        }
    }

    /// What a request at the time `now` is told.
    pub open spec fn decision(&self, now: i64) -> RateDecision {
        let at = self.rolled(now);
        if at.request_count < at.capacity {
            RateDecision::Proceed
        } else {
            RateDecision::Wait(at.wait_of(now))
        }
    }

    /// The limiter after a request at the time `now`.
    pub open spec fn after_request(&self, now: i64) -> RateLimiter {
        let at = self.rolled(now);
        if at.request_count < at.capacity {
            RateLimiter {
                last_request: now,
                request_count: (at.request_count + 1) as u32,
                window_start: at.window_start,
                capacity: at.capacity,
            }
        } else {
            at
        }
    }

    /// The limiter after `n` requests, all at the time `now`.
    pub open spec fn after_burst(&self, now: i64, n: nat) -> RateLimiter
        decreases n,
    {
        if n == 0 {
            *self
        } else {
            self.after_burst(now, (n - 1) as nat).after_request(now)
        }
    }

    /// A limiter of the given capacity, its first window beginning at `now`.
    pub open spec fn fresh(capacity: u32, now: i64) -> RateLimiter {
        RateLimiter { last_request: now, request_count: 0, window_start: now, capacity }
    }

    /// A limiter of `capacity` requests a window, its first window beginning at `now`.
    #[verifier::when_used_as_spec(fresh)]
    pub fn new_at(capacity: u32, now: i64) -> (r: Self)
        ensures
            r == Self::fresh(capacity, now),
            r.wf(),
    {
        RateLimiter { last_request: now, request_count: 0, window_start: now, capacity }
    }

    /// Asks to make a request at the time `now`. In a window that has room
    /// the request is counted and may proceed; in one that is used up the
    /// caller is told how long the window still lasts.
    pub fn request(&mut self, now: i64) -> (r: RateDecision)
        ensures
            old(self).wf() ==> final(self).wf(),
            r == old(self).decision(now),
            *final(self) == old(self).after_request(now),
            r matches RateDecision::Wait(ms) ==> 0 < ms <= RATE_WINDOW_MILLIS && (now >= final(self).window_start ==> now + ms == final(self).window_start + RATE_WINDOW_MILLIS),
    {
        let elapsed = (now as i128) - (self.window_start as i128);
        let window = RATE_WINDOW_MILLIS as i128;
        if elapsed > window || (self.request_count >= self.capacity && elapsed == window) {
            self.window_start = now;
            self.request_count = 0;
        }
        if self.request_count < self.capacity {
            self.request_count = self.request_count + 1;
            self.last_request = now;
            RateDecision::Proceed
        } else if now < self.window_start {
            RateDecision::Wait(RATE_WINDOW_MILLIS as u64)
        } else {
            let left = window - ((now as i128) - (self.window_start as i128));
            RateDecision::Wait(left as u64)
        }
    }
}

impl Default for RateLimiter {
    fn default() -> (r: Self)
        ensures
            r.wf(),
            r.request_count == 0,
            r.capacity == RATE_LIMIT_PER_WINDOW,
    {
        RateLimiter::new_at(RATE_LIMIT_PER_WINDOW, utc_now_millis())
    }
}

/// A burst of requests at one instant, in a window that has not begun to
/// be used: as many as the window takes are counted, and no more.
pub proof fn lemma_burst_counts(limiter: RateLimiter, now: i64, n: nat)
    requires
        limiter.wf(),
        limiter.window_start == now,
        limiter.request_count == 0,
    ensures
        limiter.after_burst(now, n).request_count == if n <= limiter.capacity {
            n
        } else {
            limiter.capacity as nat
        },
        limiter.after_burst(now, n).window_start == now,
        limiter.after_burst(now, n).capacity == limiter.capacity,
        limiter.after_burst(now, n).wf(),
    decreases n,
{
    if n > 0 {
        lemma_burst_counts(limiter, now, (n - 1) as nat);
    }
}

/// The law of the rate limiter: in a burst at one instant into a fresh
/// window the first `capacity` requests proceed, and every later one is
/// told to wait for the whole window.
pub proof fn lemma_burst_decisions(limiter: RateLimiter, now: i64, k: nat)
    requires
        limiter.wf(),
        limiter.window_start == now,
        limiter.request_count == 0,
    ensures
        limiter.after_burst(now, k).decision(now) == if k < limiter.capacity {
            RateDecision::Proceed
        } else {
            RateDecision::Wait(RATE_WINDOW_MILLIS as u64)
        },
{
    lemma_burst_counts(limiter, now, k);
}

/// A request that finds room in a window that is not over is counted in
/// that window: the count is one more and the window begins where it
/// began, also at the very end of the window's length.
pub proof fn lemma_room_is_taken(limiter: RateLimiter, now: i64)
    requires
        limiter.request_count < limiter.capacity,
        now - limiter.window_start <= RATE_WINDOW_MILLIS,
    ensures
        limiter.decision(now) == RateDecision::Proceed,
        limiter.after_request(now).request_count == limiter.request_count + 1,
        limiter.after_request(now).window_start == limiter.window_start,
        limiter.after_request(now).capacity == limiter.capacity,
{
}

/// A request that was told to wait proceeds once it has waited: at any
/// time from the end of the window the limiter lets it go, where the
/// window takes a request at all and the clock did not read a time before
/// the window began.
pub proof fn lemma_wait_then_proceed(limiter: RateLimiter, now: i64, later: i64)
    requires
        limiter.wf(),
        limiter.capacity > 0,
        now >= limiter.window_start,
        limiter.decision(now) matches RateDecision::Wait(ms) && later >= now + ms,
    ensures
        limiter.after_request(now).decision(later) == RateDecision::Proceed,
{
}

/// Until the window has lasted its length, a limiter that is used up lets
/// nothing go, whatever the clock reads, and stays as it is.
pub proof fn lemma_full_window_blocks(limiter: RateLimiter, now: i64)
    requires
        limiter.wf(),
        limiter.request_count == limiter.capacity,
        now - limiter.window_start < RATE_WINDOW_MILLIS,
    ensures
        limiter.decision(now) is Wait,
        limiter.after_request(now) == limiter,
{
}

/// What the retry processor does with a submission that is due.
#[derive(Debug)]
pub enum RetryStep {
    /// The order has used up its tries and was dropped.
    Dropped,
    /// The order is to be submitted again, as it is handed out here.
    Resubmit(PendingOrder),
}

/// Whether an order has used up its tries.
pub open spec fn tries_used_up(order: PendingOrder, max_retries: u32) -> bool {
    order.retry_count >= max_retries
}

/// An order with one more try counted.
pub open spec fn tried_again(order: PendingOrder) -> PendingOrder {
    PendingOrder {
        internal_id: order.internal_id,
        client_order_id: order.client_order_id,
        symbol: order.symbol,
        side: order.side,
        order_type: order.order_type,
        price: order.price,
        size: order.size,
        created_at: order.created_at,
        retry_count: (order.retry_count + 1) as u32,
    }
}

/// What becomes of an order whose every submission fails, from the time
/// it is first due: how often it is submitted again, and how many events
/// tell of its end.
pub struct FailingRun {
    pub resubmissions: nat,
    pub error_events: nat,
}

/// The run of an order whose every submission fails: while it has tries
/// left it is submitted again, fails and comes back with one more try
/// counted; when its tries are used up it is dropped, and one event tells
/// of it.
pub open spec fn always_failing_run(order: PendingOrder, max_retries: u32) -> FailingRun
    decreases max_retries - order.retry_count,
{
    if tries_used_up(order, max_retries) {
        FailingRun { resubmissions: 0, error_events: 1 }
    } else {
        let rest = always_failing_run(tried_again(order), max_retries);
        FailingRun { resubmissions: rest.resubmissions + 1, error_events: rest.error_events }
    }
}

/// The law of the retry pipeline: an order whose every submission fails is
/// submitted again exactly as often as it has tries left, then dropped,
/// and exactly one event tells of it. A fresh order is submitted again
/// exactly `max_retries` times.
pub proof fn lemma_retries_are_bounded(order: PendingOrder, max_retries: u32)
    requires
        order.retry_count <= max_retries,
    ensures
        always_failing_run(order, max_retries).resubmissions == max_retries - order.retry_count,
        always_failing_run(order, max_retries).error_events == 1,
    decreases max_retries - order.retry_count,
{
    if order.retry_count < max_retries {
        lemma_retries_are_bounded(tried_again(order), max_retries);
    }
}

/// The words of the event that tells of a dropped order.
pub open spec fn dropped_text(internal_id: u128) -> Seq<char> {
    "Max retries exceeded for order "@ + uuid_text(internal_id)
}

/// The event of an error, seen as its words and its time.
pub open spec fn is_error_event(event: ApiEvent, words: Seq<char>, timestamp: u64) -> bool {
    event matches ApiEvent::Error { error, timestamp: at } && error@ == words && at == timestamp
}

/// The requests of a queue that are due at the time `now`, in their order.
pub open spec fn due_requests(queue: Seq<RetryRequest>, now: i64) -> Seq<RetryRequest>
    decreases queue.len(),
{
    if queue.len() == 0 {
        Seq::empty()
    } else {
        let rest = due_requests(queue.drop_last(), now);
        if now >= queue.last().retry_after {
            rest.push(queue.last())
        } else {
            rest
        }
    }
}

/// The requests of a queue that are not yet due at the time `now`, in
/// their order.
pub open spec fn waiting_requests(queue: Seq<RetryRequest>, now: i64) -> Seq<RetryRequest>
    decreases queue.len(),
{
    if queue.len() == 0 {
        Seq::empty()
    } else {
        let rest = waiting_requests(queue.drop_last(), now);
        if now >= queue.last().retry_after {
            rest
        } else {
            rest.push(queue.last())
        }
    }
}

/// The time that lies `delay` milliseconds after `now`, or the last time
/// there is.
pub open spec fn time_after(now: i64, delay: u64) -> i64 {
    if now + delay <= i64::MAX {
        (now + delay) as i64
    } else {
        i64::MAX
    }
}

/// The name under which the exchange knows an order type; it has no
/// post-only orders and takes them as limit orders.
pub open spec fn order_type_text(order_type: OrderType) -> Seq<char> {
    match order_type {
        OrderType::Market => "Market"@,
        OrderType::Limit => "Limit"@,
        OrderType::PostOnly => "Limit"@,
    }
}

/// The name under which the exchange knows an order type.
pub fn map_order_type(order_type: &OrderType) -> (r: String)
    ensures
        r@ == order_type_text(*order_type),
{
    match order_type {
        OrderType::Market => "Market".to_string(),
        OrderType::Limit => "Limit".to_string(),
        OrderType::PostOnly => "Limit".to_string(),
    }
}

/// A pending order as the exchange takes it.
pub fn order_payload(order: &PendingOrder, account_id: Option<u64>) -> (r: HyperLiquidOrder)
    ensures
        r.a == account_id,
        r.b == (order.side is Buy),
        r.p@ == shown(order.price@.0, order.price@.1),
        r.s@ == shown(order.size@, 8),
        !r.r,
        r.t@ == order_type_text(order.order_type),
        r.cid == order.client_order_id,
        r.oid is None,
{
    HyperLiquidOrder {
        a: account_id,
        b: match order.side {
            Side::Buy => true,
            Side::Sell => false,
        },
        p: order.price.to_short_string(),
        s: order.size.to_string(),
        r: false,
        t: map_order_type(&order.order_type),
        cid: order.client_order_id,
        oid: None,
    }
}

/// What the exchange's answer to a submission means. `http_ok` says
/// whether the status was one of success, `status_line` is the status in
/// words, `body` the answer's text where the status was not one of
/// success, and `answer_status` the status field of the answer where the
/// answer could be read, or else why it could not.
pub open spec fn response_verdict(
    http_ok: bool,
    status_line: Seq<char>,
    body: Seq<char>,
    answer_status: Result<Seq<char>, Seq<char>>,
    what: Seq<char>,
) -> ResponseVerdict {
    if !http_ok {
        ResponseVerdict::Rejected(what + " failed with status "@ + status_line + ": "@ + body)
    } else {
        match answer_status {
            Err(why) => ResponseVerdict::Unreadable(why),
            Ok(status) => if status == "ok"@ {
                ResponseVerdict::Accepted
            } else {
                ResponseVerdict::Rejected(what + " response status not ok"@)
            },
        }
    }
}

/// What an answer of the exchange means.
pub enum ResponseVerdict {
    /// The exchange did what was asked.
    Accepted,
    /// The exchange refused, in these words.
    Rejected(Seq<char>),
    /// The answer could not be read, for this reason.
    Unreadable(Seq<char>),
}

/// Whether a result says what a verdict says.
pub open spec fn tells(r: Result<(), ApiError>, verdict: ResponseVerdict) -> bool {
    match verdict {
        ResponseVerdict::Accepted => r is Ok,
        ResponseVerdict::Rejected(words) => r matches Err(ApiError::OrderRejected(m)) && m@
            == words,
        ResponseVerdict::Unreadable(words) => r matches Err(ApiError::ParseError(m)) && m@
            == words,
    }
}

/// Judges the exchange's answer to the submission of an order.
pub fn judge_order_response(
    http_ok: bool,
    status_line: &str,
    body: &str,
    answer_status: Result<String, String>,
) -> (r: Result<(), ApiError>)
    ensures
        tells(
            r,
            response_verdict(
                http_ok,
                status_line@,
                body@,
                match answer_status {
                    Ok(s) => Ok(s@),
                    Err(e) => Err(e@),
                },
                "Order"@,
            ),
        ),
{
    judge_response(http_ok, status_line, body, answer_status, "Order")
}

/// Judges the exchange's answer to the cancelling of an order.
pub fn judge_cancel_response(
    http_ok: bool,
    status_line: &str,
    body: &str,
    answer_status: Result<String, String>,
) -> (r: Result<(), ApiError>)
    ensures
        tells(
            r,
            response_verdict(
                http_ok,
                status_line@,
                body@,
                match answer_status {
                    Ok(s) => Ok(s@),
                    Err(e) => Err(e@),
                },
                "Cancel"@,
            ),
        ),
{
    judge_response(http_ok, status_line, body, answer_status, "Cancel")
}

fn judge_response(
    http_ok: bool,
    status_line: &str,
    body: &str,
    answer_status: Result<String, String>,
    what: &str,
) -> (r: Result<(), ApiError>)
    ensures
        tells(
            r,
            response_verdict(
                http_ok,
                status_line@,
                body@,
                match answer_status {
                    Ok(s) => Ok(s@),
                    Err(e) => Err(e@),
                },
                what@,
            ),
        ),
{
    if !http_ok {
        let mut words = join(what, " failed with status ");
        words.append(status_line);
        words.append(": ");
        words.append(body);
        return Err(ApiError::OrderRejected(words));
    }
    match answer_status {
        Err(why) => Err(ApiError::ParseError(why)),
        Ok(status) => {
            if same_text(status.as_str(), "ok") {
                Ok(())
            } else {
                Err(ApiError::OrderRejected(join(what, " response status not ok")))
            }
        },
    }
}

pub struct TradingApi {
    pub config: ApiConfig,
    /// The orders on their way, each under its client order identity.
    pub pending_orders: IdMap<PendingOrder>,
    pub retry_queue: Vec<RetryRequest>,
    pub rate_limiter: RateLimiter,
    /// The client order identity that the next order gets.
    pub next_client_order_id: u64,
    /// The events that wait to be drained.
    pub events: Vec<ApiEvent>,
}

/// The place of the first pending order of an internal identity, from
/// place `from` on.
pub open spec fn pending_slot(orders: Seq<PendingOrder>, internal_id: u128, from: int) -> Option<
    int,
>
    decreases orders.len() - from,
{
    if from < 0 || from >= orders.len() {
        None
    } else if orders[from].internal_id == internal_id {
        Some(from)
    } else {
        pending_slot(orders, internal_id, from + 1)
    }
}

/// The client order identities of the pending orders of a symbol, or of
/// all pending orders, in their order.
pub open spec fn cancel_targets_of(orders: Seq<PendingOrder>, symbol: Option<Seq<char>>) -> Seq<
    u64,
>
    decreases orders.len(),
{
    if orders.len() == 0 {
        Seq::empty()
    } else {
        let rest = cancel_targets_of(orders.drop_last(), symbol);
        let chosen = match symbol {
            Some(s) => orders.last().symbol@ == s,
            None => true,
        };
        if chosen {
            rest.push(orders.last().client_order_id)
        } else {
            rest
        }
    }
}

impl TradingApi {
    /// What holds of a pipeline at all times: its rate limiter counts no
    /// more than a window takes.
    pub open spec fn wf(&self) -> bool {
        self.rate_limiter.wf()
    }

    /// A pipeline with nothing pending, its first window beginning at `now`.
    pub fn new_at(config: ApiConfig, now: i64) -> (r: Self)
        ensures
            r.wf(),
            r.config == config,
            r.pending_orders.spec_len() == 0,
            r.retry_queue@.len() == 0,
            r.rate_limiter == RateLimiter::new_at(RATE_LIMIT_PER_WINDOW, now),
            r.next_client_order_id == 1,
            r.events@.len() == 0,
    {
        TradingApi {
            config,
            pending_orders: IdMap::new(),
            retry_queue: Vec::new(),
            rate_limiter: RateLimiter::new_at(RATE_LIMIT_PER_WINDOW, now),
            next_client_order_id: 1,
            events: Vec::new(),
        }
    }

    /// A pipeline with nothing pending, its first window beginning now.
    pub fn new(config: ApiConfig) -> (r: Self)
        ensures
            r.wf(),
            r.config == config,
            r.pending_orders.spec_len() == 0,
            r.retry_queue@.len() == 0,
            r.next_client_order_id == 1,
            r.events@.len() == 0,
            exists|now: i64| r.rate_limiter == #[trigger] RateLimiter::fresh(RATE_LIMIT_PER_WINDOW, now),
    {
        Self::new_at(config, utc_now_millis())
    }

    /// The next client order identity: they count up from one, and begin
    /// anew after the last.
    pub fn generate_client_order_id(&mut self) -> (r: u64)
        ensures
            r == old(self).next_client_order_id,
            final(self).next_client_order_id == if r == u64::MAX {
                0
            } else {
                r + 1
            },
            final(self).config == old(self).config,
            final(self).pending_orders == old(self).pending_orders,
            final(self).retry_queue == old(self).retry_queue,
            final(self).rate_limiter == old(self).rate_limiter,
            final(self).events == old(self).events,
    {
        let id = self.next_client_order_id;
        self.next_client_order_id = if id == u64::MAX {
            0
        } else {
            id + 1
        };
        id
    }

    /// Asks the rate limiter to make a request at the time `now`.
    pub fn enforce_rate_limit(&mut self, now: i64) -> (r: RateDecision)
        ensures
            old(self).wf() ==> final(self).wf(),
            r == old(self).rate_limiter.decision(now),
            final(self).rate_limiter == old(self).rate_limiter.after_request(now),
            final(self).config == old(self).config,
            final(self).pending_orders == old(self).pending_orders,
            final(self).retry_queue == old(self).retry_queue,
            final(self).next_client_order_id == old(self).next_client_order_id,
            final(self).events == old(self).events,
    {
        self.rate_limiter.request(now)
    }

    /// Registers a new order as pending, under the internal identity given
    /// and the next client order identity, and hands out what is to be
    /// submitted.
    pub fn begin_place_with(&mut self, order: &NewOrder, internal_id: u128, now: i64) -> (r:
        PendingOrder)
        ensures
            r.internal_id == internal_id,
            r.client_order_id == old(self).next_client_order_id,
            r.symbol == order.symbol,
            r.side == order.side,
            r.order_type == order.order_type,
            r.price == order.price,
            r.size == order.size,
            r.created_at == now,
            r.retry_count == 0,
            final(self).pending_orders.is_insert_of(
                &old(self).pending_orders,
                r.client_order_id as u128,
                r,
            ),
            final(self).next_client_order_id == if r.client_order_id == u64::MAX {
                0
            } else {
                r.client_order_id + 1
            },
            final(self).config == old(self).config,
            final(self).retry_queue == old(self).retry_queue,
            final(self).rate_limiter == old(self).rate_limiter,
            final(self).events == old(self).events,
    {
        let client_order_id = self.generate_client_order_id();
        let pending = PendingOrder {
            internal_id,
            client_order_id,
            symbol: order.symbol.clone(),
            side: order.side,
            order_type: order.order_type,
            price: order.price,
            size: order.size,
            created_at: now,
            retry_count: 0,
        };
        self.pending_orders.insert(client_order_id as u128, pending.clone());
        pending
    }

    /// Registers a new order as pending under a fresh internal identity.
    pub fn begin_place(&mut self, order: &NewOrder) -> (r: PendingOrder)
        ensures
            r.client_order_id == old(self).next_client_order_id,
            r.symbol == order.symbol,
            r.side == order.side,
            r.order_type == order.order_type,
            r.price == order.price,
            r.size == order.size,
            r.retry_count == 0,
            final(self).pending_orders.is_insert_of(
                &old(self).pending_orders,
                r.client_order_id as u128,
                r,
            ),
            final(self).retry_queue == old(self).retry_queue,
            final(self).rate_limiter == old(self).rate_limiter,
            final(self).events == old(self).events,
            final(self).next_client_order_id == if r.client_order_id == u64::MAX {
                0
            } else {
                r.client_order_id + 1
            },
            final(self).config == old(self).config,
    {
        let internal_id = fresh_uuid();
        let now = utc_now_millis();
        self.begin_place_with(order, internal_id, now)
    }

    /// Takes the exchange's answer to the submission of a new order: an
    /// order that the exchange took stays pending and its internal
    /// identity is handed back; one that failed is pending no more, and
    /// the error is handed back. Nothing is tried again here.
    pub fn finish_place(&mut self, order: &PendingOrder, answer: Result<(), ApiError>) -> (r:
        Result<u128, ApiError>)
        ensures
            match answer {
                Ok(_) => r == Ok::<u128, ApiError>(order.internal_id) && final(self).pending_orders
                    == old(self).pending_orders,
                Err(e) => r == Err::<u128, ApiError>(e) && final(self).pending_orders.is_removal_of(
                    &old(self).pending_orders,
                    order.client_order_id as u128,
                ),
            },
            final(self).config == old(self).config,
            final(self).retry_queue == old(self).retry_queue,
            final(self).rate_limiter == old(self).rate_limiter,
            final(self).next_client_order_id == old(self).next_client_order_id,
            final(self).events == old(self).events,
    {
        match answer {
            Ok(_) => Ok(order.internal_id),
            Err(e) => {
                let _ = self.pending_orders.remove(order.client_order_id as u128);
                Err(e)
            },
        }
    }

    /// Puts a failed submission in the queue of those to be tried again,
    /// due after the retry delay.
    pub fn enqueue_retry(&mut self, order: PendingOrder, now: i64)
        ensures
            final(self).retry_queue@ == old(self).retry_queue@.push(
                RetryRequest { order, retry_after: time_after(now, old(self).config.retry_delay_ms) },
            ),
            final(self).config == old(self).config,
            final(self).pending_orders == old(self).pending_orders,
            final(self).rate_limiter == old(self).rate_limiter,
            final(self).next_client_order_id == old(self).next_client_order_id,
            final(self).events == old(self).events,
    {
        let retry_after = later(now, self.config.retry_delay_ms);
        self.retry_queue.push(RetryRequest { order, retry_after });
    }

    /// Takes out of the queue the submissions that are due at the time
    /// `now` and hands them out in their order; the others stay, in theirs.
    pub fn take_due_retries(&mut self, now: i64) -> (r: Vec<RetryRequest>)
        ensures
            r@ == due_requests(old(self).retry_queue@, now),
            final(self).retry_queue@ == waiting_requests(old(self).retry_queue@, now),
            final(self).config == old(self).config,
            final(self).pending_orders == old(self).pending_orders,
            final(self).rate_limiter == old(self).rate_limiter,
            final(self).next_client_order_id == old(self).next_client_order_id,
            final(self).events == old(self).events,
    {
        let mut queue: Vec<RetryRequest> = Vec::new();
        core::mem::swap(&mut queue, &mut self.retry_queue);
        let mut due: Vec<RetryRequest> = Vec::new();
        let mut waiting: Vec<RetryRequest> = Vec::new();
        let mut i: usize = 0;
        assert(queue@.take(0) =~= Seq::empty());
        while i < queue.len()
            invariant
                i <= queue.len(),
                due@ == due_requests(queue@.take(i as int), now),
                waiting@ == waiting_requests(queue@.take(i as int), now),
            decreases queue.len() - i,
        {
            assert(queue@.take(i + 1).drop_last() =~= queue@.take(i as int));
            assert(queue@.take(i + 1).last() == queue@[i as int]);
            let request = queue[i].clone();
            if now >= request.retry_after {
                due.push(request);
            } else {
                waiting.push(request);
            }
            i = i + 1;
        }
        assert(queue@.take(i as int) =~= queue@);
        self.retry_queue = waiting;
        due
    }

    /// Decides on a submission that is due: an order that has used up its
    /// tries is dropped, pending no more, and exactly one event tells of
    /// it; any other order is to be submitted again, with one more try
    /// counted, and no event is queued.
    pub fn next_retry_step(&mut self, request: &RetryRequest, now: i64) -> (r: RetryStep)
        ensures
            if tries_used_up(request.order, old(self).config.max_retries) {
                &&& r is Dropped
                &&& final(self).pending_orders.is_removal_of(
                    &old(self).pending_orders,
                    request.order.client_order_id as u128,
                )
                &&& final(self).events@.len() == old(self).events@.len() + 1
                &&& final(self).events@.drop_last() == old(self).events@
                &&& is_error_event(
                    final(self).events@.last(),
                    dropped_text(request.order.internal_id),
                    if now < 0 {
                        0
                    } else {
                        now as u64
                    },
                )
            } else {
                &&& r == RetryStep::Resubmit(tried_again(request.order))
                &&& final(self).pending_orders == old(self).pending_orders
                &&& final(self).events == old(self).events
                &&& tried_again(request.order).retry_count <= old(self).config.max_retries
            },
            final(self).config == old(self).config,
            final(self).retry_queue == old(self).retry_queue,
            final(self).rate_limiter == old(self).rate_limiter,
            final(self).next_client_order_id == old(self).next_client_order_id,
    {
        if request.order.retry_count >= self.config.max_retries {
            let _ = self.pending_orders.remove(request.order.client_order_id as u128);
            let words = join(
                "Max retries exceeded for order ",
                uuid_string(request.order.internal_id).as_str(),
            );
            let ghost before = self.events@;
            self.events.push(
                ApiEvent::Error {
                    error: words,
                    timestamp: if now < 0 {
                        0
                    } else {
                        now as u64
                    },
                },
            );
            assert(self.events@.drop_last() =~= before);
            RetryStep::Dropped
        } else {
            let order = &request.order;
            RetryStep::Resubmit(
                PendingOrder {
                    internal_id: order.internal_id,
                    client_order_id: order.client_order_id,
                    symbol: order.symbol.clone(),
                    side: order.side,
                    order_type: order.order_type,
                    price: order.price,
                    size: order.size,
                    created_at: order.created_at,
                    retry_count: order.retry_count + 1,
                },
            )
        }
    }

    /// Takes the exchange's answer to a submission that was made again: an
    /// order that the exchange took is pending with its new count of
    /// tries; one that failed goes back in the queue, due after the retry
    /// delay.
    pub fn finish_retry(&mut self, order: PendingOrder, accepted: bool, now: i64)
        ensures
            accepted ==> final(self).pending_orders.is_insert_of(
                &old(self).pending_orders,
                order.client_order_id as u128,
                order,
            ) && final(self).retry_queue == old(self).retry_queue,
            !accepted ==> final(self).pending_orders == old(self).pending_orders
                && final(self).retry_queue@ == old(self).retry_queue@.push(
                RetryRequest { order, retry_after: time_after(now, old(self).config.retry_delay_ms) },
            ),
            final(self).config == old(self).config,
            final(self).rate_limiter == old(self).rate_limiter,
            final(self).next_client_order_id == old(self).next_client_order_id,
            final(self).events == old(self).events,
    {
        if accepted {
            self.pending_orders.insert(order.client_order_id as u128, order);
        } else {
            self.enqueue_retry(order, now);
        }
    }

    /// The client order identity of the pending order of an internal
    /// identity; the error of an invalid order where none is pending.
    pub fn client_order_id_of(&self, internal_id: u128) -> (r: Result<u64, ApiError>)
        ensures
            match pending_slot(self.pending_orders.values_view(), internal_id, 0) {
                Some(k) => r == Ok::<u64, ApiError>(
                    self.pending_orders.values_view()[k].client_order_id,
                ),
                None => r matches Err(ApiError::InvalidOrder(m)) && m@ == "Order not found"@,
            },
    {
        match self.find_pending(internal_id) {
            Some(k) => Ok(self.pending_orders.value_at(k).client_order_id),
            None => Err(ApiError::InvalidOrder("Order not found".to_string())),
        }
    }

    fn find_pending(&self, internal_id: u128) -> (r: Option<usize>)
        ensures
            match r {
                Some(k) => pending_slot(self.pending_orders.values_view(), internal_id, 0) == Some(
                    k as int,
                ) && k < self.pending_orders.spec_len(),
                None => pending_slot(self.pending_orders.values_view(), internal_id, 0) is None,
            },
    {
        let n = self.pending_orders.len();
        let mut i: usize = 0;
        while i < n
            invariant
                i <= n,
                n == self.pending_orders.spec_len(),
                self.pending_orders.wf(),
                pending_slot(self.pending_orders.values_view(), internal_id, 0) == pending_slot(
                    self.pending_orders.values_view(),
                    internal_id,
                    i as int,
                ),
            decreases n - i,
        {
            if self.pending_orders.value_at(i).internal_id == internal_id {
                return Some(i);
            }
            i = i + 1;
        }
        None
    }

    /// Takes the exchange's answer to the cancelling of an order: an order
    /// that was cancelled is pending no more.
    pub fn finish_cancel(&mut self, client_order_id: u64, answer: Result<(), ApiError>) -> (r:
        Result<(), ApiError>)
        ensures
            r == answer,
            match answer {
                Ok(_) => final(self).pending_orders.is_removal_of(
                    &old(self).pending_orders,
                    client_order_id as u128,
                ),
                Err(_) => final(self).pending_orders == old(self).pending_orders,
            },
            final(self).config == old(self).config,
            final(self).retry_queue == old(self).retry_queue,
            final(self).rate_limiter == old(self).rate_limiter,
            final(self).next_client_order_id == old(self).next_client_order_id,
            final(self).events == old(self).events,
    {
        if answer.is_ok() {
            let _ = self.pending_orders.remove(client_order_id as u128);
        }
        answer
    }

    /// The client order identities to cancel when all orders are
    /// cancelled, or all of one symbol.
    pub fn cancel_targets(&self, symbol: Option<&str>) -> (r: Vec<u64>)
        ensures
            r@ == cancel_targets_of(
                self.pending_orders.values_view(),
                match symbol {
                    Some(s) => Some(s@),
                    None => None,
                },
            ),
    {
        let ghost wanted: Option<Seq<char>> = match symbol {
            Some(s) => Some(s@),
            None => None,
        };
        let ghost orders = self.pending_orders.values_view();
        let n = self.pending_orders.len();
        let mut out: Vec<u64> = Vec::new();
        let mut i: usize = 0;
        assert(orders.take(0) =~= Seq::empty());
        while i < n
            invariant
                i <= n,
                n == self.pending_orders.spec_len(),
                self.pending_orders.wf(),
                orders == self.pending_orders.values_view(),
                wanted == match symbol {
                    Some(s) => Some(s@),
                    None => None,
                },
                out@ == cancel_targets_of(orders.take(i as int), wanted),
            decreases n - i,
        {
            assert(orders.take(i + 1).drop_last() =~= orders.take(i as int));
            assert(orders.take(i + 1).last() == orders[i as int]);
            let order = self.pending_orders.value_at(i);
            let chosen = match symbol {
                Some(s) => same_text(order.symbol.as_str(), s),
                None => true,
            };
            if chosen {
                out.push(order.client_order_id);
            }
            i = i + 1;
        }
        assert(orders.take(i as int) =~= orders);
        out
    }

    /// The orders that are pending, in the order in which they were registered.
    pub fn get_pending_orders(&self) -> (r: Vec<PendingOrder>)
        ensures
            r@ == self.pending_orders.values_view(),
    {
        let n = self.pending_orders.len();
        let mut out: Vec<PendingOrder> = Vec::new();
        let mut i: usize = 0;
        while i < n
            invariant
                i <= n,
                n == self.pending_orders.spec_len(),
                self.pending_orders.wf(),
                out@ == self.pending_orders.values_view().take(i as int),
            decreases n - i,
        {
            out.push(self.pending_orders.value_at(i).clone());
            assert(out@ =~= self.pending_orders.values_view().take(i + 1));
            i = i + 1;
        }
        assert(self.pending_orders.values_view().take(n as int)
            =~= self.pending_orders.values_view());
        out
    }

    /// The pending order of an internal identity, the first registered where several have it.
    pub fn get_pending_order(&self, internal_id: u128) -> (r: Option<PendingOrder>)
        ensures
            r == match pending_slot(self.pending_orders.values_view(), internal_id, 0) {
                Some(k) => Some(self.pending_orders.values_view()[k]),
                None => None,
            },
    {
        match self.find_pending(internal_id) {
            Some(k) => Some(self.pending_orders.value_at(k).clone()),
            None => None,
        }
    }

    /// Hands out the events that wait, oldest first, and forgets them.
    pub fn drain_events(&mut self) -> (r: Vec<ApiEvent>)
        ensures
            r@ == old(self).events@,
            final(self).events@ == Seq::<ApiEvent>::empty(),
            final(self).config == old(self).config,
            final(self).pending_orders == old(self).pending_orders,
            final(self).retry_queue == old(self).retry_queue,
            final(self).rate_limiter == old(self).rate_limiter,
            final(self).next_client_order_id == old(self).next_client_order_id,
    {
        let mut out: Vec<ApiEvent> = Vec::new();
        core::mem::swap(&mut out, &mut self.events);
        out
    }
}

fn later(now: i64, delay: u64) -> (r: i64)
    ensures
        r == time_after(now, delay),
{
    let sum = (now as i128) + (delay as i128);
    if sum <= i64::MAX as i128 {
        sum as i64
    } else {
        i64::MAX
    }
}

} // verus!
