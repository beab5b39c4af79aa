//! The event bus: three bounded lanes, one for each level of urgency, in
//! which published events wait for the dispatch workers, and the register
//! of who listens to which topic. A full lane drops what is published to
//! it; publishing never waits.

use crate::datastructures::symbol_map::{same_text, SymbolMap};
use crate::events::types::{EventPriority, SystemEvent};
use crate::utils::text::{join, starts_with};
use std::collections::VecDeque;
use vstd::prelude::*;
use vstd::string::StringExecFns;

verus! {

#[derive(Debug, Clone, Copy)]
pub struct EventBusConfig {
    pub high_priority_buffer_size: usize,
    pub normal_priority_buffer_size: usize,
    pub market_data_buffer_size: usize,
    pub max_subscribers_per_topic: usize,
    pub enable_metrics: bool,
    pub batch_size: usize,
    pub batch_timeout_ms: u64,
}

impl Default for EventBusConfig {
    fn default() -> (r: Self)
        ensures
            r.high_priority_buffer_size == 1000,
            r.normal_priority_buffer_size == 10000,
            r.market_data_buffer_size == 100000,
            r.max_subscribers_per_topic == 100,
            r.enable_metrics,
            r.batch_size == 100,
            r.batch_timeout_ms == 10,
    {
        EventBusConfig {
            high_priority_buffer_size: 1000,
            normal_priority_buffer_size: 10000,
            market_data_buffer_size: 100000,
            max_subscribers_per_topic: 100,
            enable_metrics: true,
            batch_size: 100,
            batch_timeout_ms: 10,
        }
    }
}

#[derive(Debug, Clone, Copy)]
pub struct EventBusMetrics {
    pub events_processed: u64,
    pub events_dropped: u64,
    pub subscriber_count: usize,
    pub high_priority_queue_len: usize,
    pub normal_priority_queue_len: usize,
    pub low_priority_queue_len: usize,
}

/// The topic of an event in full: its kind, and behind a dot the symbol,
/// strategy or connection that it is about, where it is about one.
pub open spec fn full_topic(event: SystemEvent) -> Seq<char> {
    match event {
        SystemEvent::MarketData { symbol, .. } => "market_data."@ + symbol@,
        SystemEvent::Order(_) => "orders"@,
        SystemEvent::Position(_) => "positions"@,
        SystemEvent::Strategy { strategy_name, .. } => "strategy."@ + strategy_name@,
        SystemEvent::Connection { connection_id, .. } => "connection."@ + connection_id@,
        SystemEvent::Risk { symbol, .. } => "risk."@ + symbol@,
        SystemEvent::System { .. } => "system"@,
    }
}

/// The kind of an event as a topic; for an event that is about nothing in
/// particular this is its topic in full.
pub open spec fn kind_topic(event: SystemEvent) -> Seq<char> {
    match event {
        SystemEvent::MarketData { .. } => "market_data"@,
        SystemEvent::Order(_) => "orders"@,
        SystemEvent::Position(_) => "positions"@,
        SystemEvent::Strategy { .. } => "strategy"@,
        SystemEvent::Connection { .. } => "connection"@,
        SystemEvent::Risk { .. } => "risk"@,
        SystemEvent::System { .. } => "system"@,
    }
}

/// Whether an event is about a symbol, a strategy or a connection.
pub open spec fn has_subject(event: SystemEvent) -> bool {
    !(event is Order || event is Position || event is System)
}

/// The topics under which an event is delivered: the topic of everything,
/// the event's kind, and its topic in full where that says more.
pub open spec fn event_topics(event: SystemEvent) -> Seq<Seq<char>> {
    if has_subject(event) {
        seq!["*"@, kind_topic(event), full_topic(event)]
    } else {
        seq!["*"@, kind_topic(event)]
    }
}

fn topic_in_full(event: &SystemEvent) -> (r: String)
    ensures
        r@ == full_topic(*event),
{
    match event {
        SystemEvent::MarketData { symbol, .. } => join("market_data.", symbol.as_str()),
        SystemEvent::Order(_) => "orders".to_string(),
        SystemEvent::Position(_) => "positions".to_string(),
        SystemEvent::Strategy { strategy_name, .. } => join("strategy.", strategy_name.as_str()),
        SystemEvent::Connection { connection_id, .. } => join(
            "connection.",
            connection_id.as_str(),
        ),
        SystemEvent::Risk { symbol, .. } => join("risk.", symbol.as_str()),
        SystemEvent::System { .. } => "system".to_string(),
    }
}

fn topic_of_kind(event: &SystemEvent) -> (r: String)
    ensures
        r@ == kind_topic(*event),
{
    match event {
        SystemEvent::MarketData { .. } => "market_data".to_string(),
        SystemEvent::Order(_) => "orders".to_string(),
        SystemEvent::Position(_) => "positions".to_string(),
        SystemEvent::Strategy { .. } => "strategy".to_string(),
        SystemEvent::Connection { .. } => "connection".to_string(),
        SystemEvent::Risk { .. } => "risk".to_string(),
        SystemEvent::System { .. } => "system".to_string(),
    }
}

/// Something that lets events pass or holds them back.
pub trait EventFilter {
    fn should_process(&self, event: &SystemEvent) -> bool;

    fn name(&self) -> &str;
}

/// A filter that lets pass the events of the topics it is given, and of
/// the topics below them.
#[derive(Debug, Clone)]
pub struct TopicFilter {
    pub name: String,
    pub allowed_topics: Vec<String>,
}

/// Whether a topic that is allowed covers a topic: it is the topic of
/// everything, or the topic begins with it.
pub open spec fn covers(allowed: Seq<char>, topic: Seq<char>) -> bool {
    allowed == "*"@ || allowed.is_prefix_of(topic)
}

impl TopicFilter {
    /// Whether the filter lets an event pass: one of its topics covers the
    /// event's topic.
    pub open spec fn allows(&self, event: SystemEvent) -> bool {
        exists|i: int|
            0 <= i < self.allowed_topics@.len() && covers(
                (#[trigger] self.allowed_topics@[i])@,
                full_topic(event),
            )
    }

    /// Whether the filter lets an event pass.
    pub fn lets_pass(&self, event: &SystemEvent) -> (r: bool)
        ensures
            r == self.allows(*event),
    {
        let topic = topic_in_full(event);
        let mut i: usize = 0;
        while i < self.allowed_topics.len()
            invariant
                i <= self.allowed_topics.len(),
                topic@ == full_topic(*event),
                forall|j: int|
                    0 <= j < i ==> !covers((#[trigger] self.allowed_topics@[j])@, full_topic(*event)),
            decreases self.allowed_topics.len() - i,
        {
            let allowed = self.allowed_topics[i].as_str();
            if same_text(allowed, "*") || starts_with(topic.as_str(), allowed) {
                return true;
            }
            i = i + 1;
        }
        false
    }
}

impl EventFilter for TopicFilter {
    fn should_process(&self, event: &SystemEvent) -> (r: bool)
        ensures
            r == self.allows(*event),
    {
        self.lets_pass(event)
    }

    fn name(&self) -> (r: &str)
        ensures
            r@ == self.name@,
    {
        self.name.as_str()
    }
}

/// Whether every filter lets an event pass.
pub open spec fn passes(filters: Seq<TopicFilter>, event: SystemEvent) -> bool {
    forall|i: int| 0 <= i < filters.len() ==> (#[trigger] filters[i]).allows(event)
}

/// A bounded lane: events wait in it in the order in which they came, and
/// it never holds more than its capacity.
pub struct Lane {
    queue: VecDeque<SystemEvent>,
    capacity: usize,
}

impl Lane {
    #[verifier::type_invariant]
    spec fn bounded(&self) -> bool {
        self.queue@.len() <= self.capacity
    }

    /// The events that wait, the oldest first.
    pub closed spec fn view(&self) -> Seq<SystemEvent> {
        self.queue@
    }

    pub closed spec fn spec_capacity(&self) -> nat {
        self.capacity as nat
    }

    /// A lane with room for `capacity` events, none waiting.
    pub fn new(capacity: usize) -> (r: Self)
        ensures
            r.view() == Seq::<SystemEvent>::empty(),
            r.spec_capacity() == capacity,
    {
        Lane { queue: VecDeque::new(), capacity }
    }

    /// How many events wait in the lane.
    pub fn len(&self) -> (r: usize)
        ensures
            r == self.view().len(),
            r <= self.spec_capacity(),
    {
        proof {
            use_type_invariant(self);
        }
        self.queue.len()
    }

    /// How many events the lane has room for.
    pub fn capacity(&self) -> (r: usize)
        ensures
            r == self.spec_capacity(),
    {
        self.capacity
    }

    /// Puts an event at the end of the lane, where the lane has room;
    /// hands it back where the lane is full.
    pub fn try_send(&mut self, event: SystemEvent) -> (r: Result<(), SystemEvent>)
        ensures
            final(self).spec_capacity() == old(self).spec_capacity(),
            old(self).view().len() < old(self).spec_capacity() ==> r is Ok && final(self).view()
                == old(self).view().push(event),
            old(self).view().len() >= old(self).spec_capacity() ==> r == Err::<(), SystemEvent>(
                event,
            ) && final(self).view() == old(self).view(),
    {
        proof {
            use_type_invariant(&*self);
        }
        if self.queue.len() < self.capacity {
            let mut queue: VecDeque<SystemEvent> = VecDeque::new();
            core::mem::swap(&mut queue, &mut self.queue);
            queue.push_back(event);
            self.queue = queue;
            Ok(())
        } else {
            Err(event)
        }
    }

    /// Takes the oldest event out of the lane.
    pub fn try_recv(&mut self) -> (r: Option<SystemEvent>)
        ensures
            final(self).spec_capacity() == old(self).spec_capacity(),
            old(self).view().len() == 0 ==> r is None && final(self).view() == old(self).view(),
            old(self).view().len() > 0 ==> r == Some(old(self).view()[0]) && final(self).view()
                == old(self).view().drop_first(),
    {
        proof {
            use_type_invariant(&*self);
        }
        let mut queue: VecDeque<SystemEvent> = VecDeque::new();
        core::mem::swap(&mut queue, &mut self.queue);
        let out = queue.pop_front();
        assert(out is Some ==> queue@ =~= old(self).queue@.drop_first());
        self.queue = queue;
        out
    }
}

/// The lane that events of a priority wait in.
#[derive(Debug, Clone, Copy, PartialEq, Eq, Structural)]
pub enum LaneKind {
    /// Critical and high events.
    High,
    /// Normal events.
    Normal,
    /// Low events: market data.
    Low,
}

pub open spec fn spec_lane_of(priority: EventPriority) -> LaneKind {
    match priority {
        EventPriority::Critical | EventPriority::High => LaneKind::High,
        EventPriority::Normal => LaneKind::Normal,
        EventPriority::Low => LaneKind::Low,
    }
}

/// The lane that events of a priority go to.
#[verifier::when_used_as_spec(spec_lane_of)]
pub fn lane_of(priority: EventPriority) -> (r: LaneKind)
    ensures
        r == spec_lane_of(priority),
{
    match priority {
        EventPriority::Critical | EventPriority::High => LaneKind::High,
        EventPriority::Normal => LaneKind::Normal,
        EventPriority::Low => LaneKind::Low,
    }
}

/// A counter one higher, unless it is at its largest.
pub open spec fn counted(n: u64) -> u64 {
    if n < u64::MAX {
        (n + 1) as u64
    } else {
        n
    }
}

/// The words of the error of a full lane.
pub open spec fn channel_full_text() -> Seq<char> {
    "Event bus channel full"@
}

pub struct EventBus {
    pub high: Lane,
    pub normal: Lane,
    pub low: Lane,
    /// Who listens to which topic: under each topic the identities of its
    /// listeners, in the order in which they came.
    pub subscribers: SymbolMap<Vec<u64>>,
    pub filters: Vec<TopicFilter>,
    pub events_processed: u64,
    pub events_dropped: u64,
    pub config: EventBusConfig,
    /// The identity that the next listener gets.
    pub next_subscriber: u64,
}

/// What a bus holds that publishing can change.
pub struct BusState {
    pub high: Seq<SystemEvent>,
    pub normal: Seq<SystemEvent>,
    pub low: Seq<SystemEvent>,
    pub events_processed: u64,
    pub events_dropped: u64,
}

/// What a bus holds that publishing cannot change.
pub struct BusSetup {
    pub high_capacity: nat,
    pub normal_capacity: nat,
    pub low_capacity: nat,
    pub filters: Seq<TopicFilter>,
    pub enable_metrics: bool,
}

pub open spec fn lane_events(state: BusState, kind: LaneKind) -> Seq<SystemEvent> {
    match kind {
        LaneKind::High => state.high,
        LaneKind::Normal => state.normal,
        LaneKind::Low => state.low,
    }
}

pub open spec fn lane_capacity(setup: BusSetup, kind: LaneKind) -> nat {
    match kind {
        LaneKind::High => setup.high_capacity,
        LaneKind::Normal => setup.normal_capacity,
        LaneKind::Low => setup.low_capacity,
    }
}

pub open spec fn with_lane(state: BusState, kind: LaneKind, events: Seq<SystemEvent>) -> BusState {
    match kind {
        LaneKind::High => BusState { high: events, ..state },
        LaneKind::Normal => BusState { normal: events, ..state },
        LaneKind::Low => BusState { low: events, ..state },
    }
}

/// Whether a published event is taken into its lane: the filters let it
/// pass and the lane has room.
pub open spec fn is_taken(setup: BusSetup, state: BusState, event: SystemEvent) -> bool {
    passes(setup.filters, event) && lane_events(state, spec_lane_of(event.spec_priority())).len()
        < lane_capacity(setup, spec_lane_of(event.spec_priority()))
}

/// The bus after an event was published: an event that a filter holds
/// back changes nothing; one that finds room goes to the end of its lane
/// and is counted as processed; one that finds its lane full is dropped
/// and counted as dropped, whatever the settings say. Where metrics are
/// off, events are not counted as processed.
pub open spec fn after_publish(setup: BusSetup, state: BusState, event: SystemEvent) -> BusState {
    let kind = spec_lane_of(event.spec_priority());
    if !passes(setup.filters, event) {
        state
    } else if lane_events(state, kind).len() < lane_capacity(setup, kind) {
        let taken = with_lane(state, kind, lane_events(state, kind).push(event));
        if setup.enable_metrics {
            BusState { events_processed: counted(state.events_processed), ..taken }
        } else {
            taken
        }
    } else {
        BusState { events_dropped: counted(state.events_dropped), ..state }
    }
}

/// The bus after a list of events was published, one after the other.
pub open spec fn after_publish_all(setup: BusSetup, state: BusState, events: Seq<SystemEvent>) -> BusState
    decreases events.len(),
{
    if events.len() == 0 {
        state
    } else {
        after_publish(setup, after_publish_all(setup, state, events.drop_last()), events.last())
    }
}

/// The law of the bounded lane: of a list of events for one lane that the
/// filters let pass, as many are taken as the lane has room for, in their
/// order, and every other one is dropped and counted, no more and no less.
pub proof fn lemma_overflow_is_dropped(
    setup: BusSetup,
    state: BusState,
    events: Seq<SystemEvent>,
    kind: LaneKind,
)
    requires
        forall|i: int|
            0 <= i < events.len() ==> passes(setup.filters, #[trigger] events[i]) && spec_lane_of(
                events[i].spec_priority(),
            ) == kind,
        lane_events(state, kind).len() <= lane_capacity(setup, kind),
        state.events_dropped + events.len() <= u64::MAX,
        state.events_processed + events.len() <= u64::MAX,
    ensures
        ({
            let room = lane_capacity(setup, kind) - lane_events(state, kind).len();
            let taken = if events.len() <= room {
                events.len() as int
            } else {
                room
            };
            let after = after_publish_all(setup, state, events);
            &&& lane_events(after, kind) == lane_events(state, kind) + events.take(taken)
            &&& after.events_dropped == state.events_dropped + (events.len() - taken)
            &&& after.events_processed == if setup.enable_metrics {
                state.events_processed + taken
            } else {
                state.events_processed as int
            }
            &&& forall|other: LaneKind|
                other != kind ==> lane_events(after, other) == lane_events(state, other)
        }),
    decreases events.len(),
{
    let room = lane_capacity(setup, kind) - lane_events(state, kind).len();
    if events.len() == 0 {
        assert(events.take(0) =~= Seq::empty());
        assert(lane_events(state, kind) + events.take(0) =~= lane_events(state, kind));
    } else {
        let head = events.drop_last();
        lemma_overflow_is_dropped(setup, state, head, kind);
        let before = after_publish_all(setup, state, head);
        let taken_before = if head.len() <= room {
            head.len() as int
        } else {
            room
        };
        let taken = if events.len() <= room {
            events.len() as int
        } else {
            room
        };
        let after = after_publish(setup, before, events.last());
        assert(head.take(taken_before) =~= events.take(taken_before));
        if events.len() <= room {
            assert(events.take(taken) =~= head.take(taken_before).push(events.last()));
            assert(lane_events(after, kind) =~= lane_events(state, kind) + events.take(taken));
        } else {
            assert(taken == taken_before);
        }
    }
}

/// The listeners of the first `n` of a list of topics, topic by topic.
pub open spec fn listeners_of(
    subscribers: SymbolMap<Vec<u64>>,
    topics: Seq<Seq<char>>,
    n: int,
) -> Seq<u64>
    decreases n,
{
    if n <= 0 {
        Seq::empty()
    } else {
        listeners_of(subscribers, topics, n - 1) + match subscribers.value_of(topics[n - 1]) {
            Some(ids) => ids@,
            None => Seq::empty(),
        }
    }
}

impl EventBus {
    pub open spec fn state(&self) -> BusState {
        BusState {
            high: self.high.view(),
            normal: self.normal.view(),
            low: self.low.view(),
            events_processed: self.events_processed,
            events_dropped: self.events_dropped,
        }
    }

    pub open spec fn setup(&self) -> BusSetup {
        BusSetup {
            high_capacity: self.high.spec_capacity(),
            normal_capacity: self.normal.spec_capacity(),
            low_capacity: self.low.spec_capacity(),
            filters: self.filters@,
            enable_metrics: self.config.enable_metrics,
        }
    }

    /// A bus with empty lanes, no listeners and no filters.
    pub fn new(config: EventBusConfig) -> (r: Self)
        ensures
            r.config == config,
            r.state() == (BusState {
                high: Seq::empty(),
                normal: Seq::empty(),
                low: Seq::empty(),
                events_processed: 0,
                events_dropped: 0,
            }),
            r.setup() == (BusSetup {
                high_capacity: config.high_priority_buffer_size as nat,
                normal_capacity: config.normal_priority_buffer_size as nat,
                low_capacity: config.market_data_buffer_size as nat,
                filters: Seq::empty(),
                enable_metrics: config.enable_metrics,
            }),
            r.subscribers.spec_len() == 0,
    {
        EventBus {
            high: Lane::new(config.high_priority_buffer_size),
            normal: Lane::new(config.normal_priority_buffer_size),
            low: Lane::new(config.market_data_buffer_size),
            subscribers: SymbolMap::new(),
            filters: Vec::new(),
            events_processed: 0,
            events_dropped: 0,
            config,
            next_subscriber: 0,
        }
    }

    fn passes_filters(&self, event: &SystemEvent) -> (r: bool)
        ensures
            r == passes(self.filters@, *event),
    {
        let mut i: usize = 0;
        while i < self.filters.len()
            invariant
                i <= self.filters.len(),
                forall|j: int| 0 <= j < i ==> (#[trigger] self.filters@[j]).allows(*event),
            decreases self.filters.len() - i,
        {
            if !self.filters[i].lets_pass(event) {
                return false;
            }
            i = i + 1;
        }
        true
    }

    /// Publishes an event: it goes to the end of the lane of its
    /// priority, unless a filter holds it back, which is no error, or the
    /// lane is full, which is one. Never waits.
    pub fn publish(&mut self, event: SystemEvent) -> (r: Result<(), String>)
        ensures
            final(self).state() == after_publish(old(self).setup(), old(self).state(), event),
            final(self).setup() == old(self).setup(),
            final(self).subscribers == old(self).subscribers,
            final(self).config == old(self).config,
            final(self).next_subscriber == old(self).next_subscriber,
            match r {
                Ok(_) => !passes(old(self).filters@, event) || is_taken(
                    old(self).setup(),
                    old(self).state(),
                    event,
                ),
                Err(text) => passes(old(self).filters@, event) && !is_taken(
                    old(self).setup(),
                    old(self).state(),
                    event,
                ) && text@ == channel_full_text(),
            },
    {
        if !self.passes_filters(&event) {
            return Ok(());
        }
        let sent = match lane_of(event.priority()) {
            LaneKind::High => self.high.try_send(event),
            LaneKind::Normal => self.normal.try_send(event),
            LaneKind::Low => self.low.try_send(event),
        };
        match sent {
            Ok(_) => {
                if self.config.enable_metrics && self.events_processed < u64::MAX {
                    self.events_processed = self.events_processed + 1;
                }
                Ok(())
            },
            Err(_) => {
                if self.events_dropped < u64::MAX {
                    self.events_dropped = self.events_dropped + 1;
                }
                Err("Event bus channel full".to_string())
            },
        }
    }

    /// Registers a new listener under a topic and hands out its identity;
    /// `None` where the topic has as many listeners as a topic may have.
    pub fn subscribe(&mut self, topic: &str) -> (r: Option<u64>)
        ensures
            ({
                let held: Seq<u64> = match old(self).subscribers.value_of(topic@) {
                    Some(ids) => ids@,
                    None => Seq::empty(),
                };
                if held.len() < old(self).config.max_subscribers_per_topic {
                    &&& r == Some(old(self).next_subscriber)
                    &&& final(self).subscribers.value_of(topic@) matches Some(ids) && ids@
                        == held.push(old(self).next_subscriber)
                    &&& final(self).next_subscriber == counted(old(self).next_subscriber)
                } else {
                    &&& r is None
                    &&& final(self).subscribers == old(self).subscribers
                    &&& final(self).next_subscriber == old(self).next_subscriber
                }
            }),
            forall|other: Seq<char>|
                other != topic@ ==> #[trigger] final(self).subscribers.value_of(other) == old(
                    self,
                ).subscribers.value_of(other),
            final(self).state() == old(self).state(),
            final(self).setup() == old(self).setup(),
            final(self).config == old(self).config,
    {
        let mut ids: Vec<u64> = Vec::new();
        match self.subscribers.get(topic) {
            Some(held) => {
                let mut i: usize = 0;
                while i < held.len()
                    invariant
                        i <= held.len(),
                        ids@ == held@.take(i as int),
                    decreases held.len() - i,
                {
                    ids.push(held[i]);
                    assert(ids@ =~= held@.take(i + 1));
                    i = i + 1;
                }
                assert(held@.take(i as int) =~= held@);
            },
            None => {},
        }
        if ids.len() >= self.config.max_subscribers_per_topic {
            return None;
        }
        let id = self.next_subscriber;
        ids.push(id);
        self.subscribers.insert(String::from_str(topic), ids);
        if self.next_subscriber < u64::MAX {
            self.next_subscriber = self.next_subscriber + 1;
        }
        Some(id)
    }

    /// Adds a filter behind those that the bus has.
    pub fn add_filter(&mut self, filter: TopicFilter)
        ensures
            final(self).filters@ == old(self).filters@.push(filter),
            final(self).state() == old(self).state(),
            final(self).subscribers == old(self).subscribers,
            final(self).config == old(self).config,
            final(self).next_subscriber == old(self).next_subscriber,
            final(self).high.spec_capacity() == old(self).high.spec_capacity(),
            final(self).normal.spec_capacity() == old(self).normal.spec_capacity(),
            final(self).low.spec_capacity() == old(self).low.spec_capacity(),
    {
        self.filters.push(filter);
    }

    /// Takes up to `max` events out of a lane for dispatch, the oldest
    /// first, and counts them as processed.
    pub fn next_batch(&mut self, kind: LaneKind, max: usize) -> (r: Vec<SystemEvent>)
        ensures
            ({
                let waiting = lane_events(old(self).state(), kind);
                let n = if max <= waiting.len() {
                    max as int
                } else {
                    waiting.len() as int
                };
                &&& r@ == waiting.take(n)
                &&& lane_events(final(self).state(), kind) == waiting.skip(n)
                &&& final(self).events_processed == if old(self).events_processed + n <= u64::MAX {
                    (old(self).events_processed + n) as u64
                } else {
                    u64::MAX
                }
            }),
            forall|other: LaneKind|
                other != kind ==> lane_events(final(self).state(), other) == lane_events(
                    old(self).state(),
                    other,
                ),
            final(self).events_dropped == old(self).events_dropped,
            final(self).setup() == old(self).setup(),
            final(self).subscribers == old(self).subscribers,
            final(self).config == old(self).config,
            final(self).next_subscriber == old(self).next_subscriber,
    {
        let ghost waiting = lane_events(self.state(), kind);
        let mut batch: Vec<SystemEvent> = Vec::new();
        assert(batch@ =~= waiting.take(0));
        assert(waiting.skip(0) =~= waiting);
        loop
            invariant
                batch@.len() <= max,
                batch@.len() <= waiting.len(),
                batch@ == waiting.take(batch@.len() as int),
                lane_events(self.state(), kind) == waiting.skip(batch@.len() as int),
                forall|other: LaneKind|
                    other != kind ==> lane_events(self.state(), other) == lane_events(
                        old(self).state(),
                        other,
                    ),
                self.events_processed == old(self).events_processed,
                self.events_dropped == old(self).events_dropped,
                self.setup() == old(self).setup(),
                self.subscribers == old(self).subscribers,
                self.config == old(self).config,
                self.next_subscriber == old(self).next_subscriber,
            ensures
                batch@.len() == if max <= waiting.len() {
                    max as int
                } else {
                    waiting.len() as int
                },
            decreases max - batch@.len(),
        {
            if batch.len() >= max {
                break ;
            }
            let next = match kind {
                LaneKind::High => self.high.try_recv(),
                LaneKind::Normal => self.normal.try_recv(),
                LaneKind::Low => self.low.try_recv(),
            };
            match next {
                Some(event) => {
                    let ghost k = batch@.len() as int;
                    batch.push(event);
                    assert(waiting.skip(k)[0] == waiting[k]);
                    assert(batch@ =~= waiting.take(k + 1));
                    assert(waiting.skip(k).drop_first() =~= waiting.skip(k + 1));
                },
                None => {
                    break ;
                },
            }
        }
        let n = batch.len() as u64;
        self.events_processed = if self.events_processed <= u64::MAX - n {
            self.events_processed + n
        } else {
            u64::MAX
        };
        batch
    }

    /// The topics under which an event is delivered.
    pub fn get_event_topics(event: &SystemEvent) -> (r: Vec<String>)
        ensures
            r@.len() == event_topics(*event).len(),
            forall|i: int| 0 <= i < r@.len() ==> (#[trigger] r@[i])@ == event_topics(*event)[i],
    {
        let mut topics: Vec<String> = Vec::new();
        topics.push("*".to_string());
        topics.push(topic_of_kind(event));
        let about_something = match event {
            SystemEvent::Order(_) | SystemEvent::Position(_) | SystemEvent::System { .. } => false,
            _ => true,
        };
        if about_something {
            topics.push(topic_in_full(event));
        }
        topics
    }

    /// The listeners that an event is delivered to: those of the topic of
    /// everything, then those of the event's kind, then those of its topic
    /// in full. A listener of several of these gets the event once for each.
    pub fn recipients(&self, event: &SystemEvent) -> (r: Vec<u64>)
        ensures
            r@ == listeners_of(
                self.subscribers,
                event_topics(*event),
                event_topics(*event).len() as int,
            ),
    {
        let topics = Self::get_event_topics(event);
        let ghost wanted = event_topics(*event);
        let mut out: Vec<u64> = Vec::new();
        let mut i: usize = 0;
        while i < topics.len()
            invariant
                i <= topics.len(),
                topics@.len() == wanted.len(),
                forall|k: int| 0 <= k < topics@.len() ==> (#[trigger] topics@[k])@ == wanted[k],
                out@ == listeners_of(self.subscribers, wanted, i as int),
            decreases topics.len() - i,
        {
            match self.subscribers.get(topics[i].as_str()) {
                Some(ids) => {
                    let ghost before = out@;
                    let mut j: usize = 0;
                    while j < ids.len()
                        invariant
                            j <= ids.len(),
                            out@ == before + ids@.take(j as int),
                        decreases ids.len() - j,
                    {
                        out.push(ids[j]);
                        assert(out@ =~= before + ids@.take(j + 1));
                        j = j + 1;
                    }
                    assert(ids@.take(j as int) =~= ids@);
                },
                None => {
                    assert(out@ =~= out@ + Seq::<u64>::empty());
                },
            }
            i = i + 1;
        }
        out
    }

    /// The counts of the bus as they stand.
    pub fn get_metrics(&self) -> (r: EventBusMetrics)
        ensures
            r.events_processed == self.events_processed,
            r.events_dropped == self.events_dropped,
            r.subscriber_count == self.subscribers.spec_len(),
            r.high_priority_queue_len == self.high.view().len(),
            r.normal_priority_queue_len == self.normal.view().len(),
            r.low_priority_queue_len == self.low.view().len(),
    {
        EventBusMetrics {
            events_processed: self.events_processed,
            events_dropped: self.events_dropped,
            subscriber_count: self.subscribers.len(),
            high_priority_queue_len: self.high.len(),
            normal_priority_queue_len: self.normal.len(),
            low_priority_queue_len: self.low.len(),
        }
    }
}

} // verus!
