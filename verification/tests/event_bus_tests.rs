use hyper_liquid_connector::events::event_bus::{
    lane_of, EventBus, EventBusConfig, EventFilter, LaneKind, Lane, TopicFilter,
};
use hyper_liquid_connector::events::types::{
    ConnectionEvent, EventPriority, RiskEvent, StrategyEvent, SystemEvent, SystemLevelEvent,
};
use hyper_liquid_connector::model::hl_msgs::{OrderBookData, TobMsg};
use hyper_liquid_connector::trading::order_manager::OrderEvent;
use hyper_liquid_connector::trading::position_manager::PositionEvent;
use hyper_liquid_connector::numeric::decimal::Notional;

fn small(high: usize, normal: usize, low: usize) -> EventBusConfig {
    EventBusConfig {
        high_priority_buffer_size: high,
        normal_priority_buffer_size: normal,
        market_data_buffer_size: low,
        max_subscribers_per_topic: 2,
        enable_metrics: true,
        batch_size: 10,
        batch_timeout_ms: 10,
    }
}

fn risk(symbol: &str) -> SystemEvent {
    SystemEvent::Risk {
        symbol: symbol.to_string(),
        event: RiskEvent::OrderRejected { order_id: 1, reason: "no".to_string() },
        timestamp: 0,
    }
}

fn order_event(id: u128) -> SystemEvent {
    SystemEvent::Order(OrderEvent::OrderCancelled(id))
}

fn market(symbol: &str) -> SystemEvent {
    SystemEvent::MarketData {
        symbol: symbol.to_string(),
        data: TobMsg {
            channel: "l2Book".to_string(),
            data: OrderBookData { coin: symbol.to_string(), time: 1, levels: vec![] },
        },
        timestamp: 0,
    }
}

fn cancelled_id(event: &SystemEvent) -> u128 {
    match event {
        SystemEvent::Order(OrderEvent::OrderCancelled(id)) => *id,
        _ => panic!("an order event is expected"),
    }
}

#[test]
fn default_event_bus_config() {
    let c = EventBusConfig::default();
    assert_eq!(c.high_priority_buffer_size, 1000);
    assert_eq!(c.normal_priority_buffer_size, 10000);
    assert_eq!(c.market_data_buffer_size, 100000);
    assert_eq!(c.max_subscribers_per_topic, 100);
    assert!(c.enable_metrics);
    assert_eq!(c.batch_size, 100);
    assert_eq!(c.batch_timeout_ms, 10);
}

#[test]
fn events_have_priorities_and_sources() {
    let system_error = SystemEvent::System {
        event: SystemLevelEvent::Error { component: "c".to_string(), error: "e".to_string() },
        timestamp: 0,
    };
    let startup = SystemEvent::System { event: SystemLevelEvent::Startup, timestamp: 0 };
    let conn_error = SystemEvent::Connection {
        connection_id: "ws1".to_string(),
        event: ConnectionEvent::Error("x".to_string()),
        timestamp: 0,
    };
    let connected = SystemEvent::Connection {
        connection_id: "ws1".to_string(),
        event: ConnectionEvent::Connected,
        timestamp: 0,
    };
    let strat_error = SystemEvent::Strategy {
        strategy_name: "mm".to_string(),
        event: StrategyEvent::Error("x".to_string()),
        timestamp: 0,
    };
    let strat_started = SystemEvent::Strategy {
        strategy_name: "mm".to_string(),
        event: StrategyEvent::Started,
        timestamp: 0,
    };
    let position = SystemEvent::Position(PositionEvent::PnlRealized(Notional::zero()));
    assert_eq!(system_error.priority(), EventPriority::Critical);
    assert_eq!(startup.priority(), EventPriority::Normal);
    assert_eq!(risk("BTC").priority(), EventPriority::High);
    assert_eq!(conn_error.priority(), EventPriority::High);
    assert_eq!(connected.priority(), EventPriority::Normal);
    assert_eq!(strat_error.priority(), EventPriority::High);
    assert_eq!(strat_started.priority(), EventPriority::Normal);
    assert_eq!(order_event(1).priority(), EventPriority::Normal);
    assert_eq!(position.priority(), EventPriority::Normal);
    assert_eq!(market("BTC").priority(), EventPriority::Low);
    assert_eq!(market("BTC").source(), "market_data");
    assert_eq!(order_event(1).source(), "order_manager");
    assert_eq!(position.source(), "position_manager");
    assert_eq!(strat_started.source(), "strategy:mm");
    assert_eq!(connected.source(), "connection:ws1");
    assert_eq!(risk("BTC").source(), "risk_manager");
    assert_eq!(startup.source(), "system");
    assert_eq!(lane_of(EventPriority::Critical), LaneKind::High);
    assert_eq!(lane_of(EventPriority::High), LaneKind::High);
    assert_eq!(lane_of(EventPriority::Normal), LaneKind::Normal);
    assert_eq!(lane_of(EventPriority::Low), LaneKind::Low);
    assert!(EventPriority::Low.level() < EventPriority::Normal.level());
    assert!(EventPriority::High.level() < EventPriority::Critical.level());
    assert!(matches!(SystemEvent::new_system_event(SystemLevelEvent::Shutdown), SystemEvent::System { .. }));
    assert!(matches!(
        SystemEvent::new_risk_event("BTC".to_string(), RiskEvent::OrderRejected { order_id: 2, reason: "r".to_string() }),
        SystemEvent::Risk { symbol, .. } if symbol == "BTC"
    ));
    assert!(matches!(
        SystemEvent::new_strategy_event("mm".to_string(), StrategyEvent::Stopped),
        SystemEvent::Strategy { strategy_name, .. } if strategy_name == "mm"
    ));
    assert!(matches!(
        SystemEvent::new_connection_event("c".to_string(), ConnectionEvent::Reconnecting),
        SystemEvent::Connection { connection_id, .. } if connection_id == "c"
    ));
    assert!(matches!(
        SystemEvent::new_market_data(
            "BTC".to_string(),
            TobMsg {
                channel: "l2Book".to_string(),
                data: OrderBookData { coin: "BTC".to_string(), time: 1, levels: vec![] },
            }
        ),
        SystemEvent::MarketData { symbol, .. } if symbol == "BTC"
    ));
}

#[test]
fn full_lane_drops_exactly_the_overflow() {
    let mut bus = EventBus::new(small(4, 3, 2));
    let mut accepted = 0;
    let mut refused = 0;
    for i in 0..10u128 {
        match bus.publish(order_event(i)) {
            Ok(()) => accepted += 1,
            Err(words) => {
                assert_eq!(words, "Event bus channel full");
                refused += 1;
            }
        }
    }
    assert_eq!(accepted, 3);
    assert_eq!(refused, 7);
    let metrics = bus.get_metrics();
    assert_eq!(metrics.events_dropped, 7);
    assert_eq!(metrics.events_processed, 3);
    assert_eq!(metrics.normal_priority_queue_len, 3);
    assert_eq!(metrics.high_priority_queue_len, 0);
    assert_eq!(metrics.low_priority_queue_len, 0);
    // the other lanes still have room
    assert!(bus.publish(risk("BTC")).is_ok());
    assert!(bus.publish(market("BTC")).is_ok());
    assert!(bus.publish(market("BTC")).is_ok());
    assert!(bus.publish(market("BTC")).is_err());
    assert_eq!(bus.get_metrics().events_dropped, 8);
    // what was taken waits in the order in which it came
    let batch = bus.next_batch(LaneKind::Normal, 10);
    let ids: Vec<u128> = batch.iter().map(cancelled_id).collect();
    assert_eq!(ids, vec![0, 1, 2]);
    // and after dispatch the lane has room again
    assert!(bus.publish(order_event(50)).is_ok());
    assert_eq!(bus.get_metrics().events_dropped, 8);
}

#[test]
fn drops_are_counted_also_when_metrics_are_switched_off() {
    let mut config = small(1, 1, 1);
    config.enable_metrics = false;
    let mut bus = EventBus::new(config);
    assert!(bus.publish(order_event(1)).is_ok());
    assert!(bus.publish(order_event(2)).is_err());
    assert!(bus.publish(order_event(3)).is_err());
    let m = bus.get_metrics();
    assert_eq!(m.events_processed, 0);
    assert_eq!(m.events_dropped, 2);
    assert_eq!(m.normal_priority_queue_len, 1);
}

#[test]
fn zero_capacity_lane_drops_everything() {
    let mut bus = EventBus::new(small(0, 0, 0));
    assert!(bus.publish(order_event(1)).is_err());
    assert!(bus.publish(risk("BTC")).is_err());
    assert_eq!(bus.get_metrics().events_dropped, 2);
    assert!(bus.next_batch(LaneKind::High, 5).is_empty());
}

#[test]
fn batches_are_first_in_first_out_and_bounded() {
    let mut bus = EventBus::new(small(10, 10, 10));
    for i in 0..7u128 {
        assert!(bus.publish(order_event(i)).is_ok());
    }
    assert!(bus.next_batch(LaneKind::Normal, 0).is_empty());
    let first: Vec<u128> = bus.next_batch(LaneKind::Normal, 3).iter().map(cancelled_id).collect();
    assert_eq!(first, vec![0, 1, 2]);
    assert!(bus.next_batch(LaneKind::High, 3).is_empty());
    let rest: Vec<u128> = bus.next_batch(LaneKind::Normal, 100).iter().map(cancelled_id).collect();
    assert_eq!(rest, vec![3, 4, 5, 6]);
    assert!(bus.next_batch(LaneKind::Normal, 100).is_empty());
    // seven were counted at publishing and seven more at dispatch
    assert_eq!(bus.get_metrics().events_processed, 14);
}

#[test]
fn lanes_are_bounded_queues() {
    let mut lane = Lane::new(2);
    assert_eq!(lane.capacity(), 2);
    assert!(lane.try_recv().is_none());
    assert!(lane.try_send(order_event(1)).is_ok());
    assert!(lane.try_send(order_event(2)).is_ok());
    let back = lane.try_send(order_event(3)).unwrap_err();
    assert_eq!(cancelled_id(&back), 3);
    assert_eq!(lane.len(), 2);
    assert_eq!(lane.try_recv().map(|e| cancelled_id(&e)), Some(1));
    assert_eq!(lane.try_recv().map(|e| cancelled_id(&e)), Some(2));
    assert!(lane.try_recv().is_none());
}

#[test]
fn subscribers_are_found_by_topic() {
    let mut bus = EventBus::new(small(10, 10, 10));
    let all = bus.subscribe("*").unwrap();
    let any_risk = bus.subscribe("risk").unwrap();
    let btc_risk = bus.subscribe("risk.BTC").unwrap();
    let orders = bus.subscribe("orders").unwrap();
    let second_all = bus.subscribe("*").unwrap();
    assert_eq!(vec![all, any_risk, btc_risk, orders, second_all], vec![0, 1, 2, 3, 4]);
    // a topic takes no more listeners than it may have
    assert!(bus.subscribe("*").is_none());
    assert_eq!(bus.get_metrics().subscriber_count, 4);
    assert_eq!(bus.recipients(&risk("BTC")), vec![0, 4, 1, 2]);
    assert_eq!(bus.recipients(&risk("ETH")), vec![0, 4, 1]);
    assert_eq!(bus.recipients(&order_event(1)), vec![0, 4, 3]);
    assert_eq!(bus.recipients(&market("BTC")), vec![0, 4]);
    let topics = EventBus::get_event_topics(&risk("BTC"));
    assert_eq!(topics, vec!["*", "risk", "risk.BTC"]);
    assert_eq!(EventBus::get_event_topics(&order_event(1)), vec!["*", "orders"]);
    assert_eq!(
        EventBus::get_event_topics(&market("HYPE")),
        vec!["*", "market_data", "market_data.HYPE"]
    );
    assert_eq!(
        EventBus::get_event_topics(&SystemEvent::System { event: SystemLevelEvent::Startup, timestamp: 0 }),
        vec!["*", "system"]
    );
    assert_eq!(
        EventBus::get_event_topics(&SystemEvent::Position(PositionEvent::PnlRealized(Notional::zero()))),
        vec!["*", "positions"]
    );
}

#[test]
fn filters_hold_events_back_without_error() {
    let filter = TopicFilter {
        name: "risk only".to_string(),
        allowed_topics: vec!["risk".to_string(), "orders".to_string()],
    };
    assert_eq!(filter.name(), "risk only");
    assert!(filter.should_process(&risk("BTC")));
    assert!(filter.should_process(&order_event(1)));
    assert!(!filter.should_process(&market("BTC")));
    let wildcard = TopicFilter { name: "all".to_string(), allowed_topics: vec!["*".to_string()] };
    assert!(wildcard.lets_pass(&market("BTC")));
    let none = TopicFilter { name: "none".to_string(), allowed_topics: vec![] };
    assert!(!none.lets_pass(&risk("BTC")));
    let narrow = TopicFilter { name: "btc".to_string(), allowed_topics: vec!["risk.BTC".to_string()] };
    assert!(narrow.lets_pass(&risk("BTC")));
    assert!(narrow.lets_pass(&risk("BTCUSD")));
    assert!(!narrow.lets_pass(&risk("ETH")));

    let mut bus = EventBus::new(small(10, 10, 10));
    bus.add_filter(filter);
    assert!(bus.publish(market("BTC")).is_ok());
    assert!(bus.publish(risk("BTC")).is_ok());
    let m = bus.get_metrics();
    assert_eq!(m.low_priority_queue_len, 0);
    assert_eq!(m.high_priority_queue_len, 1);
    assert_eq!(m.events_processed, 1);
    assert_eq!(m.events_dropped, 0);
    bus.add_filter(TopicFilter { name: "orders".to_string(), allowed_topics: vec!["orders".to_string()] });
    // every filter must let an event pass
    assert!(bus.publish(risk("BTC")).is_ok());
    assert_eq!(bus.get_metrics().high_priority_queue_len, 1);
    assert!(bus.publish(order_event(1)).is_ok());
    assert_eq!(bus.get_metrics().normal_priority_queue_len, 1);
}
