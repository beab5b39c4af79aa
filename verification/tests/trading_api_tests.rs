use hyper_liquid_connector::api::trading_api::{
    judge_cancel_response, judge_order_response, map_order_type, order_payload, PendingOrder,
    RateDecision, RateLimiter, RetryRequest, RetryStep, TradingApi,
};
use hyper_liquid_connector::control_loop::settle_placed;
use hyper_liquid_connector::api::types::{ApiConfig, ApiError, ApiEvent};
use hyper_liquid_connector::numeric::decimal::{Decimal, Digits};
use hyper_liquid_connector::trading::types::{NewOrder, OrderType, Side};

fn td(text: &str) -> Decimal {
    Decimal::from_str(text).expect("a decimal")
}

fn an_order(symbol: &str) -> NewOrder {
    NewOrder {
        symbol: symbol.to_string(),
        side: Side::Buy,
        order_type: OrderType::PostOnly,
        price: Digits::from_decimal(&td("100.5")),
        size: td("2"),
        client_id: None,
    }
}

fn config(max_retries: u32, delay: u64) -> ApiConfig {
    ApiConfig {
        base_url: "https://example.invalid".to_string(),
        ws_url: "wss://example.invalid/ws".to_string(),
        timeout_ms: 1000,
        max_retries,
        retry_delay_ms: delay,
    }
}

#[test]
fn rate_limiter_lets_a_window_full_through_and_no_more() {
    let mut limiter = RateLimiter::new_at(100, 5_000);
    let mut proceeded = 0;
    let mut waits = Vec::new();
    for _ in 0..150 {
        match limiter.request(5_000) {
            RateDecision::Proceed => proceeded += 1,
            RateDecision::Wait(ms) => waits.push(ms),
        }
        assert!(limiter.request_count <= limiter.capacity);
    }
    assert_eq!(proceeded, 100);
    assert_eq!(waits.len(), 50);
    // the 101st request is told to wait for the whole window
    assert!(waits.iter().all(|ms| *ms == 1000));
    // before the window rolls over nothing goes
    assert_eq!(limiter.request(5_999), RateDecision::Wait(1));
    // after the wait the rest go, in the next window
    let mut second = 0;
    for _ in 0..50 {
        if limiter.request(6_000) == RateDecision::Proceed {
            second += 1;
        }
    }
    assert_eq!(second, 50);
    assert_eq!(limiter.window_start, 6_000);
    assert_eq!(limiter.request_count, 50);
    assert_eq!(limiter.last_request, 6_000);
}

#[test]
fn rate_limiter_wait_is_what_is_left_of_the_window() {
    let mut limiter = RateLimiter::new_at(2, 0);
    assert_eq!(limiter.request(100), RateDecision::Proceed);
    assert_eq!(limiter.request(200), RateDecision::Proceed);
    assert_eq!(limiter.request(300), RateDecision::Wait(700));
    assert_eq!(limiter.request(999), RateDecision::Wait(1));
    assert_eq!(limiter.request(1000), RateDecision::Proceed);
    assert_eq!(limiter.request_count, 1);
    assert_eq!(limiter.window_start, 1000);
    // a clock that goes back keeps the window: what room there is is
    // taken, and a window that is used up makes the caller wait
    assert_eq!(limiter.request(500), RateDecision::Proceed);
    assert_eq!(limiter.window_start, 1000);
    assert_eq!(limiter.request_count, 2);
    assert_eq!(limiter.request(400), RateDecision::Wait(1000));
    assert_eq!(limiter.request(i64::MIN), RateDecision::Wait(1000));
    assert_eq!(limiter.window_start, 1000);
    assert_eq!(limiter.request_count, 2);
    assert_eq!(limiter.request(1999), RateDecision::Wait(1));
    assert_eq!(limiter.request(2000), RateDecision::Proceed);
    assert_eq!((limiter.window_start, limiter.request_count), (2000, 1));
    let zero = RateLimiter::default();
    assert_eq!(zero.capacity, 100);
    assert_eq!(zero.request_count, 0);
}

#[test]
fn window_with_room_lasts_until_more_than_its_length_has_passed() {
    let mut limiter = RateLimiter::new_at(100, 7_000);
    assert_eq!(limiter.request(7_500), RateDecision::Proceed);
    // at exactly one second the request is still counted in the window
    assert_eq!(limiter.request(8_000), RateDecision::Proceed);
    assert_eq!((limiter.window_start, limiter.request_count), (7_000, 2));
    assert_eq!(limiter.last_request, 8_000);
    // a millisecond later a new window begins
    assert_eq!(limiter.request(8_001), RateDecision::Proceed);
    assert_eq!((limiter.window_start, limiter.request_count), (8_001, 1));
}

#[test]
fn pipeline_limits_requests_to_one_hundred_a_window() {
    let mut api = TradingApi::new_at(config(3, 1000), 0);
    for _ in 0..100 {
        assert_eq!(api.enforce_rate_limit(10), RateDecision::Proceed);
    }
    assert_eq!(api.enforce_rate_limit(10), RateDecision::Wait(990));
    assert_eq!(api.enforce_rate_limit(1000), RateDecision::Proceed);
}

#[test]
fn client_order_ids_count_up_from_one() {
    let mut api = TradingApi::new_at(config(3, 1000), 0);
    assert_eq!(api.generate_client_order_id(), 1);
    assert_eq!(api.generate_client_order_id(), 2);
    api.next_client_order_id = u64::MAX;
    assert_eq!(api.generate_client_order_id(), u64::MAX);
    assert_eq!(api.generate_client_order_id(), 0);
}

#[test]
fn place_registers_pending_and_failure_removes_it() {
    let mut api = TradingApi::new_at(config(3, 1000), 0);
    let pending = api.begin_place_with(&an_order("BTC"), 77, 123);
    assert_eq!(pending.internal_id, 77);
    assert_eq!(pending.client_order_id, 1);
    assert_eq!(pending.retry_count, 0);
    assert_eq!(pending.created_at, 123);
    assert_eq!(pending.symbol, "BTC");
    assert_eq!(api.get_pending_orders().len(), 1);
    assert_eq!(api.get_pending_order(77).map(|p| p.client_order_id), Some(1));
    assert!(api.get_pending_order(78).is_none());
    assert_eq!(api.finish_place(&pending, Ok(())).unwrap(), 77);
    assert_eq!(api.get_pending_orders().len(), 1);

    let second = api.begin_place(&an_order("ETH"));
    assert_eq!(second.client_order_id, 2);
    assert_ne!(second.internal_id, 77);
    let failed = api.finish_place(&second, Err(ApiError::NetworkError("down".to_string())));
    assert!(matches!(failed, Err(ApiError::NetworkError(m)) if m == "down"));
    assert_eq!(api.get_pending_orders().len(), 1);
    // nothing was queued for another try: that is the caller's decision
    assert!(api.retry_queue.is_empty());
    assert!(api.drain_events().is_empty());
}

#[test]
fn order_payload_names_the_order_for_the_exchange() {
    let mut api = TradingApi::new_at(config(3, 1000), 0);
    let pending = api.begin_place_with(&an_order("BTC"), 77, 0);
    let payload = order_payload(&pending, Some(42));
    assert_eq!(payload.a, Some(42));
    assert!(payload.b);
    assert_eq!(payload.p, "100.5");
    assert_eq!(payload.s, "2");
    assert!(!payload.r);
    assert_eq!(payload.t, "Limit");
    assert_eq!(payload.cid, 1);
    assert_eq!(payload.oid, None);
    assert_eq!(map_order_type(&OrderType::Market), "Market");
    assert_eq!(map_order_type(&OrderType::Limit), "Limit");
    assert_eq!(map_order_type(&OrderType::PostOnly), "Limit");
}

#[test]
fn retry_queue_hands_out_what_is_due_in_order() {
    let mut api = TradingApi::new_at(config(3, 1000), 0);
    let a = api.begin_place_with(&an_order("A"), 1, 0);
    let b = api.begin_place_with(&an_order("B"), 2, 0);
    let c = api.begin_place_with(&an_order("C"), 3, 0);
    api.enqueue_retry(a, 100);
    api.enqueue_retry(b, 500);
    api.enqueue_retry(c, 200);
    assert_eq!(api.retry_queue[0].retry_after, 1100);
    assert!(api.take_due_retries(1099).is_empty());
    assert_eq!(api.retry_queue.len(), 3);
    let due: Vec<u128> = api.take_due_retries(1200).iter().map(|r| r.order.internal_id).collect();
    assert_eq!(due, vec![1, 3]);
    let left: Vec<u128> = api.retry_queue.iter().map(|r| r.order.internal_id).collect();
    assert_eq!(left, vec![2]);
    let due: Vec<u128> = api.take_due_retries(1500).iter().map(|r| r.order.internal_id).collect();
    assert_eq!(due, vec![2]);
    assert!(api.retry_queue.is_empty());
    // a delay that would pass the end of time is held at the end of time
    let d = api.begin_place_with(&an_order("D"), 4, 0);
    api.enqueue_retry(d, i64::MAX - 5);
    assert_eq!(api.retry_queue[0].retry_after, i64::MAX);
}

#[test]
fn always_failing_order_is_retried_max_retries_times_then_dropped_once() {
    for max_retries in [0u32, 1, 3, 5] {
        let mut api = TradingApi::new_at(config(max_retries, 100), 0);
        let pending = api.begin_place_with(&an_order("BTC"), 1, 0);
        assert!(api.finish_place(&pending, Ok(())).is_ok());
        api.enqueue_retry(pending, 0);
        let mut resubmissions = 0u32;
        let mut now = 0i64;
        let mut rounds = 0;
        while !api.retry_queue.is_empty() {
            rounds += 1;
            assert!(rounds < 100, "the retry loop must end");
            now += 100;
            for request in api.take_due_retries(now) {
                match api.next_retry_step(&request, now) {
                    RetryStep::Dropped => {}
                    RetryStep::Resubmit(order) => {
                        resubmissions += 1;
                        assert_eq!(order.retry_count, resubmissions);
                        assert!(order.retry_count <= max_retries);
                        api.finish_retry(order, false, now);
                    }
                }
            }
        }
        assert_eq!(resubmissions, max_retries);
        assert!(api.get_pending_order(1).is_none());
        let events = api.drain_events();
        assert_eq!(events.len(), 1);
        match &events[0] {
            ApiEvent::Error { error, timestamp } => {
                assert_eq!(
                    error,
                    "Max retries exceeded for order 00000000-0000-0000-0000-000000000001"
                );
                assert_eq!(*timestamp, now as u64);
            }
            _ => panic!("the terminal event is an error"),
        }
        // nothing is left to be tried again
        assert!(api.take_due_retries(i64::MAX).is_empty());
        assert!(api.drain_events().is_empty());
    }
}

#[test]
fn successful_retry_keeps_the_order_pending_with_its_count() {
    let mut api = TradingApi::new_at(config(3, 100), 0);
    let pending = api.begin_place_with(&an_order("BTC"), 9, 0);
    let request = RetryRequest { order: pending, retry_after: 0 };
    match api.next_retry_step(&request, 50) {
        RetryStep::Resubmit(order) => {
            assert_eq!(order.retry_count, 1);
            api.finish_retry(order, true, 60);
        }
        RetryStep::Dropped => panic!("the order has tries left"),
    }
    assert!(api.retry_queue.is_empty());
    assert_eq!(api.get_pending_order(9).map(|p| p.retry_count), Some(1));
    assert!(api.drain_events().is_empty());
    // an order that comes with its tries used up is dropped; a time before the epoch counts as zero
    let spent = PendingOrder { retry_count: 3, ..api.get_pending_order(9).unwrap() };
    let request = RetryRequest { order: spent, retry_after: 0 };
    assert!(matches!(api.next_retry_step(&request, -5), RetryStep::Dropped));
    assert!(api.get_pending_order(9).is_none());
    let events = api.drain_events();
    assert!(matches!(&events[..], [ApiEvent::Error { timestamp: 0, .. }]));
}

#[test]
fn cancel_finds_orders_by_internal_identity() {
    let mut api = TradingApi::new_at(config(3, 100), 0);
    let a = api.begin_place_with(&an_order("BTC"), 10, 0);
    let _b = api.begin_place_with(&an_order("ETH"), 20, 0);
    let _c = api.begin_place_with(&an_order("BTC"), 30, 0);
    assert_eq!(api.client_order_id_of(20).unwrap(), 2);
    match api.client_order_id_of(99) {
        Err(ApiError::InvalidOrder(m)) => assert_eq!(m, "Order not found"),
        _ => panic!("an unknown order is invalid"),
    }
    assert_eq!(api.cancel_targets(Some("BTC")), vec![1, 3]);
    assert_eq!(api.cancel_targets(Some("SOL")), Vec::<u64>::new());
    assert_eq!(api.cancel_targets(None), vec![1, 2, 3]);
    let failed = api.finish_cancel(a.client_order_id, Err(ApiError::Timeout("slow".to_string())));
    assert!(matches!(failed, Err(ApiError::Timeout(_))));
    assert_eq!(api.cancel_targets(None), vec![1, 2, 3]);
    assert!(api.finish_cancel(a.client_order_id, Ok(())).is_ok());
    assert_eq!(api.cancel_targets(None), vec![2, 3]);
    assert!(api.get_pending_order(10).is_none());
}

#[test]
fn responses_of_the_exchange_are_judged() {
    assert!(judge_order_response(true, "200 OK", "", Ok("ok".to_string())).is_ok());
    match judge_order_response(false, "500 Internal Server Error", "boom", Ok("ok".to_string())) {
        Err(ApiError::OrderRejected(m)) => {
            assert_eq!(m, "Order failed with status 500 Internal Server Error: boom")
        }
        _ => panic!("a failed status rejects"),
    }
    match judge_order_response(true, "200 OK", "", Err("bad json".to_string())) {
        Err(ApiError::ParseError(m)) => assert_eq!(m, "bad json"),
        _ => panic!("an unreadable answer is a parse error"),
    }
    match judge_order_response(true, "200 OK", "", Ok("err".to_string())) {
        Err(ApiError::OrderRejected(m)) => assert_eq!(m, "Order response status not ok"),
        _ => panic!("a status that is not ok rejects"),
    }
    assert!(judge_cancel_response(true, "200 OK", "", Ok("ok".to_string())).is_ok());
    match judge_cancel_response(false, "404 Not Found", "gone", Ok("ok".to_string())) {
        Err(ApiError::OrderRejected(m)) => assert_eq!(m, "Cancel failed with status 404 Not Found: gone"),
        _ => panic!("a failed status rejects"),
    }
    match judge_cancel_response(true, "200 OK", "", Ok("no".to_string())) {
        Err(ApiError::OrderRejected(m)) => assert_eq!(m, "Cancel response status not ok"),
        _ => panic!("a status that is not ok rejects"),
    }
}

#[test]
fn api_errors_in_words() {
    let cases: Vec<(ApiError, &str, bool)> = vec![
        (ApiError::NetworkError("x".to_string()), "Network error: x", true),
        (ApiError::ParseError("x".to_string()), "Parse error: x", true),
        (ApiError::AuthenticationError("x".to_string()), "Authentication error: x", false),
        (ApiError::RateLimitError("x".to_string()), "Rate limit error: x", false),
        (ApiError::OrderRejected("x".to_string()), "Order rejected: x", false),
        (ApiError::InsufficientBalance("x".to_string()), "Insufficient balance: x", false),
        (ApiError::InvalidOrder("x".to_string()), "Invalid order: x", false),
        (ApiError::Timeout("x".to_string()), "Timeout: x", true),
        (ApiError::Unknown("x".to_string()), "Unknown error: x", false),
    ];
    for (error, words, retryable) in cases {
        assert_eq!(error.to_string(), words);
        assert_eq!(error.is_retryable(), retryable);
        assert_eq!(error.clone().to_string(), words);
    }
    let config = ApiConfig::default();
    assert_eq!(config.base_url, "https://api.hyperliquid.xyz");
    assert_eq!(config.ws_url, "wss://api.hyperliquid.xyz/ws");
    assert_eq!(config.timeout_ms, 5000);
    assert_eq!(config.max_retries, 3);
    assert_eq!(config.retry_delay_ms, 1000);
    let fresh = TradingApi::new(config.clone());
    assert_eq!(fresh.next_client_order_id, 1);
}

#[test]
fn failed_placement_is_queued_again_only_where_a_new_try_may_mend_it() {
    let mut api = TradingApi::new_at(config(3, 250), 0);
    let first = api.begin_place_with(&an_order("BTC"), 1, 10);
    let taken = settle_placed(&mut api, first, Ok(()), 20);
    assert!(matches!(taken, Ok(1)));
    assert_eq!(api.get_pending_orders().len(), 1);
    assert!(api.retry_queue.is_empty());

    let second = api.begin_place_with(&an_order("BTC"), 2, 30);
    let lost = settle_placed(&mut api, second, Err(ApiError::NetworkError("down".to_string())), 40);
    assert!(matches!(lost, Err(ApiError::NetworkError(m)) if m == "down"));
    assert_eq!(api.get_pending_orders().len(), 1);
    assert_eq!(api.retry_queue.len(), 1);
    assert_eq!(api.retry_queue[0].order.internal_id, 2);
    assert_eq!(api.retry_queue[0].retry_after, 290);

    let third = api.begin_place_with(&an_order("BTC"), 3, 50);
    let refused =
        settle_placed(&mut api, third, Err(ApiError::OrderRejected("no".to_string())), 60);
    assert!(matches!(refused, Err(ApiError::OrderRejected(m)) if m == "no"));
    assert_eq!(api.get_pending_orders().len(), 1);
    assert_eq!(api.retry_queue.len(), 1);

    let fourth = api.begin_place_with(&an_order("BTC"), 4, 70);
    let late = settle_placed(&mut api, fourth, Err(ApiError::Timeout("slow".to_string())), i64::MAX);
    assert!(late.is_err());
    assert_eq!(api.retry_queue.len(), 2);
    assert_eq!(api.retry_queue[1].retry_after, i64::MAX);
    assert!(api.drain_events().is_empty());
}

#[test]
fn dropped_order_is_named_by_its_identity_in_text() {
    let ids: [u128; 6] = [
        0,
        1,
        0x0123_4567_89ab_cdef_0123_4567_89ab_cdef,
        0xffff_ffff_ffff_ffff_ffff_ffff_ffff_ffff,
        0x8000_0000_0000_4000_8000_0000_0000_000a,
        0x0000_0001_0002_0003_0004_0005_0006_0007,
    ];
    for id in ids {
        let mut api = TradingApi::new_at(config(0, 1000), 0);
        let pending = api.begin_place_with(&an_order("BTC"), id, 0);
        let request = RetryRequest { order: pending, retry_after: 0 };
        assert!(matches!(api.next_retry_step(&request, 5), RetryStep::Dropped));
        let events = api.drain_events();
        assert_eq!(events.len(), 1);
        match &events[0] {
            ApiEvent::Error { error, .. } => assert_eq!(
                error,
                &format!("Max retries exceeded for order {}", uuid::Uuid::from_u128(id))
            ),
            other => panic!("unexpected {:?}", other),
        }
    }
}
