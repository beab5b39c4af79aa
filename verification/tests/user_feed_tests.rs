use hyper_liquid_connector::api::account_api::{
    judge_fills_response, judge_withdrawable_response, AccountApi,
};
use hyper_liquid_connector::api::auth::{judge_auth_response, HyperLiquidAuth};
use hyper_liquid_connector::api::types::{
    ApiConfig, ApiError, ApiEvent, HyperLiquidAccountInfo, HyperLiquidFill,
    HyperLiquidFillsResponse, HyperLiquidMarginSummary, HyperLiquidOrderFilled,
    HyperLiquidOrderRest, HyperLiquidOrderStatus, HyperLiquidPosition, HyperLiquidUserState,
    HyperLiquidUserStateResponse,
};
use hyper_liquid_connector::api::ws_trading::{
    ConnectionState, FeedChannel, FeedMessage, FrameKind, FrameReply, ReconnectStep,
    TradingWebSocket,
};
use hyper_liquid_connector::numeric::decimal::Decimal;

fn ud(text: &str) -> Decimal {
    Decimal::from_str(text).expect("a decimal")
}

fn summary(value: &str, used: &str) -> HyperLiquidMarginSummary {
    HyperLiquidMarginSummary {
        account_value: value.to_string(),
        total_margin_used: used.to_string(),
        total_ntl_pos: "0".to_string(),
        total_raw_usd: "0".to_string(),
    }
}

fn reported(coin: &str, szi: &str, entry: &str, open: &str) -> HyperLiquidPosition {
    HyperLiquidPosition {
        coin: coin.to_string(),
        szi: szi.to_string(),
        entry_px: entry.to_string(),
        position_value: "0".to_string(),
        unrealized_pnl: open.to_string(),
        margin_used: "0".to_string(),
    }
}

fn resting(oid: u64, sz: &str, px: &str, at: u64) -> HyperLiquidOrderRest {
    HyperLiquidOrderRest {
        oid,
        total_sz: "5".to_string(),
        sz: sz.to_string(),
        px: px.to_string(),
        side: "B".to_string(),
        cloid: None,
        reduce_only: false,
        timestamp: at,
    }
}

fn filled(oid: u64, sz: &str, px: &str, at: u64) -> HyperLiquidOrderFilled {
    HyperLiquidOrderFilled {
        oid,
        total_sz: "5".to_string(),
        sz: sz.to_string(),
        px: px.to_string(),
        side: "B".to_string(),
        cloid: None,
        reduce_only: false,
        timestamp: at,
    }
}

fn a_fill(oid: u64) -> HyperLiquidFill {
    HyperLiquidFill {
        coin: "BTC".to_string(),
        px: "101.5".to_string(),
        sz: "0.25".to_string(),
        side: "B".to_string(),
        time: 777,
        start_position: "0".to_string(),
        dir: "Open Long".to_string(),
        closed_pnl: "0".to_string(),
        hash: "0xabc".to_string(),
        oid,
        crossed: true,
        fee: "0.01".to_string(),
    }
}

fn user_state(withdrawable: &str) -> HyperLiquidUserState {
    HyperLiquidUserState {
        asset_positions: vec![],
        cross_margin_summary: summary("1", "0"),
        margin_summary: summary("1", "0"),
        withdrawable: withdrawable.to_string(),
        open_orders: vec![],
        equity: "1".to_string(),
    }
}

fn network(message: &str) -> ApiError {
    ApiError::NetworkError(message.to_string())
}

fn same(a: &Result<(), ApiError>, b: &Result<(), ApiError>) -> bool {
    match (a, b) {
        (Ok(()), Ok(())) => true,
        (Err(x), Err(y)) => x.to_string() == y.to_string(),
        _ => false,
    }
}

#[test]
fn feed_begins_disconnected_and_connects() {
    let mut feed = TradingWebSocket::new_at(Some(42), ApiConfig::default(), 1000);
    assert!(!feed.is_connected());
    assert!(!feed.has_socket);
    assert!(matches!(feed.get_connection_state(), ConnectionState::Disconnected));
    let subs = feed.get_subscription_state();
    assert!(!subs.user_events && !subs.fills && !subs.orders && !subs.positions);
    assert_eq!(feed.last_heartbeat, 1000);

    feed.begin_connect();
    assert!(matches!(feed.get_connection_state(), ConnectionState::Connecting));
    let refused = feed.connect(Err("refused".to_string()), 1500);
    assert!(same(&refused, &Err(network("refused"))));
    assert!(matches!(feed.get_connection_state(), ConnectionState::Connecting));
    assert!(!feed.has_socket);
    assert_eq!(feed.last_heartbeat, 1000);

    feed.reconnect_attempts = 4;
    assert!(feed.connect(Ok(()), 2000).is_ok());
    assert!(feed.is_connected());
    assert!(feed.has_socket);
    assert_eq!(feed.reconnect_attempts, 0);
    assert_eq!(feed.last_heartbeat, 2000);

    feed.disconnect();
    assert!(!feed.is_connected());
    assert!(matches!(feed.get_connection_state(), ConnectionState::Disconnected));
    assert!(feed.has_socket);

    let now = TradingWebSocket::new(None, ApiConfig::default());
    assert!(!now.is_connected());
    assert_eq!(now.account_id, None);
}

#[test]
fn subscriptions_need_a_socket_and_name_the_account() {
    let mut feed = TradingWebSocket::new_at(Some(42), ApiConfig::default(), 0);
    match feed.subscription_request(FeedChannel::Fills) {
        Err(ApiError::NetworkError(m)) => assert_eq!(m, "WebSocket not connected"),
        other => panic!("unexpected {:?}", other),
    }
    assert!(feed.connect(Ok(()), 1).is_ok());
    let cases = [
        (FeedChannel::UserEvents, "userEvents"),
        (FeedChannel::Fills, "fills"),
        (FeedChannel::Orders, "orders"),
        (FeedChannel::Positions, "positions"),
    ];
    for (channel, name) in cases {
        let request = feed.subscription_request(channel).expect("a request");
        assert_eq!(request.method, "subscribe");
        assert_eq!(request.type_field, name);
        assert_eq!(request.user, Some("42".to_string()));
    }
    for channel in [FeedChannel::Pong, FeedChannel::Unknown] {
        match feed.subscription_request(channel) {
            Err(ApiError::InvalidOrder(m)) => assert_eq!(m, "No such channel"),
            other => panic!("unexpected {:?}", other),
        }
    }

    let failed = feed.finish_subscribe(FeedChannel::Fills, Err("broken pipe".to_string()));
    assert!(same(&failed, &Err(network("broken pipe"))));
    assert!(!feed.get_subscription_state().fills);
    assert!(feed.finish_subscribe(FeedChannel::Fills, Ok(())).is_ok());
    let subs = feed.get_subscription_state();
    assert!(subs.fills && !subs.user_events && !subs.orders && !subs.positions);
    assert!(feed.finish_subscribe(FeedChannel::Orders, Ok(())).is_ok());
    assert!(feed.finish_subscribe(FeedChannel::UserEvents, Ok(())).is_ok());
    assert!(feed.finish_subscribe(FeedChannel::Pong, Ok(())).is_ok());
    let subs = feed.get_subscription_state();
    assert!(subs.fills && subs.user_events && subs.orders && !subs.positions);
    assert!(feed.finish_subscribe(FeedChannel::Positions, Ok(())).is_ok());
    assert!(feed.get_subscription_state().positions);

    let mut anonymous = TradingWebSocket::new_at(None, ApiConfig::default(), 0);
    assert!(anonymous.connect(Ok(()), 1).is_ok());
    assert_eq!(anonymous.subscription_request(FeedChannel::Orders).expect("a request").user, None);
}

#[test]
fn frames_are_read_answered_or_noted() {
    let mut feed = TradingWebSocket::new_at(None, ApiConfig::default(), 100);
    assert!(feed.connect(Ok(()), 100).is_ok());
    assert_eq!(feed.handle_message(FrameKind::Text, 200), FrameReply::ReadText);
    assert_eq!(feed.handle_message(FrameKind::Ping, 201), FrameReply::SendPong);
    assert_eq!(feed.handle_message(FrameKind::Binary, 202), FrameReply::Nothing);
    assert_eq!(feed.handle_message(FrameKind::Continuation, 203), FrameReply::Nothing);
    assert_eq!(feed.last_heartbeat, 100);
    assert!(feed.is_connected());
    assert_eq!(feed.handle_message(FrameKind::Pong, 204), FrameReply::Nothing);
    assert_eq!(feed.last_heartbeat, 204);
    assert!(feed.is_connected());
    assert_eq!(feed.handle_message(FrameKind::Close, 205), FrameReply::Nothing);
    assert!(matches!(feed.get_connection_state(), ConnectionState::Disconnected));
    assert_eq!(feed.last_heartbeat, 204);
    assert!(feed.drain_events().is_empty());
}

#[test]
fn messages_become_events_in_their_order() {
    let mut feed = TradingWebSocket::new_at(None, ApiConfig::default(), 100);
    feed.process_trading_message(FeedMessage::Fill(a_fill(9)), 1);
    feed.process_trading_message(FeedMessage::Other, 2);
    feed.process_trading_message(
        FeedMessage::Order(HyperLiquidOrderStatus {
            rest: Some(resting(3, "1.5", "99", 11)),
            filled: Some(filled(3, "3.5", "99.5", 12)),
        }),
        3,
    );
    feed.process_trading_message(
        FeedMessage::Order(HyperLiquidOrderStatus { rest: None, filled: None }),
        4,
    );
    feed.process_trading_message(FeedMessage::Position(reported("ETH", "-2", "1800", "4.5")), 5);
    assert_eq!(feed.last_heartbeat, 100);
    feed.process_trading_message(FeedMessage::Pong, 6);
    assert_eq!(feed.last_heartbeat, 6);

    let events = feed.drain_events();
    assert_eq!(events.len(), 4);
    match &events[0] {
        ApiEvent::Fill { order_id, fill_size, fill_price, fee, timestamp } => {
            assert_eq!((*order_id, *timestamp), (9, 777));
            assert_eq!((fill_size.as_str(), fill_price.as_str(), fee.as_str()), ("0.25", "101.5", "0.01"));
        }
        other => panic!("unexpected {:?}", other),
    }
    match &events[1] {
        ApiEvent::OrderUpdate { order_id, status, filled_size, remaining_size, price, timestamp } => {
            assert_eq!((*order_id, *timestamp), (3, 11));
            assert_eq!(status, "rest");
            assert_eq!((filled_size.as_str(), remaining_size.as_str(), price.as_str()), ("0", "1.5", "99"));
        }
        other => panic!("unexpected {:?}", other),
    }
    match &events[2] {
        ApiEvent::OrderUpdate { order_id, status, filled_size, remaining_size, price, timestamp } => {
            assert_eq!((*order_id, *timestamp), (3, 12));
            assert_eq!(status, "filled");
            assert_eq!((filled_size.as_str(), remaining_size.as_str(), price.as_str()), ("3.5", "0", "99.5"));
        }
        other => panic!("unexpected {:?}", other),
    }
    match &events[3] {
        ApiEvent::PositionUpdate { coin, size, entry_price, unrealized_pnl } => {
            assert_eq!((coin.as_str(), size.as_str()), ("ETH", "-2"));
            assert_eq!((entry_price.as_str(), unrealized_pnl.as_str()), ("1800", "4.5"));
        }
        other => panic!("unexpected {:?}", other),
    }
    assert!(feed.drain_events().is_empty());
}

#[test]
fn lost_heartbeat_puts_the_feed_in_error_once_a_minute_has_passed() {
    let mut feed = TradingWebSocket::new_at(None, ApiConfig::default(), 1_000);
    assert!(feed.connect(Ok(()), 1_000).is_ok());
    assert!(!feed.check_heartbeat(1_000));
    assert!(!feed.check_heartbeat(61_000));
    assert!(feed.is_connected());
    assert!(feed.drain_events().is_empty());
    assert!(feed.check_heartbeat(61_001));
    match feed.get_connection_state() {
        ConnectionState::Error(m) => assert_eq!(m, "Heartbeat timeout"),
        other => panic!("unexpected {:?}", other),
    }
    let events = feed.drain_events();
    assert_eq!(events.len(), 1);
    match &events[0] {
        ApiEvent::Error { error, timestamp } => {
            assert_eq!(error, "WebSocket heartbeat timeout");
            assert_eq!(*timestamp, 61_001);
        }
        other => panic!("unexpected {:?}", other),
    }
    assert_eq!(feed.last_heartbeat, 1_000);
}

#[test]
fn lost_feed_is_tried_anew_ten_times() {
    let mut feed = TradingWebSocket::new_at(None, ApiConfig::default(), 0);
    assert!(feed.connect(Ok(()), 0).is_ok());
    assert_eq!(feed.reconnect_tick(), ReconnectStep::Idle);
    feed.disconnect();
    for n in 1..=10u32 {
        assert_eq!(feed.reconnect_tick(), ReconnectStep::Attempt(n));
        assert!(matches!(feed.get_connection_state(), ConnectionState::Reconnecting));
        assert_eq!(feed.reconnect_tick(), ReconnectStep::Idle);
        feed.finish_reconnect(Err(format!("refused {}", n)));
        match feed.get_connection_state() {
            ConnectionState::Error(m) => assert_eq!(m, format!("refused {}", n)),
            other => panic!("unexpected {:?}", other),
        }
        assert_eq!(feed.reconnect_attempts, n);
    }
    assert_eq!(feed.reconnect_tick(), ReconnectStep::GiveUp);
    assert_eq!(feed.reconnect_attempts, 11);

    let mut feed = TradingWebSocket::new_at(None, ApiConfig::default(), 0);
    assert_eq!(feed.reconnect_tick(), ReconnectStep::Attempt(1));
    feed.finish_reconnect(Err("refused".to_string()));
    assert_eq!(feed.reconnect_tick(), ReconnectStep::Attempt(2));
    assert!(!feed.has_socket);
    feed.finish_reconnect(Ok(()));
    assert!(feed.is_connected());
    assert!(feed.has_socket);
    assert_eq!(feed.reconnect_attempts, 0);
    assert_eq!(feed.reconnect_tick(), ReconnectStep::Idle);
}

#[test]
fn account_amounts_are_read_from_a_state() {
    let info = HyperLiquidAccountInfo {
        margin_summary: summary("1234.5", "200.25"),
        open_orders: vec![resting(1, "1", "100", 5), resting(2, "2", "101", 6)],
        asset_positions: vec![
            reported("BTC", "1.5", "100", "3"),
            reported("BAD", "one", "100", "3"),
            reported("ETH", "-2", "50.5", "-1.25"),
            reported("WORSE", "1", "100", ""),
        ],
    };
    assert_eq!(AccountApi::get_balance(&info).expect("a balance"), ud("1234.5"));
    assert_eq!(AccountApi::get_margin_used(&info).expect("a margin"), ud("200.25"));

    let positions = AccountApi::get_positions(&info, 77);
    assert_eq!(positions.len(), 2);
    assert_eq!(positions[0].symbol, "BTC");
    assert_eq!(positions[0].size, ud("1.5"));
    assert_eq!(positions[0].entry_price, ud("100"));
    assert_eq!(positions[0].mark_price, ud("100"));
    assert_eq!(positions[0].unrealized_pnl.raw(), 30_000_000_000_000_000);
    assert!(positions[0].realized_pnl.is_zero());
    assert_eq!(positions[0].updated_at, 77);
    assert_eq!(positions[1].symbol, "ETH");
    assert_eq!(positions[1].size, ud("-2"));
    assert_eq!(positions[1].unrealized_pnl.raw(), -12_500_000_000_000_000);

    let bad = HyperLiquidAccountInfo {
        margin_summary: summary("lots", ""),
        open_orders: vec![],
        asset_positions: vec![],
    };
    match AccountApi::get_balance(&bad) {
        Err(ApiError::ParseError(m)) => assert_eq!(m, "Failed to parse balance"),
        other => panic!("unexpected {:?}", other),
    }
    match AccountApi::get_margin_used(&bad) {
        Err(ApiError::ParseError(m)) => assert_eq!(m, "Failed to parse margin used"),
        other => panic!("unexpected {:?}", other),
    }
    assert!(AccountApi::get_positions(&bad, 1).is_empty());

    let orders = AccountApi::get_open_orders(info);
    assert_eq!(orders.len(), 2);
    assert_eq!((orders[0].oid, orders[1].oid), (1, 2));

    assert_eq!(AccountApi::get_withdrawable(&user_state("12.5")).expect("an amount"), ud("12.5"));
    match AccountApi::get_withdrawable(&user_state("all")) {
        Err(ApiError::ParseError(m)) => assert_eq!(m, "Failed to parse withdrawable"),
        other => panic!("unexpected {:?}", other),
    }
}

#[test]
fn account_state_is_remembered() {
    let mut account = AccountApi::new_at(ApiConfig::default(), 10);
    assert!(account.get_cached_account_info().is_none());
    assert!(account.is_data_fresh_at(1, 10));
    account.absorb_account_info(
        HyperLiquidAccountInfo {
            margin_summary: summary("5", "1"),
            open_orders: vec![],
            asset_positions: vec![reported("BTC", "1", "100", "0")],
        },
        5_000,
    );
    let held = account.get_cached_account_info().expect("remembered");
    assert_eq!(held.margin_summary.account_value, "5");
    assert_eq!(held.asset_positions.len(), 1);
    assert!(account.is_data_fresh_at(1, 5_999));
    assert!(!account.is_data_fresh_at(1, 6_000));
    assert!(account.is_data_fresh_at(2, 6_000));
    assert!(!account.is_data_fresh_at(0, 5_000));
    assert!(account.is_data_fresh_at(1, 4_000));
    assert!(account.is_data_fresh(u64::MAX));
}

#[test]
fn withdrawable_answers_are_judged() {
    let ok = |state: Option<HyperLiquidUserState>, status: &str| {
        Ok(HyperLiquidUserStateResponse { status: status.to_string(), response: state })
    };
    match judge_withdrawable_response(false, "503 Service Unavailable", ok(None, "ok")) {
        Err(ApiError::NetworkError(m)) => {
            assert_eq!(m, "Withdrawable request failed with status: 503 Service Unavailable")
        }
        other => panic!("unexpected {:?}", other),
    }
    match judge_withdrawable_response(true, "200 OK", Err("bad json".to_string())) {
        Err(ApiError::ParseError(m)) => assert_eq!(m, "bad json"),
        other => panic!("unexpected {:?}", other),
    }
    match judge_withdrawable_response(true, "200 OK", ok(Some(user_state("1")), "err")) {
        Err(ApiError::NetworkError(m)) => assert_eq!(m, "Withdrawable response status not ok"),
        other => panic!("unexpected {:?}", other),
    }
    match judge_withdrawable_response(true, "200 OK", ok(None, "ok")) {
        Err(ApiError::ParseError(m)) => assert_eq!(m, "No user state in response"),
        other => panic!("unexpected {:?}", other),
    }
    match judge_withdrawable_response(true, "200 OK", ok(Some(user_state("x")), "ok")) {
        Err(ApiError::ParseError(m)) => assert_eq!(m, "Failed to parse withdrawable"),
        other => panic!("unexpected {:?}", other),
    }
    let amount = judge_withdrawable_response(true, "200 OK", ok(Some(user_state("7.25")), "ok"));
    assert_eq!(amount.expect("an amount"), ud("7.25"));
}

#[test]
fn fills_answers_are_judged() {
    let ok = |fills: Option<Vec<HyperLiquidFill>>, status: &str| {
        Ok(HyperLiquidFillsResponse { status: status.to_string(), response: fills })
    };
    match judge_fills_response(false, "500 Internal Server Error", ok(None, "ok")) {
        Err(ApiError::NetworkError(m)) => {
            assert_eq!(m, "Fills request failed with status: 500 Internal Server Error")
        }
        other => panic!("unexpected {:?}", other),
    }
    match judge_fills_response(true, "200 OK", Err("bad json".to_string())) {
        Err(ApiError::ParseError(m)) => assert_eq!(m, "bad json"),
        other => panic!("unexpected {:?}", other),
    }
    match judge_fills_response(true, "200 OK", ok(Some(vec![a_fill(1)]), "no")) {
        Err(ApiError::NetworkError(m)) => assert_eq!(m, "Fills response status not ok"),
        other => panic!("unexpected {:?}", other),
    }
    assert!(judge_fills_response(true, "200 OK", ok(None, "ok")).expect("fills").is_empty());
    let fills = judge_fills_response(true, "200 OK", ok(Some(vec![a_fill(1), a_fill(2)]), "ok"))
        .expect("fills");
    assert_eq!(fills.len(), 2);
    assert_eq!((fills[0].oid, fills[1].oid), (1, 2));
}

#[test]
fn authentication_answers_are_judged() {
    match judge_auth_response(false, "401 Unauthorized", Ok("ok".to_string())) {
        Err(ApiError::AuthenticationError(m)) => {
            assert_eq!(m, "Authentication failed with status: 401 Unauthorized")
        }
        other => panic!("unexpected {:?}", other),
    }
    match judge_auth_response(true, "200 OK", Err("bad json".to_string())) {
        Err(ApiError::ParseError(m)) => assert_eq!(m, "bad json"),
        other => panic!("unexpected {:?}", other),
    }
    match judge_auth_response(true, "200 OK", Ok("OK".to_string())) {
        Err(ApiError::AuthenticationError(m)) => {
            assert_eq!(m, "Authentication response status not ok")
        }
        other => panic!("unexpected {:?}", other),
    }
    assert!(judge_auth_response(true, "200 OK", Ok("ok".to_string())).is_ok());
}

#[test]
fn headers_name_the_content_and_the_account() {
    let auth = HyperLiquidAuth::new("key".to_string());
    assert_eq!(
        auth.get_headers(),
        vec![("Content-Type".to_string(), "application/json".to_string())]
    );
    let auth = auth.with_account_id(1_002_003);
    assert_eq!(
        auth.get_headers(),
        vec![
            ("Content-Type".to_string(), "application/json".to_string()),
            ("X-Account-Id".to_string(), "1002003".to_string()),
        ]
    );
    let zero = HyperLiquidAuth::new("key".to_string()).with_account_id(0);
    assert_eq!(zero.get_headers()[1].1, "0");
}

#[test]
fn signed_request_carries_action_body_and_signature() {
    let auth = HyperLiquidAuth::new("k".to_string());
    let request = auth.create_signed_request("info", "{\"a\":1}").expect("a request");
    assert_eq!(request.action, "info");
    assert_eq!(request.data, "{\"a\":1}");
    assert_eq!(request.signature, auth.sign_message("info{\"a\":1}").expect("a signature"));
    assert_eq!(request.signature.len(), 64);
    let fixed = auth.create_signed_request_with("info", "{\"a\":1}", 5).expect("a request");
    assert_eq!(fixed.signature, request.signature);
    assert_eq!(fixed.nonce, 5);
    assert!(request.nonce > 1_600_000_000_000);
}

#[test]
fn each_channel_is_subscribed_to_by_name() {
    let mut feed = TradingWebSocket::new_at(None, ApiConfig::default(), 0);
    assert!(feed.subscribe_to_user_events(Ok(())).is_ok());
    let subs = feed.get_subscription_state();
    assert!(subs.user_events && !subs.fills && !subs.orders && !subs.positions);
    assert!(feed.subscribe_to_fills(Ok(())).is_ok());
    let subs = feed.get_subscription_state();
    assert!(subs.user_events && subs.fills && !subs.orders && !subs.positions);
    assert!(same(&feed.subscribe_to_orders(Err("closed".to_string())), &Err(network("closed"))));
    assert!(!feed.get_subscription_state().orders);
    assert!(feed.subscribe_to_orders(Ok(())).is_ok());
    let subs = feed.get_subscription_state();
    assert!(subs.user_events && subs.fills && subs.orders && !subs.positions);
    assert!(same(&feed.subscribe_to_positions(Err("closed".to_string())), &Err(network("closed"))));
    assert!(feed.subscribe_to_positions(Ok(())).is_ok());
    let subs = feed.get_subscription_state();
    assert!(subs.user_events && subs.fills && subs.orders && subs.positions);
}
