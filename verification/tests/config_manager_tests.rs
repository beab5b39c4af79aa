use hyper_liquid_connector::api::types::ApiConfig;
use hyper_liquid_connector::config::bot_config::{
    BotConfig, CircuitBreakerConfig, ConfigEvent, ConfigManager, ConfigWatcher, Environment,
    ExposureLimitConfig, PositionLimitConfig, RiskConfig, StrategyConfig, StrategyType,
    VolatilityLimitConfig,
};
use hyper_liquid_connector::datastructures::symbol_map::SymbolMap;
use hyper_liquid_connector::numeric::decimal::Decimal;
use hyper_liquid_connector::trading::risk_types::CircuitBreakerType;
use hyper_liquid_connector::trading::types::RiskLimits;

fn md(text: &str) -> Decimal {
    Decimal::from_str(text).expect("a decimal")
}

fn momentum(name: &str, symbol: &str, enabled: bool) -> StrategyConfig {
    StrategyConfig {
        name: name.to_string(),
        enabled,
        symbol: symbol.to_string(),
        strategy_type: StrategyType::Momentum,
        config: "{\"window\":5}".to_string(),
        risk_limits: RiskLimits::default(),
    }
}

fn watcher(id: &str, section: &str) -> ConfigWatcher {
    ConfigWatcher { id: id.to_string(), section: section.to_string(), callback: "log".to_string() }
}

fn change_of(event: &ConfigEvent) -> (String, String, i64) {
    match event {
        ConfigEvent::ConfigChanged { section, key, timestamp } => {
            (section.clone(), key.clone(), *timestamp)
        }
        other => panic!("not a change: {:?}", other),
    }
}

#[test]
fn symbol_store_removes_and_keeps_the_order_of_the_rest() {
    let mut store: SymbolMap<u32> = SymbolMap::new();
    store.insert("a".to_string(), 1);
    store.insert("b".to_string(), 2);
    store.insert("c".to_string(), 3);
    store.insert("d".to_string(), 4);
    assert_eq!(store.remove("b"), Some(2));
    assert_eq!(store.remove("b"), None);
    assert_eq!(store.remove("zz"), None);
    assert_eq!(store.len(), 3);
    assert_eq!(store.key_at(0), "a");
    assert_eq!(store.key_at(1), "c");
    assert_eq!(store.key_at(2), "d");
    assert_eq!(store.get("a"), Some(&1));
    assert_eq!(store.get("b"), None);
    assert_eq!(store.get("c"), Some(&3));
    assert_eq!(store.get("d"), Some(&4));
    assert_eq!(store.find("d"), Some(2));
    store.insert("b".to_string(), 20);
    assert_eq!(store.find("b"), Some(3));
    assert_eq!(store.remove("a"), Some(1));
    assert_eq!(store.find("c"), Some(0));
    assert_eq!(store.find("d"), Some(1));
    assert_eq!(store.find("b"), Some(2));
    assert_eq!(store.remove("b"), Some(20));
    assert_eq!(store.remove("c"), Some(3));
    assert_eq!(store.remove("d"), Some(4));
    assert_eq!(store.len(), 0);
    assert_eq!(store.get("d"), None);
}

#[test]
fn settings_begin_with_defaults() {
    let config = BotConfig::new_with("bot-7".to_string(), 1234);
    assert_eq!(config.bot_id, "bot-7");
    assert_eq!(config.version, "1.0.0");
    assert_eq!(config.environment, Environment::Development);
    assert_eq!(config.api_config.base_url, "https://api.hyperliquid.xyz");
    assert_eq!(config.api_config.max_retries, 3);
    assert_eq!(config.strategies.len(), 0);
    assert_eq!(config.risk_config.circuit_breakers.len(), 0);
    assert_eq!(config.created_at, 1234);
    assert_eq!(config.updated_at, 1234);
    assert!(config.validate_config().is_ok());

    let fresh = BotConfig::default();
    assert_eq!(fresh.bot_id.len(), 36);
    assert_eq!(fresh.created_at, fresh.updated_at);
    assert_ne!(BotConfig::default().bot_id, fresh.bot_id);
}

#[test]
fn manager_begins_without_file_and_saves_of_itself() {
    let manager = ConfigManager::new_at("bot".to_string(), 5);
    assert_eq!(manager.get_config_id(), "bot");
    assert!(manager.file_path.is_none());
    assert!(manager.auto_save);
    assert_eq!(manager.save_interval_ms, 30_000);
    assert!(manager.events.is_empty());
    assert_eq!(manager.auto_save_path(), None);

    let manager = manager.with_file_path("bot.toml".to_string());
    assert_eq!(manager.auto_save_path(), Some(&"bot.toml".to_string()));
    let manager = manager.with_auto_save(false, 100);
    assert_eq!(manager.save_interval_ms, 100);
    assert_eq!(manager.auto_save_path(), None);
    assert_eq!(manager.file_path, Some("bot.toml".to_string()));

    let other = ConfigManager::default();
    assert_eq!(other.get_config_id().len(), 36);
}

#[test]
fn strategy_settings_are_set_and_told_of() {
    let mut manager = ConfigManager::new_at("bot".to_string(), 5);
    assert!(manager.get_strategy_config("m1").is_none());
    manager.update_strategy_config_at("m1", momentum("m1", "BTC", true), 10);
    manager.update_strategy_config_at("m2", momentum("m2", "ETH", false), 11);
    assert_eq!(manager.get_config().updated_at, 11);
    assert_eq!(manager.get_config().created_at, 5);
    let held = manager.get_strategy_config("m1").expect("held");
    assert_eq!(held.symbol, "BTC");
    assert!(held.enabled);
    assert_eq!(held.config, "{\"window\":5}");
    assert_eq!(manager.get_strategy_config("m2").expect("held").symbol, "ETH");

    manager.update_strategy_config_at("m1", momentum("m1", "SOL", true), 12);
    assert_eq!(manager.get_config().strategies.len(), 2);
    assert_eq!(manager.get_strategy_config("m1").expect("held").symbol, "SOL");

    let events = manager.drain_events();
    assert_eq!(events.len(), 3);
    assert_eq!(change_of(&events[0]), ("strategies".to_string(), "m1".to_string(), 10));
    assert_eq!(change_of(&events[1]), ("strategies".to_string(), "m2".to_string(), 11));
    assert_eq!(change_of(&events[2]), ("strategies".to_string(), "m1".to_string(), 12));
    assert!(manager.drain_events().is_empty());

    assert!(manager.update_strategy_config("m3", momentum("m3", "XRP", true)).is_ok());
    assert_eq!(manager.get_config().strategies.len(), 3);
    assert_eq!(manager.drain_events().len(), 1);
}

#[test]
fn strategies_are_enabled_and_disabled_in_place() {
    let mut manager = ConfigManager::new_at("bot".to_string(), 5);
    manager.update_strategy_config_at("m1", momentum("m1", "BTC", true), 10);
    manager.update_strategy_config_at("m2", momentum("m2", "ETH", true), 11);
    let _ = manager.drain_events();

    manager.set_strategy_enabled_at("m1", false, 20);
    let m1 = manager.get_strategy_config("m1").expect("held");
    assert!(!m1.enabled);
    assert_eq!(m1.symbol, "BTC");
    assert_eq!(m1.strategy_type, StrategyType::Momentum);
    assert!(manager.get_strategy_config("m2").expect("held").enabled);
    assert_eq!(manager.get_config().updated_at, 20);

    manager.set_strategy_enabled_at("nobody", false, 21);
    assert_eq!(manager.get_config().strategies.len(), 2);
    assert_eq!(manager.get_config().updated_at, 21);

    manager.set_strategy_enabled_at("m1", true, 22);
    assert!(manager.get_strategy_config("m1").expect("held").enabled);

    let events = manager.drain_events();
    assert_eq!(events.len(), 3);
    for (event, at) in events.iter().zip([20, 21, 22]) {
        assert_eq!(change_of(event), ("global".to_string(), "updated_at".to_string(), at));
    }
}

#[test]
fn default_market_making_strategy_is_named_after_its_symbol() {
    let mut manager = ConfigManager::new_at("bot".to_string(), 5);
    manager.create_default_market_making_strategy_at(
        "HYPE".to_string(),
        "{\"spread_bps\":20}".to_string(),
        30,
    );
    let held = manager.get_strategy_config("market_making_HYPE").expect("held");
    assert_eq!(held.name, "market_making_HYPE");
    assert_eq!(held.symbol, "HYPE");
    assert!(held.enabled);
    assert_eq!(held.strategy_type, StrategyType::MarketMaking);
    assert_eq!(held.config, "{\"spread_bps\":20}");
    assert_eq!(held.risk_limits.max_orders_per_side, 5);
    let events = manager.drain_events();
    assert_eq!(events.len(), 1);
    assert_eq!(
        change_of(&events[0]),
        ("strategies".to_string(), "market_making_HYPE".to_string(), 30)
    );
    assert!(manager.validate_config().is_ok());
}

#[test]
fn sections_are_replaced_and_told_of() {
    let mut manager = ConfigManager::new_at("bot".to_string(), 5);
    let api = ApiConfig {
        base_url: "https://example.test".to_string(),
        ws_url: "wss://example.test/ws".to_string(),
        timeout_ms: 1,
        max_retries: 9,
        retry_delay_ms: 2,
    };
    manager.update_api_config_at(api, 40);
    assert_eq!(manager.get_api_config().base_url, "https://example.test");
    assert_eq!(manager.get_api_config().max_retries, 9);

    let mut risk = RiskConfig::default();
    risk.global_risk_limits.max_orders_per_side = 7;
    manager.update_risk_config_at(risk, 41);
    assert_eq!(manager.get_risk_config().global_risk_limits.max_orders_per_side, 7);
    assert_eq!(manager.get_config().updated_at, 41);

    let mut next = BotConfig::new_with("other".to_string(), 1);
    next.api_config.base_url = String::new();
    manager.update_config_at(next, 42);
    assert_eq!(manager.get_config_id(), "other");
    assert_eq!(manager.get_config().created_at, 1);
    assert_eq!(manager.get_config().updated_at, 42);
    assert_eq!(manager.validate_config(), Err("API base URL cannot be empty".to_string()));

    let events = manager.drain_events();
    assert_eq!(events.len(), 3);
    assert_eq!(change_of(&events[0]), ("api".to_string(), "api_config".to_string(), 40));
    assert_eq!(change_of(&events[1]), ("risk".to_string(), "risk_config".to_string(), 41));
    assert_eq!(change_of(&events[2]), ("global".to_string(), "updated_at".to_string(), 42));

    assert!(manager.update_api_config(ApiConfig::default()).is_ok());
    assert!(manager.update_risk_config(RiskConfig::default()).is_ok());
    assert!(manager.update_config(BotConfig::new_with("third".to_string(), 2)).is_ok());
    assert_eq!(manager.get_config_id(), "third");
    assert_eq!(manager.drain_events().len(), 3);
}

#[test]
fn loading_and_saving_are_told_of() {
    let mut manager = ConfigManager::new_at("bot".to_string(), 5);
    manager.take_loaded_at(BotConfig::new_with("loaded".to_string(), 1), 50);
    manager.note_saved_at(51);
    manager.note_save_failed_at("disk full", 52);
    assert_eq!(manager.get_config_id(), "loaded");
    let events = manager.drain_events();
    assert_eq!(events.len(), 3);
    match &events[0] {
        ConfigEvent::ConfigLoaded { config_id, timestamp } => {
            assert_eq!(config_id, "loaded");
            assert_eq!(*timestamp, 50);
        }
        other => panic!("unexpected {:?}", other),
    }
    match &events[1] {
        ConfigEvent::ConfigSaved { config_id, timestamp } => {
            assert_eq!(config_id, "loaded");
            assert_eq!(*timestamp, 51);
        }
        other => panic!("unexpected {:?}", other),
    }
    match &events[2] {
        ConfigEvent::ConfigError { error, timestamp } => {
            assert_eq!(error, "Auto-save failed: disk full");
            assert_eq!(*timestamp, 52);
        }
        other => panic!("unexpected {:?}", other),
    }
}

#[test]
fn watchers_come_and_go() {
    let mut manager = ConfigManager::new_at("bot".to_string(), 5);
    manager.add_config_watcher(watcher("w1", "risk"));
    manager.add_config_watcher(watcher("w2", "api"));
    manager.add_config_watcher(watcher("w1", "strategies"));
    assert_eq!(manager.watchers.len(), 2);
    assert_eq!(manager.watchers.get("w1").expect("held").section, "strategies");
    manager.remove_config_watcher("w1");
    assert_eq!(manager.watchers.len(), 1);
    assert!(manager.watchers.get("w1").is_none());
    assert_eq!(manager.watchers.get("w2").expect("held").section, "api");
    manager.remove_config_watcher("w1");
    assert_eq!(manager.watchers.len(), 1);
    assert!(manager.drain_events().is_empty());
}

#[test]
fn limit_settings_become_limits_with_nothing_used() {
    let position =
        PositionLimitConfig { max_long: md("10"), max_short: md("5"), max_net: md("7.5") };
    let limit = position.to_limit("BTC");
    assert_eq!(limit.symbol, "BTC");
    assert_eq!(limit.max_long, md("10"));
    assert_eq!(limit.max_short, md("5"));
    assert_eq!(limit.max_net, md("7.5"));
    assert!(limit.current_long.is_zero() && limit.current_short.is_zero());
    assert!(limit.current_net.is_zero());

    let exposure = ExposureLimitConfig { max_notional: md("2500.5"), max_leverage: md("3") };
    let limit = exposure.to_limit("ETH");
    assert_eq!(limit.symbol, "ETH");
    assert_eq!(limit.max_notional.raw(), 25_005_000_000_000_000_000);
    assert!(limit.current_notional.is_zero());
    assert_eq!(limit.max_leverage, md("3"));
    assert!(limit.current_leverage.is_zero());

    let volatility = VolatilityLimitConfig { max_spread_bps: 50, max_price_change_bps: 200 };
    let limit = volatility.to_limit("SOL");
    assert_eq!(limit.symbol, "SOL");
    assert_eq!(limit.max_spread_bps, 50);
    assert_eq!(limit.max_price_change_bps, 200);
    assert_eq!(limit.current_spread_bps, 0);
    assert_eq!(limit.price_change_bps, 0);
    assert!(limit.last_price.is_zero());
}

#[test]
fn breaker_settings_become_breakers() {
    let names = [
        ("MaxDailyLoss", CircuitBreakerType::MaxDailyLoss),
        ("MaxPositionSize", CircuitBreakerType::MaxPositionSize),
        ("MaxExposure", CircuitBreakerType::MaxExposure),
        ("MaxVolatility", CircuitBreakerType::MaxVolatility),
        ("MaxTradesPerMinute", CircuitBreakerType::MaxTradesPerMinute),
        ("MaxOrdersPerSecond", CircuitBreakerType::MaxOrdersPerSecond),
    ];
    for (name, kind) in names {
        let settings = CircuitBreakerConfig {
            id: "cb".to_string(),
            symbol: "BTC".to_string(),
            trigger_type: name.to_string(),
            threshold: md("12.5"),
            cooldown_seconds: 90,
        };
        let breaker = settings.to_breaker().expect("a breaker");
        assert_eq!(breaker.id, "cb");
        assert_eq!(breaker.symbol, "BTC");
        assert_eq!(breaker.trigger_type, kind);
        assert_eq!(breaker.threshold, md("12.5"));
        assert!(breaker.current_value.is_zero());
        assert!(!breaker.is_triggered);
        assert_eq!(breaker.triggered_at, None);
        assert_eq!(breaker.cooldown_duration, 90_000);
    }
    let unknown = CircuitBreakerConfig {
        id: "cb".to_string(),
        symbol: "BTC".to_string(),
        trigger_type: "maxdailyloss".to_string(),
        threshold: md("1"),
        cooldown_seconds: 1,
    };
    assert!(unknown.to_breaker().is_none());
    let long = CircuitBreakerConfig {
        id: "cb".to_string(),
        symbol: "BTC".to_string(),
        trigger_type: "MaxExposure".to_string(),
        threshold: md("1"),
        cooldown_seconds: u64::MAX / 1000 + 1,
    };
    assert_eq!(long.to_breaker().expect("a breaker").cooldown_duration, u64::MAX);
    let edge = CircuitBreakerConfig {
        id: "cb".to_string(),
        symbol: "BTC".to_string(),
        trigger_type: "MaxExposure".to_string(),
        threshold: md("1"),
        cooldown_seconds: u64::MAX / 1000,
    };
    assert_eq!(
        edge.to_breaker().expect("a breaker").cooldown_duration,
        (u64::MAX / 1000) * 1000
    );
}

#[test]
fn default_market_making_strategy_is_entered_now() {
    let mut manager = ConfigManager::new_at("bot".to_string(), 5);
    assert!(manager
        .create_default_market_making_strategy("BTC".to_string(), "{}".to_string())
        .is_ok());
    let held = manager.get_strategy_config("market_making_BTC").expect("held");
    assert_eq!(held.symbol, "BTC");
    assert_eq!(held.config, "{}");
    assert!(manager.get_config().updated_at > 1_577_836_800_000);
    let events = manager.drain_events();
    assert_eq!(events.len(), 1);
    let (section, key, at) = change_of(&events[0]);
    assert_eq!((section.as_str(), key.as_str()), ("strategies", "market_making_BTC"));
    assert_eq!(at, manager.get_config().updated_at);
}
