use hyper_liquid_connector::api::auth::{encode, HyperLiquidAuth};
use hyper_liquid_connector::api::types::ApiConfig;
use hyper_liquid_connector::config::api_config::ApiConfigTemplate;
use hyper_liquid_connector::config::bot_config::{
    BotConfig, Environment, LoggingConfig, PerformanceConfig, RiskConfig, StrategyConfig,
    StrategyType,
};
use hyper_liquid_connector::config::risk_config::RiskConfigTemplate;
use hyper_liquid_connector::config::strategy_config::StrategyConfigTemplate;
use hyper_liquid_connector::datastructures::symbol_map::SymbolMap;
use hyper_liquid_connector::numeric::decimal::Decimal;
use hyper_liquid_connector::trading::types::RiskLimits;
use hyper_liquid_connector::utils::text::{join, starts_with, u64_to_text};
use hyper_liquid_connector::utils::ws_utils::{is_stale, HypeStreamRequest, Ping, SubscriptionType};

fn cd(text: &str) -> Decimal {
    Decimal::from_str(text).expect("a decimal")
}

fn bot_config() -> BotConfig {
    BotConfig {
        bot_id: "bot".to_string(),
        version: "1.0.0".to_string(),
        environment: Environment::Development,
        api_config: ApiConfig::default(),
        strategies: SymbolMap::new(),
        risk_config: RiskConfig::default(),
        logging_config: LoggingConfig::default(),
        performance_config: PerformanceConfig::default(),
        created_at: 0,
        updated_at: 0,
    }
}

fn strategy(name: &str, symbol: &str) -> StrategyConfig {
    StrategyConfig {
        name: name.to_string(),
        enabled: true,
        symbol: symbol.to_string(),
        strategy_type: StrategyType::MarketMaking,
        config: "{}".to_string(),
        risk_limits: RiskLimits::default(),
    }
}

#[test]
fn hex_encoding_is_lower_case_two_digits_a_byte() {
    assert_eq!(encode(&[]), "");
    assert_eq!(encode(&[0x00, 0x0f, 0x10, 0xab, 0xff]), "000f10abff");
    assert_eq!(encode(&[0x01, 0x23, 0x45, 0x67, 0x89, 0xcd, 0xef]), "0123456789cdef");
}

#[test]
fn signature_is_sha256_of_message_and_key() {
    let auth = HyperLiquidAuth::new("".to_string());
    assert!(!auth.is_authenticated());
    // SHA-256 of "abc"
    assert_eq!(
        auth.sign_message("abc").unwrap(),
        "ba7816bf8f01cfea414140de5dae2223b00361a396177a9cb410ff61f20015ad"
    );
    // the key follows the message: "ab" under the key "c" is the same digest
    let keyed = HyperLiquidAuth::new("c".to_string()).with_account_id(7);
    assert!(keyed.is_authenticated());
    assert_eq!(keyed.account_id, Some(7));
    assert_eq!(
        keyed.sign_message("ab").unwrap(),
        "ba7816bf8f01cfea414140de5dae2223b00361a396177a9cb410ff61f20015ad"
    );
    // SHA-256 of the empty string
    assert_eq!(
        auth.sign_message("").unwrap(),
        "e3b0c44298fc1c149afbf4c8996fb92427ae41e4649b934ca495991b7852b855"
    );
    let request = keyed.create_signed_request_with("a", "b", 99).unwrap();
    assert_eq!(request.action, "a");
    assert_eq!(request.data, "b");
    assert_eq!(request.nonce, 99);
    assert_eq!(
        request.signature,
        "ba7816bf8f01cfea414140de5dae2223b00361a396177a9cb410ff61f20015ad"
    );
    // 2020-01-01 in milliseconds
    assert!(auth.get_nonce() > 1_577_836_800_000);
    assert_eq!(keyed.clone().private_key, "c");
}

#[test]
fn api_config_templates() {
    let dev = ApiConfigTemplate::development();
    assert_eq!(dev.name, "Development");
    assert_eq!(dev.description, "Development environment configuration");
    assert_eq!(dev.environment, "development");
    assert_eq!(dev.config.base_url, "https://api.hyperliquid-testnet.xyz");
    assert_eq!(dev.config.ws_url, "wss://api.hyperliquid-testnet.xyz/ws");
    assert_eq!((dev.config.timeout_ms, dev.config.max_retries, dev.config.retry_delay_ms), (10000, 5, 2000));
    let staging = ApiConfigTemplate::staging();
    assert_eq!(staging.name, "Staging");
    assert_eq!(staging.config.base_url, "https://api.hyperliquid.xyz");
    assert_eq!(
        (staging.config.timeout_ms, staging.config.max_retries, staging.config.retry_delay_ms),
        (5000, 3, 1000)
    );
    let prod = ApiConfigTemplate::production();
    assert_eq!(prod.name, "Production");
    assert_eq!(prod.environment, "production");
    assert_eq!((prod.config.timeout_ms, prod.config.max_retries, prod.config.retry_delay_ms), (3000, 2, 500));
    let all = ApiConfigTemplate::get_all_templates();
    assert_eq!(all.len(), 3);
    assert_eq!(all.get("development").unwrap().config.max_retries, 5);
    assert_eq!(all.get("staging").unwrap().name, "Staging");
    assert_eq!(all.get("production").unwrap().config.retry_delay_ms, 500);
    assert!(all.get("test").is_none());
    assert_eq!(dev.clone().name, "Development");
}

#[test]
fn risk_config_templates() {
    let c = RiskConfigTemplate::conservative();
    assert_eq!(c.name, "Conservative");
    assert_eq!(c.description, "Conservative risk limits for low-risk trading");
    assert_eq!(c.risk_limits.max_position_size.raw(), cd("10").raw());
    assert_eq!(c.risk_limits.max_daily_loss.raw(), cd("100").raw());
    assert_eq!(c.risk_limits.max_order_size.raw(), cd("1").raw());
    assert_eq!(c.risk_limits.max_orders_per_side, 3);
    let p = c.position_limits.get("HYPE").unwrap();
    assert_eq!((p.max_long.raw(), p.max_short.raw(), p.max_net.raw()), (cd("10").raw(), cd("10").raw(), cd("5").raw()));
    let e = c.exposure_limits.get("HYPE").unwrap();
    assert_eq!((e.max_notional.raw(), e.max_leverage.raw()), (cd("1000").raw(), cd("2").raw()));
    let v = c.volatility_limits.get("HYPE").unwrap();
    assert_eq!((v.max_spread_bps, v.max_price_change_bps), (50, 100));
    let m = RiskConfigTemplate::moderate();
    assert_eq!(m.name, "Moderate");
    assert_eq!(m.risk_limits.max_daily_loss.raw(), cd("500").raw());
    assert_eq!(m.position_limits.get("HYPE").unwrap().max_net.raw(), cd("25").raw());
    assert_eq!(m.exposure_limits.get("HYPE").unwrap().max_leverage.raw(), cd("5").raw());
    assert_eq!(m.volatility_limits.get("HYPE").unwrap().max_price_change_bps, 200);
    let a = RiskConfigTemplate::aggressive();
    assert_eq!(a.name, "Aggressive");
    assert_eq!(a.risk_limits.max_orders_per_side, 10);
    assert_eq!(a.position_limits.get("HYPE").unwrap().max_long.raw(), cd("100").raw());
    assert_eq!(a.exposure_limits.get("HYPE").unwrap().max_notional.raw(), cd("10000").raw());
    assert_eq!(a.volatility_limits.get("HYPE").unwrap().max_spread_bps, 200);
    let all = RiskConfigTemplate::get_all_templates();
    assert_eq!(all.len(), 3);
    assert_eq!(all.get("moderate").unwrap().name, "Moderate");
    assert_eq!(all.key_at(0).as_str(), "conservative");
    assert_eq!(all.key_at(2).as_str(), "aggressive");
}

#[test]
fn strategy_config_template() {
    let t = StrategyConfigTemplate::market_making();
    assert_eq!(t.name, "Market Making");
    assert_eq!(t.strategy_type, "MarketMaking");
    assert_eq!(t.required_fields, vec!["symbol", "spread_bps", "order_size"]);
    assert_eq!(
        t.optional_fields,
        vec![
            "max_orders_per_side",
            "inventory_target",
            "inventory_skew_factor",
            "min_edge_bps",
            "order_refresh_interval_ms"
        ]
    );
    assert!(t.default_config.is_empty());
}

#[test]
fn config_validation_reports_the_first_fault() {
    let mut config = bot_config();
    assert!(config.validate_config().is_ok());
    config.strategies.insert("a".to_string(), strategy("alpha", "BTC"));
    config.strategies.insert("b".to_string(), strategy("", "BTC"));
    config.strategies.insert("c".to_string(), strategy("gamma", ""));
    assert_eq!(
        config.validate_config(),
        Err("Strategy name cannot be empty for strategy: b".to_string())
    );
    config.strategies.insert("b".to_string(), strategy("beta", "ETH"));
    assert_eq!(
        config.validate_config(),
        Err("Strategy symbol cannot be empty for strategy: c".to_string())
    );
    config.strategies.insert("c".to_string(), strategy("gamma", "SOL"));
    assert!(config.validate_config().is_ok());
    config.risk_config.global_risk_limits.max_daily_loss = cd("0");
    assert_eq!(
        config.validate_config(),
        Err("Global max daily loss must be positive".to_string())
    );
    config.risk_config.global_risk_limits.max_position_size = cd("-1");
    assert_eq!(
        config.validate_config(),
        Err("Global max position size must be positive".to_string())
    );
    config.api_config.base_url = String::new();
    assert_eq!(config.validate_config(), Err("API base URL cannot be empty".to_string()));
}

#[test]
fn config_defaults() {
    let logging = LoggingConfig::default();
    assert_eq!(logging.level, "info");
    assert_eq!(logging.file_path.as_deref(), Some("logs/bot.log"));
    assert_eq!(logging.max_file_size_mb, 100);
    assert_eq!(logging.max_files, 10);
    assert!(logging.enable_console && logging.enable_file);
    let perf = PerformanceConfig::default();
    assert_eq!(perf.max_memory_mb, 1024);
    assert_eq!(perf.gc_interval_seconds, 300);
    assert_eq!(perf.metrics_interval_seconds, 60);
    assert!(!perf.enable_profiling);
    assert_eq!(perf.thread_pool_size, 4);
    let risk = RiskConfig::default();
    assert_eq!(risk.position_limits.len(), 0);
    assert!(risk.circuit_breakers.is_empty());
    assert_eq!(risk.global_risk_limits.max_orders_per_side, 5);
}

#[test]
fn text_helpers() {
    assert_eq!(u64_to_text(0), "0");
    assert_eq!(u64_to_text(7), "7");
    assert_eq!(u64_to_text(10), "10");
    assert_eq!(u64_to_text(1_700_000_000_123), "1700000000123");
    assert_eq!(u64_to_text(u64::MAX), "18446744073709551615");
    assert_eq!(join("ab", "cd"), "abcd");
    assert_eq!(join("", ""), "");
    assert!(starts_with("risk.BTC", "risk"));
    assert!(starts_with("risk", "risk"));
    assert!(starts_with("risk", ""));
    assert!(!starts_with("ris", "risk"));
    assert!(!starts_with("orders", "risk"));
}

#[test]
fn feed_requests() {
    assert_eq!(Ping::ping().method, "ping ");
    let request = HypeStreamRequest::subscribe_payload("l2Book", "HYPE");
    assert_eq!(request.method, "subscribe");
    match request.subscription {
        SubscriptionType::L2Book(book) => {
            assert_eq!(book.type_field, "l2Book");
            assert_eq!(book.coin, "HYPE");
        }
    }
    assert!(!is_stale(70));
    assert!(is_stale(71));
}

#[test]
fn nonce_is_the_time_in_milliseconds_and_never_below_zero() {
    assert_eq!(HyperLiquidAuth::nonce_at(0), 0);
    assert_eq!(HyperLiquidAuth::nonce_at(-1), 0);
    assert_eq!(HyperLiquidAuth::nonce_at(i64::MIN), 0);
    assert_eq!(HyperLiquidAuth::nonce_at(1_700_000_000_123), 1_700_000_000_123);
    assert_eq!(HyperLiquidAuth::nonce_at(i64::MAX), i64::MAX as u64);
    let auth = HyperLiquidAuth::new("key".to_string());
    let nonce = auth.get_nonce();
    assert!(nonce > 1_577_836_800_000);
    assert!(nonce <= i64::MAX as u64);
}

#[test]
fn strategy_templates_are_kept_under_the_name_of_their_kind() {
    let all = StrategyConfigTemplate::get_all_templates();
    assert_eq!(all.len(), 1);
    assert_eq!(all.key_at(0), "market_making");
    let template = all.get("market_making").expect("the template");
    assert_eq!(template.name, "Market Making");
    assert_eq!(
        template.description,
        "Provides liquidity by placing buy and sell orders around the current market price"
    );
    assert_eq!(template.strategy_type, "MarketMaking");
    assert_eq!(template.required_fields, vec!["symbol", "spread_bps", "order_size"]);
    assert_eq!(template.optional_fields.len(), 5);
    assert!(template.default_config.is_empty());
}
