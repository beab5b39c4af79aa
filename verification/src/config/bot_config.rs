//! The settings of the engine as a whole, and what makes them valid.

use crate::api::types::ApiConfig;
use crate::clock::{fresh_uuid, utc_now_millis, uuid_string};
use crate::datastructures::symbol_map::{same_text, SymbolMap};
use crate::numeric::decimal::{Decimal, Notional, DECIMAL_SCALE};
use crate::trading::risk_types::{
    CircuitBreaker, CircuitBreakerType, ExposureLimit, PositionLimit, VolatilityLimit,
};
use crate::trading::types::RiskLimits;
use crate::utils::text::join;
use vstd::prelude::*;
use vstd::string::StrSliceExecFns;
use vstd::string::StringExecFns;

verus! {

#[derive(Debug, Clone, Copy, PartialEq, Eq, Structural)]
pub enum Environment {
    Development,
    Staging,
    Production,
}

#[derive(Debug, Clone, Copy, PartialEq, Eq, Structural)]
pub enum StrategyType {
    MarketMaking,
    Arbitrage,
    Momentum,
    MeanReversion,
}

/// The settings of one strategy; `config` holds those of its kind as JSON text.
#[derive(Debug)]
pub struct StrategyConfig {
    pub name: String,
    pub enabled: bool,
    pub symbol: String,
    pub strategy_type: StrategyType,
    pub config: String,
    pub risk_limits: RiskLimits,
}

impl Clone for StrategyConfig {
    fn clone(&self) -> (r: Self)
        ensures
            r == *self,
    {
        StrategyConfig {
            name: self.name.clone(),
            enabled: self.enabled,
            symbol: self.symbol.clone(),
            strategy_type: self.strategy_type,
            config: self.config.clone(),
            risk_limits: self.risk_limits,
        }
    }
}

#[derive(Debug, Clone, Copy)]
pub struct PositionLimitConfig {
    pub max_long: Decimal,
    pub max_short: Decimal,
    pub max_net: Decimal,
}

#[derive(Debug, Clone, Copy)]
pub struct ExposureLimitConfig {
    pub max_notional: Decimal,
    pub max_leverage: Decimal,
}

#[derive(Debug, Clone, Copy)]
pub struct VolatilityLimitConfig {
    pub max_spread_bps: u32,
    pub max_price_change_bps: u32,
}

#[derive(Debug, Clone)]
pub struct CircuitBreakerConfig {
    pub id: String,
    pub symbol: String,
    pub trigger_type: String,
    pub threshold: Decimal,
    pub cooldown_seconds: u64,
}

/// The kind of breaker that a name in the settings stands for.
pub open spec fn breaker_type_of(name: Seq<char>) -> Option<CircuitBreakerType> {
    if name == "MaxDailyLoss"@ {
        Some(CircuitBreakerType::MaxDailyLoss)
    } else if name == "MaxPositionSize"@ {
        Some(CircuitBreakerType::MaxPositionSize)
    } else if name == "MaxExposure"@ {
        Some(CircuitBreakerType::MaxExposure)
    } else if name == "MaxVolatility"@ {
        Some(CircuitBreakerType::MaxVolatility)
    } else if name == "MaxTradesPerMinute"@ {
        Some(CircuitBreakerType::MaxTradesPerMinute)
    } else if name == "MaxOrdersPerSecond"@ {
        Some(CircuitBreakerType::MaxOrdersPerSecond)
    } else {
        None
    }
}

/// Seconds in milliseconds, or the largest number where there are too many.
pub open spec fn seconds_in_millis(seconds: u64) -> u64 {
    if seconds <= u64::MAX / 1000 {
        (seconds * 1000) as u64
    } else {
        u64::MAX
    }
}

impl PositionLimitConfig {
    /// The limit of a symbol that these settings describe, nothing of it used.
    pub fn to_limit(&self, symbol: &str) -> (r: PositionLimit)
        ensures
            r.symbol@ == symbol@,
            r.max_long == self.max_long,
            r.max_short == self.max_short,
            r.max_net == self.max_net,
            r.current_long@ == 0,
            r.current_short@ == 0,
            r.current_net@ == 0,
    {
        PositionLimit {
            symbol: String::from_str(symbol),
            max_long: self.max_long,
            max_short: self.max_short,
            max_net: self.max_net,
            current_long: Decimal::zero(),
            current_short: Decimal::zero(),
            current_net: Decimal::zero(),
        }
    }
}

impl ExposureLimitConfig {
    /// The limit of a symbol that these settings describe, nothing of it used.
    pub fn to_limit(&self, symbol: &str) -> (r: ExposureLimit)
        ensures
            r.symbol@ == symbol@,
            r.max_notional@ == self.max_notional@ * DECIMAL_SCALE,
            r.current_notional@ == 0,
            r.max_leverage == self.max_leverage,
            r.current_leverage@ == 0,
    {
        ExposureLimit {
            symbol: String::from_str(symbol),
            max_notional: Notional::from_decimal(&self.max_notional),
            current_notional: Notional::zero(),
            max_leverage: self.max_leverage,
            current_leverage: Decimal::zero(),
        }
    }
}

impl VolatilityLimitConfig {
    /// The limit of a symbol that these settings describe, nothing yet seen.
    pub fn to_limit(&self, symbol: &str) -> (r: VolatilityLimit)
        ensures
            r.symbol@ == symbol@,
            r.max_spread_bps == self.max_spread_bps,
            r.max_price_change_bps == self.max_price_change_bps,
            r.current_spread_bps == 0,
            r.last_price@ == 0,
            r.price_change_bps == 0,
    {
        VolatilityLimit {
            symbol: String::from_str(symbol),
            max_spread_bps: self.max_spread_bps,
            max_price_change_bps: self.max_price_change_bps,
            current_spread_bps: 0,
            last_price: Decimal::zero(),
            price_change_bps: 0,
        }
    }
}

impl CircuitBreakerConfig {
    /// The breaker that these settings describe, not tripped, its cooldown
    /// in milliseconds; `None` where they name no kind of breaker.
    pub fn to_breaker(&self) -> (r: Option<CircuitBreaker>)
        ensures
            match breaker_type_of(self.trigger_type@) {
                Some(kind) => r matches Some(b) && b.id == self.id && b.symbol == self.symbol
                    && b.trigger_type == kind && b.threshold == self.threshold && b.current_value@
                    == 0 && !b.is_triggered && b.triggered_at is None && b.cooldown_duration
                    == seconds_in_millis(self.cooldown_seconds),
                None => r is None,
            },
    {
        let name = self.trigger_type.as_str();
        let kind = if same_text(name, "MaxDailyLoss") {
            CircuitBreakerType::MaxDailyLoss
        } else if same_text(name, "MaxPositionSize") {
            CircuitBreakerType::MaxPositionSize
        } else if same_text(name, "MaxExposure") {
            CircuitBreakerType::MaxExposure
        } else if same_text(name, "MaxVolatility") {
            CircuitBreakerType::MaxVolatility
        } else if same_text(name, "MaxTradesPerMinute") {
            CircuitBreakerType::MaxTradesPerMinute
        } else if same_text(name, "MaxOrdersPerSecond") {
            CircuitBreakerType::MaxOrdersPerSecond
        } else {
            return None;
        };
        let cooldown: u64 = if self.cooldown_seconds <= u64::MAX / 1000 {
            self.cooldown_seconds * 1000
        } else {
            u64::MAX
        };
        Some(
            CircuitBreaker {
                id: self.id.clone(),
                symbol: self.symbol.clone(),
                trigger_type: kind,
                threshold: self.threshold,
                current_value: Decimal::zero(),
                is_triggered: false,
                triggered_at: None,
                cooldown_duration: cooldown,
            },
        )
    }
}

pub struct RiskConfig {
    pub global_risk_limits: RiskLimits,
    pub position_limits: SymbolMap<PositionLimitConfig>,
    pub exposure_limits: SymbolMap<ExposureLimitConfig>,
    pub volatility_limits: SymbolMap<VolatilityLimitConfig>,
    pub circuit_breakers: Vec<CircuitBreakerConfig>,
}

impl Default for RiskConfig {
    fn default() -> (r: Self)
        ensures
            r.position_limits.spec_len() == 0,
            r.exposure_limits.spec_len() == 0,
            r.volatility_limits.spec_len() == 0,
            r.circuit_breakers@.len() == 0,
    {
        RiskConfig {
            global_risk_limits: RiskLimits::default(),
            position_limits: SymbolMap::new(),
            exposure_limits: SymbolMap::new(),
            volatility_limits: SymbolMap::new(),
            circuit_breakers: Vec::new(),
        }
    }
}

#[derive(Debug, Clone)]
pub struct LoggingConfig {
    pub level: String,
    pub file_path: Option<String>,
    pub max_file_size_mb: u64,
    pub max_files: u32,
    pub enable_console: bool,
    pub enable_file: bool,
}

impl Default for LoggingConfig {
    fn default() -> (r: Self)
        ensures
            r.level@ == "info"@,
            r.file_path matches Some(p) && p@ == "logs/bot.log"@,
            r.max_file_size_mb == 100,
            r.max_files == 10,
            r.enable_console,
            r.enable_file,
    {
        LoggingConfig {
            level: "info".to_string(),
            file_path: Some("logs/bot.log".to_string()),
            max_file_size_mb: 100,
            max_files: 10,
            enable_console: true,
            enable_file: true,
        }
    }
}

#[derive(Debug, Clone, Copy)]
pub struct PerformanceConfig {
    pub max_memory_mb: u64,
    pub gc_interval_seconds: u64,
    pub metrics_interval_seconds: u64,
    pub enable_profiling: bool,
    pub thread_pool_size: usize,
}

impl Default for PerformanceConfig {
    fn default() -> (r: Self)
        ensures
            r.max_memory_mb == 1024,
            r.gc_interval_seconds == 300,
            r.metrics_interval_seconds == 60,
            !r.enable_profiling,
            r.thread_pool_size == 4,
    {
        PerformanceConfig {
            max_memory_mb: 1024,
            gc_interval_seconds: 300,
            metrics_interval_seconds: 60,
            enable_profiling: false,
            thread_pool_size: 4,
        }
    }
}

/// Someone who wants to hear of changes to a section of the settings.
#[derive(Debug)]
pub struct ConfigWatcher {
    pub id: String,
    pub section: String,
    pub callback: String,
}

impl Clone for ConfigWatcher {
    fn clone(&self) -> (r: Self)
        ensures
            r == *self,
    {
        ConfigWatcher {
            id: self.id.clone(),
            section: self.section.clone(),
            callback: self.callback.clone(),
        }
    }
}

pub struct BotConfig {
    pub bot_id: String,
    pub version: String,
    pub environment: Environment,
    pub api_config: ApiConfig,
    pub strategies: SymbolMap<StrategyConfig>,
    pub risk_config: RiskConfig,
    pub logging_config: LoggingConfig,
    pub performance_config: PerformanceConfig,
    pub created_at: i64,
    pub updated_at: i64,
}

/// What is wrong with the settings, if anything.
pub enum ConfigFault {
    /// Nothing is wrong.
    Sound,
    EmptyBaseUrl,
    /// The strategy at this place has no name.
    UnnamedStrategy(int),
    /// The strategy at this place has no symbol.
    StrategyWithoutSymbol(int),
    PositionSizeNotPositive,
    DailyLossNotPositive,
}

/// The first strategy from place `from` on that has no name or no symbol.
pub open spec fn strategy_fault(strategies: Seq<StrategyConfig>, from: int) -> ConfigFault
    decreases strategies.len() - from,
{
    if from < 0 || from >= strategies.len() {
        ConfigFault::Sound
    } else if strategies[from].name@.len() == 0 {
        ConfigFault::UnnamedStrategy(from)
    } else if strategies[from].symbol@.len() == 0 {
        ConfigFault::StrategyWithoutSymbol(from)
    } else {
        strategy_fault(strategies, from + 1)
    }
}

/// The first fault of the settings: the API's address, then the
/// strategies in their order, then the global risk limits.
pub open spec fn config_fault(config: &BotConfig) -> ConfigFault {
    if config.api_config.base_url@.len() == 0 {
        ConfigFault::EmptyBaseUrl
    } else {
        match strategy_fault(config.strategies.values_view(), 0) {
            ConfigFault::Sound => if config.risk_config.global_risk_limits.max_position_size@ <= 0 {
                ConfigFault::PositionSizeNotPositive
            } else if config.risk_config.global_risk_limits.max_daily_loss@ <= 0 {
                ConfigFault::DailyLossNotPositive
            } else {
                ConfigFault::Sound
            },
            fault => fault,
        }
    }
}

/// The words in which a fault is reported.
pub open spec fn fault_text(fault: ConfigFault, keys: Seq<Seq<char>>) -> Seq<char> {
    match fault {
        ConfigFault::Sound => Seq::empty(),
        ConfigFault::EmptyBaseUrl => "API base URL cannot be empty"@,
        ConfigFault::UnnamedStrategy(i) => "Strategy name cannot be empty for strategy: "@ + keys[i],
        ConfigFault::StrategyWithoutSymbol(i) => "Strategy symbol cannot be empty for strategy: "@
            + keys[i],
        ConfigFault::PositionSizeNotPositive => "Global max position size must be positive"@,
        ConfigFault::DailyLossNotPositive => "Global max daily loss must be positive"@,
    }
}

impl BotConfig {
    /// Checks the settings and reports the first fault in words.
    pub fn validate_config(&self) -> (r: Result<(), String>)
        ensures
            match r {
                Ok(_) => config_fault(self) is Sound,
                Err(text) => !(config_fault(self) is Sound) && text@ == fault_text(
                    config_fault(self),
                    self.strategies.keys_view(),
                ),
            },
    {
        if self.api_config.base_url.as_str().unicode_len() == 0 {
            return Err("API base URL cannot be empty".to_string());
        }
        let n = self.strategies.len();
        let mut i: usize = 0;
        while i < n
            invariant
                i <= n,
                n == self.strategies.spec_len(),
                self.strategies.wf(),
                self.api_config.base_url@.len() != 0,
                strategy_fault(self.strategies.values_view(), 0) == strategy_fault(
                    self.strategies.values_view(),
                    i as int,
                ),
            decreases n - i,
        {
            let strategy = self.strategies.value_at(i);
            if strategy.name.as_str().unicode_len() == 0 {
                return Err(
                    join(
                        "Strategy name cannot be empty for strategy: ",
                        self.strategies.key_at(i).as_str(),
                    ),
                );
            }
            if strategy.symbol.as_str().unicode_len() == 0 {
                return Err(
                    join(
                        "Strategy symbol cannot be empty for strategy: ",
                        self.strategies.key_at(i).as_str(),
                    ),
                );
            }
            i = i + 1;
        }
        if !self.risk_config.global_risk_limits.max_position_size.is_positive() {
            return Err("Global max position size must be positive".to_string());
        }
        if !self.risk_config.global_risk_limits.max_daily_loss.is_positive() {
            return Err("Global max daily loss must be positive".to_string());
        }
        Ok(())
    }
}

impl BotConfig {
    /// The settings that a bot begins with, under the identity `bot_id`
    /// and stamped with the time `now`: the development environment, the
    /// default address of the exchange, no strategies, the default limits.
    pub fn new_with(bot_id: String, now: i64) -> (r: Self)
        ensures
            r.bot_id == bot_id,
            r.version@ == "1.0.0"@,
            r.environment is Development,
            r.api_config.base_url@ == "https://api.hyperliquid.xyz"@,
            r.api_config.ws_url@ == "wss://api.hyperliquid.xyz/ws"@,
            r.api_config.timeout_ms == 5000,
            r.api_config.max_retries == 3,
            r.api_config.retry_delay_ms == 1000,
            r.strategies.spec_len() == 0,
            r.risk_config.position_limits.spec_len() == 0,
            r.risk_config.exposure_limits.spec_len() == 0,
            r.risk_config.volatility_limits.spec_len() == 0,
            r.risk_config.circuit_breakers@.len() == 0,
            r.created_at == now,
            r.updated_at == now,
    {
        BotConfig {
            bot_id,
            version: "1.0.0".to_string(),
            environment: Environment::Development,
            api_config: ApiConfig::default(),
            strategies: SymbolMap::new(),
            risk_config: RiskConfig::default(),
            logging_config: LoggingConfig::default(),
            performance_config: PerformanceConfig::default(),
            created_at: now,
            updated_at: now,
        }
    }
}

impl Default for BotConfig {
    /// The settings that a bot begins with, under a fresh identity and
    /// stamped with the present time.
    fn default() -> (r: Self)
        ensures
            r.version@ == "1.0.0"@,
            r.environment is Development,
            r.api_config.max_retries == 3,
            r.strategies.spec_len() == 0,
            r.created_at == r.updated_at,
    {
        BotConfig::new_with(uuid_string(fresh_uuid()), utc_now_millis())
    }
}

/// What the settings manager tells of.
#[derive(Debug)]
pub enum ConfigEvent {
    ConfigLoaded { config_id: String, timestamp: i64 },
    ConfigSaved { config_id: String, timestamp: i64 },
    /// The settings under `key` of `section` were changed.
    ConfigChanged { section: String, key: String, timestamp: i64 },
    ConfigError { error: String, timestamp: i64 },
}

/// `after` is `before` and one event more.
pub open spec fn one_more(before: Seq<ConfigEvent>, after: Seq<ConfigEvent>) -> bool {
    after.len() == before.len() + 1 && after.drop_last() == before
}

/// The event tells at the time `now` of a change to `key` of `section`.
pub open spec fn tells_change(event: ConfigEvent, section: Seq<char>, key: Seq<char>, now: i64) -> bool {
    event matches ConfigEvent::ConfigChanged { section: s, key: k, timestamp } && s@ == section
        && k@ == key && timestamp == now
}

/// The name of the market-making strategy of a symbol.
pub open spec fn market_making_name(symbol: Seq<char>) -> Seq<char> {
    "market_making_"@ + symbol
}

/// The settings of a session, those who watch them, and where they are
/// kept. Events are queued here and drained by the caller, who reads and
/// writes the file.
pub struct ConfigManager {
    pub config: BotConfig,
    pub watchers: SymbolMap<ConfigWatcher>,
    pub file_path: Option<String>,
    pub auto_save: bool,
    pub save_interval_ms: u64,
    /// The events that wait to be drained.
    pub events: Vec<ConfigEvent>,
}

impl ConfigManager {
    /// A manager of the settings that a bot begins with, saved of itself
    /// every thirty seconds once it has a file.
    pub fn new_at(bot_id: String, now: i64) -> (r: Self)
        ensures
            r.config.bot_id == bot_id,
            r.config.strategies.spec_len() == 0,
            r.config.created_at == now,
            r.config.updated_at == now,
            r.watchers.spec_len() == 0,
            r.file_path is None,
            r.auto_save,
            r.save_interval_ms == 30_000,
            r.events@.len() == 0,
    {
        ConfigManager {
            config: BotConfig::new_with(bot_id, now),
            watchers: SymbolMap::new(),
            file_path: None,
            auto_save: true,
            save_interval_ms: 30_000,
            events: Vec::new(),
        }
    }

    /// A manager of the settings that a bot begins with, under a fresh
    /// identity.
    pub fn new() -> (r: Self)
        ensures
            r.config.strategies.spec_len() == 0,
            r.watchers.spec_len() == 0,
            r.file_path is None,
            r.auto_save,
            r.save_interval_ms == 30_000,
            r.events@.len() == 0,
    {
        Self::new_at(uuid_string(fresh_uuid()), utc_now_millis())
    }

    /// The same manager, keeping its settings in the file at `path`.
    pub fn with_file_path(self, path: String) -> (r: Self)
        ensures
            r.file_path == Some(path),
            r.config == self.config,
            r.watchers == self.watchers,
            r.auto_save == self.auto_save,
            r.save_interval_ms == self.save_interval_ms,
            r.events == self.events,
    {
        ConfigManager {
            config: self.config,
            watchers: self.watchers,
            file_path: Some(path),
            auto_save: self.auto_save,
            save_interval_ms: self.save_interval_ms,
            events: self.events,
        }
    }

    /// The same manager, saving of itself or not, at the interval given.
    pub fn with_auto_save(self, auto_save: bool, interval_ms: u64) -> (r: Self)
        ensures
            r.auto_save == auto_save,
            r.save_interval_ms == interval_ms,
            r.config == self.config,
            r.watchers == self.watchers,
            r.file_path == self.file_path,
            r.events == self.events,
    {
        ConfigManager {
            config: self.config,
            watchers: self.watchers,
            file_path: self.file_path,
            auto_save,
            save_interval_ms: interval_ms,
            events: self.events,
        }
    }

    /// The file that the settings are saved to of themselves, where they are.
    pub fn auto_save_path(&self) -> (r: Option<&String>)
        ensures
            match r {
                Some(path) => self.auto_save && self.file_path == Some(*path),
                None => !self.auto_save || self.file_path is None,
            },
    {
        if !self.auto_save {
            return None;
        }
        match &self.file_path {
            Some(path) => Some(path),
            None => None,
        }
    }

    /// Takes settings that were read from the file at the time `now`:
    /// they replace those held, and an event tells that they were loaded.
    pub fn take_loaded_at(&mut self, config: BotConfig, now: i64)
        ensures
            final(self).config == config,
            one_more(old(self).events@, final(self).events@),
            final(self).events@.last() matches ConfigEvent::ConfigLoaded { config_id, timestamp }
                && config_id == config.bot_id && timestamp == now,
            final(self).watchers == old(self).watchers,
            final(self).file_path == old(self).file_path,
            final(self).auto_save == old(self).auto_save,
            final(self).save_interval_ms == old(self).save_interval_ms,
    {
        let ghost held = self.events@;
        let config_id = config.bot_id.clone();
        self.config = config;
        self.events.push(ConfigEvent::ConfigLoaded { config_id, timestamp: now });
        assert(self.events@.drop_last() =~= held);
    }

    /// Notes at the time `now` that the settings were written to the file.
    pub fn note_saved_at(&mut self, now: i64)
        ensures
            one_more(old(self).events@, final(self).events@),
            final(self).events@.last() matches ConfigEvent::ConfigSaved { config_id, timestamp }
                && config_id == old(self).config.bot_id && timestamp == now,
            final(self).config == old(self).config,
            final(self).watchers == old(self).watchers,
            final(self).file_path == old(self).file_path,
            final(self).auto_save == old(self).auto_save,
            final(self).save_interval_ms == old(self).save_interval_ms,
    {
        let ghost held = self.events@;
        let config_id = self.config.bot_id.clone();
        self.events.push(ConfigEvent::ConfigSaved { config_id, timestamp: now });
        assert(self.events@.drop_last() =~= held);
    }

    /// Notes at the time `now` that saving the settings failed, and why.
    pub fn note_save_failed_at(&mut self, why: &str, now: i64)
        ensures
            one_more(old(self).events@, final(self).events@),
            final(self).events@.last() matches ConfigEvent::ConfigError { error, timestamp }
                && error@ == "Auto-save failed: "@ + why@ && timestamp == now,
            final(self).config == old(self).config,
            final(self).watchers == old(self).watchers,
            final(self).file_path == old(self).file_path,
            final(self).auto_save == old(self).auto_save,
            final(self).save_interval_ms == old(self).save_interval_ms,
    {
        let ghost held = self.events@;
        let error = join("Auto-save failed: ", why);
        self.events.push(ConfigEvent::ConfigError { error, timestamp: now });
        assert(self.events@.drop_last() =~= held);
    }

    fn note_change(&mut self, section: &str, key: &str, now: i64)
        ensures
            one_more(old(self).events@, final(self).events@),
            tells_change(final(self).events@.last(), section@, key@, now),
            final(self).config.updated_at == now,
            final(self).config.bot_id == old(self).config.bot_id,
            final(self).config.version == old(self).config.version,
            final(self).config.environment == old(self).config.environment,
            final(self).config.api_config == old(self).config.api_config,
            final(self).config.strategies == old(self).config.strategies,
            final(self).config.risk_config == old(self).config.risk_config,
            final(self).config.logging_config == old(self).config.logging_config,
            final(self).config.performance_config == old(self).config.performance_config,
            final(self).config.created_at == old(self).config.created_at,
            final(self).watchers == old(self).watchers,
            final(self).file_path == old(self).file_path,
            final(self).auto_save == old(self).auto_save,
            final(self).save_interval_ms == old(self).save_interval_ms,
    {
        let ghost held = self.events@;
        self.config.updated_at = now;
        self.events.push(
            ConfigEvent::ConfigChanged {
                section: section.to_string(),
                key: key.to_string(),
                timestamp: now,
            },
        );
        assert(self.events@.drop_last() =~= held);
    }

    /// The settings held.
    pub fn get_config(&self) -> (r: &BotConfig)
        ensures
            *r == self.config,
    {
        &self.config
    }

    /// Replaces the settings by `config`, stamped with the time `now`, and
    /// queues the event that they were changed.
    pub fn update_config_at(&mut self, config: BotConfig, now: i64)
        ensures
            final(self).config.updated_at == now,
            final(self).config.bot_id == config.bot_id,
            final(self).config.version == config.version,
            final(self).config.environment == config.environment,
            final(self).config.api_config == config.api_config,
            final(self).config.strategies == config.strategies,
            final(self).config.risk_config == config.risk_config,
            final(self).config.logging_config == config.logging_config,
            final(self).config.performance_config == config.performance_config,
            final(self).config.created_at == config.created_at,
            one_more(old(self).events@, final(self).events@),
            tells_change(final(self).events@.last(), "global"@, "updated_at"@, now),
            final(self).watchers == old(self).watchers,
            final(self).file_path == old(self).file_path,
            final(self).auto_save == old(self).auto_save,
            final(self).save_interval_ms == old(self).save_interval_ms,
    {
        self.config = config;
        self.note_change("global", "updated_at", now);
    }

    /// Replaces the settings at the present time.
    pub fn update_config(&mut self, config: BotConfig) -> (r: Result<(), String>)
        ensures
            r is Ok,
            final(self).config.api_config == config.api_config,
            final(self).config.strategies == config.strategies,
            final(self).config.risk_config == config.risk_config,
            one_more(old(self).events@, final(self).events@),
            exists|now: i64| #[trigger]
                tells_change(final(self).events@.last(), "global"@, "updated_at"@, now),
            final(self).config.bot_id == config.bot_id,
            final(self).config.version == config.version,
            final(self).config.environment == config.environment,
            final(self).config.logging_config == config.logging_config,
            final(self).config.performance_config == config.performance_config,
            final(self).config.created_at == config.created_at,
            final(self).watchers == old(self).watchers,
            final(self).file_path == old(self).file_path,
            final(self).auto_save == old(self).auto_save,
            final(self).save_interval_ms == old(self).save_interval_ms,
    {
        let now = utc_now_millis();
        self.update_config_at(config, now);
        assert(tells_change(self.events@.last(), "global"@, "updated_at"@, now));
        Ok(())
    }

    /// Enables or disables the strategy of a name at the time `now`, where
    /// the settings hold one; the change of the settings is told of in
    /// either case.
    pub fn set_strategy_enabled_at(&mut self, name: &str, enabled: bool, now: i64)
        ensures
            match old(self).config.strategies.value_of(name@) {
                Some(s) => final(self).config.strategies.replaces(
                    &old(self).config.strategies,
                    name@,
                    (StrategyConfig {
                        name: s.name,
                        enabled,
                        symbol: s.symbol,
                        strategy_type: s.strategy_type,
                        config: s.config,
                        risk_limits: s.risk_limits,
                    }),
                ),
                None => final(self).config.strategies == old(self).config.strategies,
            },
            final(self).config.updated_at == now,
            final(self).config.api_config == old(self).config.api_config,
            final(self).config.risk_config == old(self).config.risk_config,
            one_more(old(self).events@, final(self).events@),
            tells_change(final(self).events@.last(), "global"@, "updated_at"@, now),
            final(self).watchers == old(self).watchers,
    {
        match self.config.strategies.find(name) {
            Some(slot) => {
                let held = self.config.strategies.value_at(slot);
                let next = StrategyConfig {
                    name: held.name.clone(),
                    enabled,
                    symbol: held.symbol.clone(),
                    strategy_type: held.strategy_type,
                    config: held.config.clone(),
                    risk_limits: held.risk_limits,
                };
                self.config.strategies.set_value(slot, next);
            },
            None => {},
        }
        self.note_change("global", "updated_at", now);
    }

    /// The settings of the strategy of a name.
    pub fn get_strategy_config(&self, name: &str) -> (r: Option<StrategyConfig>)
        ensures
            r == self.config.strategies.value_of(name@),
    {
        match self.config.strategies.get(name) {
            Some(s) => Some(s.clone()),
            None => None,
        }
    }

    /// Sets the settings of the strategy of a name at the time `now`, and
    /// queues the event that they were changed.
    pub fn update_strategy_config_at(&mut self, name: &str, config: StrategyConfig, now: i64)
        ensures
            final(self).config.strategies.value_of(name@) == Some(config),
            forall|other: Seq<char>|
                other != name@ ==> #[trigger] final(self).config.strategies.value_of(other) == old(
                    self,
                ).config.strategies.value_of(other),
            final(self).config.updated_at == now,
            final(self).config.api_config == old(self).config.api_config,
            final(self).config.risk_config == old(self).config.risk_config,
            one_more(old(self).events@, final(self).events@),
            tells_change(final(self).events@.last(), "strategies"@, name@, now),
            final(self).watchers == old(self).watchers,
    {
        self.config.strategies.insert(String::from_str(name), config);
        self.note_change("strategies", name, now);
    }

    /// Sets the settings of a strategy at the present time.
    pub fn update_strategy_config(&mut self, name: &str, config: StrategyConfig) -> (r: Result<
        (),
        String,
    >)
        ensures
            r is Ok,
            final(self).config.strategies.value_of(name@) == Some(config),
            forall|other: Seq<char>|
                other != name@ ==> #[trigger] final(self).config.strategies.value_of(other) == old(
                    self,
                ).config.strategies.value_of(other),
            one_more(old(self).events@, final(self).events@),
            exists|now: i64| #[trigger]
                tells_change(final(self).events@.last(), "strategies"@, name@, now),
            final(self).config.api_config == old(self).config.api_config,
            final(self).config.risk_config == old(self).config.risk_config,
            final(self).watchers == old(self).watchers,
    {
        let now = utc_now_millis();
        self.update_strategy_config_at(name, config, now);
        assert(tells_change(self.events@.last(), "strategies"@, name@, now));
        Ok(())
    }

    /// The risk settings held.
    pub fn get_risk_config(&self) -> (r: &RiskConfig)
        ensures
            *r == self.config.risk_config,
    {
        &self.config.risk_config
    }

    /// Replaces the risk settings at the time `now`, and queues the event
    /// that they were changed.
    pub fn update_risk_config_at(&mut self, config: RiskConfig, now: i64)
        ensures
            final(self).config.risk_config == config,
            final(self).config.updated_at == now,
            final(self).config.api_config == old(self).config.api_config,
            final(self).config.strategies == old(self).config.strategies,
            one_more(old(self).events@, final(self).events@),
            tells_change(final(self).events@.last(), "risk"@, "risk_config"@, now),
            final(self).watchers == old(self).watchers,
    {
        self.config.risk_config = config;
        self.note_change("risk", "risk_config", now);
    }

    /// Replaces the risk settings at the present time.
    pub fn update_risk_config(&mut self, config: RiskConfig) -> (r: Result<(), String>)
        ensures
            r is Ok,
            final(self).config.risk_config == config,
            final(self).config.strategies == old(self).config.strategies,
            one_more(old(self).events@, final(self).events@),
            exists|now: i64| #[trigger]
                tells_change(final(self).events@.last(), "risk"@, "risk_config"@, now),
            final(self).config.api_config == old(self).config.api_config,
            final(self).watchers == old(self).watchers,
    {
        let now = utc_now_millis();
        self.update_risk_config_at(config, now);
        assert(tells_change(self.events@.last(), "risk"@, "risk_config"@, now));
        Ok(())
    }

    /// The settings of the exchange's address held.
    pub fn get_api_config(&self) -> (r: ApiConfig)
        ensures
            r == self.config.api_config,
    {
        self.config.api_config.clone()
    }

    /// Replaces the settings of the exchange's address at the time `now`,
    /// and queues the event that they were changed.
    pub fn update_api_config_at(&mut self, config: ApiConfig, now: i64)
        ensures
            final(self).config.api_config == config,
            final(self).config.updated_at == now,
            final(self).config.risk_config == old(self).config.risk_config,
            final(self).config.strategies == old(self).config.strategies,
            one_more(old(self).events@, final(self).events@),
            tells_change(final(self).events@.last(), "api"@, "api_config"@, now),
            final(self).watchers == old(self).watchers,
    {
        self.config.api_config = config;
        self.note_change("api", "api_config", now);
    }

    /// Replaces the settings of the exchange's address at the present time.
    pub fn update_api_config(&mut self, config: ApiConfig) -> (r: Result<(), String>)
        ensures
            r is Ok,
            final(self).config.api_config == config,
            final(self).config.strategies == old(self).config.strategies,
            one_more(old(self).events@, final(self).events@),
            exists|now: i64| #[trigger]
                tells_change(final(self).events@.last(), "api"@, "api_config"@, now),
            final(self).config.risk_config == old(self).config.risk_config,
            final(self).watchers == old(self).watchers,
    {
        let now = utc_now_millis();
        self.update_api_config_at(config, now);
        assert(tells_change(self.events@.last(), "api"@, "api_config"@, now));
        Ok(())
    }

    /// Takes a watcher in, under its identity; one of the same identity is
    /// replaced.
    pub fn add_config_watcher(&mut self, watcher: ConfigWatcher)
        ensures
            final(self).watchers.value_of(watcher.id@) == Some(watcher),
            forall|other: Seq<char>|
                other != watcher.id@ ==> #[trigger] final(self).watchers.value_of(other) == old(
                    self,
                ).watchers.value_of(other),
            final(self).config == old(self).config,
            final(self).events == old(self).events,
    {
        self.watchers.insert(watcher.id.clone(), watcher);
    }

    /// Lets the watcher of an identity go.
    pub fn remove_config_watcher(&mut self, id: &str)
        ensures
            final(self).watchers.is_removal_of(&old(self).watchers, id@),
            !final(self).watchers.contains(id@),
            final(self).config == old(self).config,
            final(self).events == old(self).events,
    {
        let _ = self.watchers.remove(id);
    }

    /// The identity of the bot whose settings these are.
    pub fn get_config_id(&self) -> (r: String)
        ensures
            r == self.config.bot_id,
    {
        self.config.bot_id.clone()
    }

    /// Checks the settings held and reports the first fault in words.
    pub fn validate_config(&self) -> (r: Result<(), String>)
        ensures
            match r {
                Ok(_) => config_fault(&self.config) is Sound,
                Err(text) => !(config_fault(&self.config) is Sound) && text@ == fault_text(
                    config_fault(&self.config),
                    self.config.strategies.keys_view(),
                ),
            },
    {
        self.config.validate_config()
    }

    /// Enters a market-making strategy for a symbol, enabled, under the
    /// name of the symbol's market making, with the default limits and the
    /// settings given as JSON text.
    pub fn create_default_market_making_strategy_at(
        &mut self,
        symbol: String,
        settings: String,
        now: i64,
    )
        ensures
            final(self).config.strategies.value_of(market_making_name(symbol@)) matches Some(s)
                && s.name@ == market_making_name(symbol@) && s.enabled && s.symbol == symbol
                && s.strategy_type is MarketMaking && s.config == settings,
            forall|other: Seq<char>|
                other != market_making_name(symbol@) ==> #[trigger] final(self).config.strategies.value_of(other) == old(self).config.strategies.value_of(other),
            final(self).config.updated_at == now,
            one_more(old(self).events@, final(self).events@),
            tells_change(final(self).events@.last(), "strategies"@, market_making_name(symbol@), now),
    {
        let name = join("market_making_", symbol.as_str());
        let strategy = StrategyConfig {
            name: name.clone(),
            enabled: true,
            symbol,
            strategy_type: StrategyType::MarketMaking,
            config: settings,
            risk_limits: RiskLimits::default(),
        };
        self.update_strategy_config_at(name.as_str(), strategy, now);
    }

    /// Enters a market-making strategy for a symbol at the present time.
    pub fn create_default_market_making_strategy(&mut self, symbol: String, settings: String) -> (r:
        Result<(), String>)
        ensures
            r is Ok,
            final(self).config.strategies.value_of(market_making_name(symbol@)) matches Some(s)
                && s.name@ == market_making_name(symbol@) && s.enabled && s.symbol == symbol
                && s.strategy_type is MarketMaking && s.config == settings,
            forall|other: Seq<char>|
                other != market_making_name(symbol@) ==> #[trigger] final(self).config.strategies.value_of(other) == old(self).config.strategies.value_of(other),
            one_more(old(self).events@, final(self).events@),
            exists|now: i64| #[trigger]
                tells_change(
                    final(self).events@.last(),
                    "strategies"@,
                    market_making_name(symbol@),
                    now,
                ),
    {
        let now = utc_now_millis();
        self.create_default_market_making_strategy_at(symbol, settings, now);
        assert(tells_change(self.events@.last(), "strategies"@, market_making_name(symbol@), now));
        Ok(())
    }

    /// Hands out the events that wait, oldest first, and forgets them.
    pub fn drain_events(&mut self) -> (r: Vec<ConfigEvent>)
        ensures
            r@ == old(self).events@,
            final(self).events@ == Seq::<ConfigEvent>::empty(),
            final(self).config == old(self).config,
            final(self).watchers == old(self).watchers,
            final(self).file_path == old(self).file_path,
            final(self).auto_save == old(self).auto_save,
            final(self).save_interval_ms == old(self).save_interval_ms,
    {
        let mut out: Vec<ConfigEvent> = Vec::new();
        core::mem::swap(&mut out, &mut self.events);
        out
    }
}

impl Default for ConfigManager {
    fn default() -> (r: Self)
        ensures
            r.config.strategies.spec_len() == 0,
            r.watchers.spec_len() == 0,
            r.file_path is None,
            r.auto_save,
            r.events@.len() == 0,
    {
        ConfigManager::new()
    }
}

} // verus!
