//! Ready-made risk settings, from cautious to bold.

use crate::datastructures::symbol_map::{holds_key, SymbolMap};
use crate::numeric::decimal::{Decimal, DECIMAL_SCALE};
use crate::trading::types::RiskLimits;
use vstd::prelude::*;

verus! {

#[derive(Debug, Clone, Copy)]
pub struct PositionLimitTemplate {
    pub max_long: Decimal,
    pub max_short: Decimal,
    pub max_net: Decimal,
}

#[derive(Debug, Clone, Copy)]
pub struct ExposureLimitTemplate {
    pub max_notional: Decimal,
    pub max_leverage: Decimal,
}

#[derive(Debug, Clone, Copy)]
pub struct VolatilityLimitTemplate {
    pub max_spread_bps: u32,
    pub max_price_change_bps: u32,
}

pub struct RiskConfigTemplate {
    pub name: String,
    pub description: String,
    pub risk_limits: RiskLimits,
    pub position_limits: SymbolMap<PositionLimitTemplate>,
    pub exposure_limits: SymbolMap<ExposureLimitTemplate>,
    pub volatility_limits: SymbolMap<VolatilityLimitTemplate>,
}

/// The figures that a template is made of, in whole numbers.
pub struct RiskFigures {
    pub max_long: u32,
    pub max_net: u32,
    pub max_notional: u32,
    pub max_leverage: u32,
    pub max_spread_bps: u32,
    pub max_price_change_bps: u32,
    pub max_position_size: u32,
    pub max_daily_loss: u32,
    pub max_order_size: u32,
    pub max_orders_per_side: usize,
}

impl RiskConfigTemplate {
    /// Whether a template holds the figures given, for the symbol `HYPE`.
    pub open spec fn holds(&self, f: RiskFigures) -> bool {
        &&& self.risk_limits.max_position_size@ == f.max_position_size * DECIMAL_SCALE
        &&& self.risk_limits.max_daily_loss@ == f.max_daily_loss * DECIMAL_SCALE
        &&& self.risk_limits.max_order_size@ == f.max_order_size * DECIMAL_SCALE
        &&& self.risk_limits.max_orders_per_side == f.max_orders_per_side
        &&& self.position_limits.spec_len() == 1
        &&& self.exposure_limits.spec_len() == 1
        &&& self.volatility_limits.spec_len() == 1
        &&& self.position_limits.value_of("HYPE"@) matches Some(p) && p.max_long@ == f.max_long
            * DECIMAL_SCALE && p.max_short@ == f.max_long * DECIMAL_SCALE && p.max_net@ == f.max_net
            * DECIMAL_SCALE
        &&& self.exposure_limits.value_of("HYPE"@) matches Some(e) && e.max_notional@
            == f.max_notional * DECIMAL_SCALE && e.max_leverage@ == f.max_leverage * DECIMAL_SCALE
        &&& self.volatility_limits.value_of("HYPE"@) matches Some(v) && v.max_spread_bps
            == f.max_spread_bps && v.max_price_change_bps == f.max_price_change_bps
    }

    fn build(name: &str, description: &str, f: RiskFigures) -> (r: Self)
        ensures
            r.name@ == name@,
            r.description@ == description@,
            r.holds(f),
    {
        let mut position_limits: SymbolMap<PositionLimitTemplate> = SymbolMap::new();
        position_limits.insert(
            "HYPE".to_string(),
            PositionLimitTemplate {
                max_long: Decimal::from_int(f.max_long),
                max_short: Decimal::from_int(f.max_long),
                max_net: Decimal::from_int(f.max_net),
            },
        );
        let mut exposure_limits: SymbolMap<ExposureLimitTemplate> = SymbolMap::new();
        exposure_limits.insert(
            "HYPE".to_string(),
            ExposureLimitTemplate {
                max_notional: Decimal::from_int(f.max_notional),
                max_leverage: Decimal::from_int(f.max_leverage),
            },
        );
        let mut volatility_limits: SymbolMap<VolatilityLimitTemplate> = SymbolMap::new();
        volatility_limits.insert(
            "HYPE".to_string(),
            VolatilityLimitTemplate {
                max_spread_bps: f.max_spread_bps,
                max_price_change_bps: f.max_price_change_bps,
            },
        );
        RiskConfigTemplate {
            name: name.to_string(),
            description: description.to_string(),
            risk_limits: RiskLimits {
                max_position_size: Decimal::from_int(f.max_position_size),
                max_daily_loss: Decimal::from_int(f.max_daily_loss),
                max_order_size: Decimal::from_int(f.max_order_size),
                max_orders_per_side: f.max_orders_per_side,
            },
            position_limits,
            exposure_limits,
            volatility_limits,
        }
    }

    pub open spec fn conservative_figures() -> RiskFigures {
        RiskFigures {
            max_long: 10,
            max_net: 5,
            max_notional: 1000,
            max_leverage: 2,
            max_spread_bps: 50,
            max_price_change_bps: 100,
            max_position_size: 10,
            max_daily_loss: 100,
            max_order_size: 1,
            max_orders_per_side: 3,
        }
    }

    pub open spec fn moderate_figures() -> RiskFigures {
        RiskFigures {
            max_long: 50,
            max_net: 25,
            max_notional: 5000,
            max_leverage: 5,
            max_spread_bps: 100,
            max_price_change_bps: 200,
            max_position_size: 50,
            max_daily_loss: 500,
            max_order_size: 5,
            max_orders_per_side: 5,
        }
    }

    pub open spec fn aggressive_figures() -> RiskFigures {
        RiskFigures {
            max_long: 100,
            max_net: 50,
            max_notional: 10000,
            max_leverage: 10,
            max_spread_bps: 200,
            max_price_change_bps: 500,
            max_position_size: 100,
            max_daily_loss: 1000,
            max_order_size: 10,
            max_orders_per_side: 10,
        }
    }

    /// Tight limits, for trading at low risk.
    pub fn conservative() -> (r: Self)
        ensures
            r.name@ == "Conservative"@,
            r.description@ == "Conservative risk limits for low-risk trading"@,
            r.holds(Self::conservative_figures()),
    {
        Self::build(
            "Conservative",
            "Conservative risk limits for low-risk trading",
            RiskFigures {
                max_long: 10,
                max_net: 5,
                max_notional: 1000,
                max_leverage: 2,
                max_spread_bps: 50,
                max_price_change_bps: 100,
                max_position_size: 10,
                max_daily_loss: 100,
                max_order_size: 1,
                max_orders_per_side: 3,
            },
        )
    }

    /// Middling limits, for balanced trading.
    pub fn moderate() -> (r: Self)
        ensures
            r.name@ == "Moderate"@,
            r.description@ == "Moderate risk limits for balanced trading"@,
            r.holds(Self::moderate_figures()),
    {
        Self::build(
            "Moderate",
            "Moderate risk limits for balanced trading",
            RiskFigures {
                max_long: 50,
                max_net: 25,
                max_notional: 5000,
                max_leverage: 5,
                max_spread_bps: 100,
                max_price_change_bps: 200,
                max_position_size: 50,
                max_daily_loss: 500,
                max_order_size: 5,
                max_orders_per_side: 5,
            },
        )
    }

    /// Wide limits, for trading at high risk.
    pub fn aggressive() -> (r: Self)
        ensures
            r.name@ == "Aggressive"@,
            r.description@ == "Aggressive risk limits for high-risk, high-reward trading"@,
            r.holds(Self::aggressive_figures()),
    {
        Self::build(
            "Aggressive",
            "Aggressive risk limits for high-risk, high-reward trading",
            RiskFigures {
                max_long: 100,
                max_net: 50,
                max_notional: 10000,
                max_leverage: 10,
                max_spread_bps: 200,
                max_price_change_bps: 500,
                max_position_size: 100,
                max_daily_loss: 1000,
                max_order_size: 10,
                max_orders_per_side: 10,
            },
        )
    }

    /// The three templates, each under its name in lower case.
    pub fn get_all_templates() -> (r: SymbolMap<Self>)
        ensures
            r.keys_view() == seq!["conservative"@, "moderate"@, "aggressive"@],
            r.values_view().len() == 3,
            r.values_view()[0].holds(Self::conservative_figures()),
            r.values_view()[1].holds(Self::moderate_figures()),
            r.values_view()[2].holds(Self::aggressive_figures()),
    {
        proof {
            reveal_strlit("conservative");
            reveal_strlit("moderate");
            reveal_strlit("aggressive");
        }
        let mut templates: SymbolMap<Self> = SymbolMap::new();
        templates.insert("conservative".to_string(), Self::conservative());
        assert(templates.keys_view() =~= seq!["conservative"@]);
        assert(!holds_key(templates.keys_view(), "moderate"@)) by {
            assert("conservative"@.len() != "moderate"@.len());
        }
        templates.insert("moderate".to_string(), Self::moderate());
        assert(templates.keys_view() =~= seq!["conservative"@, "moderate"@]);
        assert(!holds_key(templates.keys_view(), "aggressive"@)) by {
            assert("conservative"@.len() != "aggressive"@.len());
            assert("moderate"@.len() != "aggressive"@.len());
        }
        templates.insert("aggressive".to_string(), Self::aggressive());
        assert(templates.keys_view() =~= seq!["conservative"@, "moderate"@, "aggressive"@]);
        templates
    }
}

} // verus!
