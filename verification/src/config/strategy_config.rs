//! Ready-made strategy settings.

use crate::datastructures::symbol_map::SymbolMap;
use vstd::prelude::*;

verus! {

/// A description of a kind of strategy and of the settings it takes.
/// `default_config` holds the default settings as JSON text; the library
/// leaves it empty and the program that serialises fills it in.
#[derive(Debug, Clone)]
pub struct StrategyConfigTemplate {
    pub name: String,
    pub description: String,
    pub strategy_type: String,
    pub default_config: String,
    pub required_fields: Vec<String>,
    pub optional_fields: Vec<String>,
}

pub open spec fn texts_of(fields: Seq<String>) -> Seq<Seq<char>> {
    Seq::new(fields.len(), |i: int| fields[i]@)
}

impl StrategyConfigTemplate {
    /// Whether this is the template of a market-making strategy, in every
    /// field.
    pub open spec fn is_market_making(&self) -> bool {
        &&& self.name@ == "Market Making"@
        &&& self.description@
            == "Provides liquidity by placing buy and sell orders around the current market price"@
        &&& self.strategy_type@ == "MarketMaking"@
        &&& self.default_config@.len() == 0
        &&& texts_of(self.required_fields@) == seq!["symbol"@, "spread_bps"@, "order_size"@]
        &&& texts_of(self.optional_fields@) == seq![
            "max_orders_per_side"@,
            "inventory_target"@,
            "inventory_skew_factor"@,
            "min_edge_bps"@,
            "order_refresh_interval_ms"@,
        ]
    }

    /// The template of a market-making strategy: what it is called and which
    /// settings it needs and takes.
    pub fn market_making() -> (r: Self)
        ensures
            r.is_market_making(),
    {
        let mut required: Vec<String> = Vec::new();
        required.push("symbol".to_string());
        required.push("spread_bps".to_string());
        required.push("order_size".to_string());
        let mut optional: Vec<String> = Vec::new();
        optional.push("max_orders_per_side".to_string());
        optional.push("inventory_target".to_string());
        optional.push("inventory_skew_factor".to_string());
        optional.push("min_edge_bps".to_string());
        optional.push("order_refresh_interval_ms".to_string());
        assert(texts_of(required@) =~= seq!["symbol"@, "spread_bps"@, "order_size"@]);
        assert(texts_of(optional@) =~= seq![
            "max_orders_per_side"@,
            "inventory_target"@,
            "inventory_skew_factor"@,
            "min_edge_bps"@,
            "order_refresh_interval_ms"@,
        ]);
        StrategyConfigTemplate {
            name: "Market Making".to_string(),
            description:
                "Provides liquidity by placing buy and sell orders around the current market price".to_string(),
            strategy_type: "MarketMaking".to_string(),
            default_config: String::new(),
            required_fields: required,
            optional_fields: optional,
        }
    }

    /// The templates, each under the name of its kind.
    pub fn get_all_templates() -> (r: SymbolMap<Self>)
        ensures
            r.keys_view() == seq!["market_making"@],
            r.values_view().len() == 1,
            r.values_view()[0].is_market_making(),
    {
        let mut templates: SymbolMap<Self> = SymbolMap::new();
        templates.insert("market_making".to_string(), Self::market_making());
        assert(templates.keys_view() =~= seq!["market_making"@]);
        templates
    }
}

} // verus!
