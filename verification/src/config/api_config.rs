//! Ready-made API settings for the environments the engine runs in.

use crate::api::types::ApiConfig;
use crate::datastructures::symbol_map::{holds_key, SymbolMap};
use vstd::prelude::*;

verus! {

#[derive(Debug)]
pub struct ApiConfigTemplate {
    pub name: String,
    pub description: String,
    pub config: ApiConfig,
    pub environment: String,
}

impl Clone for ApiConfigTemplate {
    fn clone(&self) -> (r: Self)
        ensures
            r == *self,
    {
        ApiConfigTemplate {
            name: self.name.clone(),
            description: self.description.clone(),
            config: self.config.clone(),
            environment: self.environment.clone(),
        }
    }
}

impl ApiConfigTemplate {
    /// Whether this is the template of the development environment, in every
    /// setting.
    pub open spec fn is_development(&self) -> bool {
        &&& self.name@ == "Development"@
        &&& self.description@ == "Development environment configuration"@
        &&& self.environment@ == "development"@
        &&& self.config.base_url@ == "https://api.hyperliquid-testnet.xyz"@
        &&& self.config.ws_url@ == "wss://api.hyperliquid-testnet.xyz/ws"@
        &&& self.config.timeout_ms == 10000
        &&& self.config.max_retries == 5
        &&& self.config.retry_delay_ms == 2000
    }

    /// Whether this is the template of the staging environment, in every
    /// setting.
    pub open spec fn is_staging(&self) -> bool {
        &&& self.name@ == "Staging"@
        &&& self.description@ == "Staging environment configuration"@
        &&& self.environment@ == "staging"@
        &&& self.config.base_url@ == "https://api.hyperliquid.xyz"@
        &&& self.config.ws_url@ == "wss://api.hyperliquid.xyz/ws"@
        &&& self.config.timeout_ms == 5000
        &&& self.config.max_retries == 3
        &&& self.config.retry_delay_ms == 1000
    }

    /// Whether this is the template of the production environment, in every
    /// setting.
    pub open spec fn is_production(&self) -> bool {
        &&& self.name@ == "Production"@
        &&& self.description@ == "Production environment configuration"@
        &&& self.environment@ == "production"@
        &&& self.config.base_url@ == "https://api.hyperliquid.xyz"@
        &&& self.config.ws_url@ == "wss://api.hyperliquid.xyz/ws"@
        &&& self.config.timeout_ms == 3000
        &&& self.config.max_retries == 2
        &&& self.config.retry_delay_ms == 500
    }

    /// The test network, with long timeouts and many retries.
    pub fn development() -> (r: Self)
        ensures
            r.is_development(),
    {
        ApiConfigTemplate {
            name: "Development".to_string(),
            description: "Development environment configuration".to_string(),
            config: ApiConfig {
                base_url: "https://api.hyperliquid-testnet.xyz".to_string(),
                ws_url: "wss://api.hyperliquid-testnet.xyz/ws".to_string(),
                timeout_ms: 10000,
                max_retries: 5,
                retry_delay_ms: 2000,
            },
            environment: "development".to_string(),
        }
    }

    /// The live network, with the default timeouts and retries.
    pub fn staging() -> (r: Self)
        ensures
            r.is_staging(),
    {
        ApiConfigTemplate {
            name: "Staging".to_string(),
            description: "Staging environment configuration".to_string(),
            config: ApiConfig {
                base_url: "https://api.hyperliquid.xyz".to_string(),
                ws_url: "wss://api.hyperliquid.xyz/ws".to_string(),
                timeout_ms: 5000,
                max_retries: 3,
                retry_delay_ms: 1000,
            },
            environment: "staging".to_string(),
        }
    }

    /// The live network, with short timeouts and few retries.
    pub fn production() -> (r: Self)
        ensures
            r.is_production(),
    {
        ApiConfigTemplate {
            name: "Production".to_string(),
            description: "Production environment configuration".to_string(),
            config: ApiConfig {
                base_url: "https://api.hyperliquid.xyz".to_string(),
                ws_url: "wss://api.hyperliquid.xyz/ws".to_string(),
                timeout_ms: 3000,
                max_retries: 2,
                retry_delay_ms: 500,
            },
            environment: "production".to_string(),
        }
    }

    /// The three templates, each under the name of its environment.
    pub fn get_all_templates() -> (r: SymbolMap<Self>)
        ensures
            r.keys_view() == seq!["development"@, "staging"@, "production"@],
            r.values_view().len() == 3,
            r.values_view()[0].is_development(),
            r.values_view()[1].is_staging(),
            r.values_view()[2].is_production(),
    {
        proof {
            reveal_strlit("development");
            reveal_strlit("staging");
            reveal_strlit("production");
        }
        let mut templates: SymbolMap<Self> = SymbolMap::new();
        templates.insert("development".to_string(), Self::development());
        assert(templates.keys_view() =~= seq!["development"@]);
        assert(!holds_key(templates.keys_view(), "staging"@)) by {
            assert("development"@.len() != "staging"@.len());
        }
        templates.insert("staging".to_string(), Self::staging());
        assert(templates.keys_view() =~= seq!["development"@, "staging"@]);
        assert(!holds_key(templates.keys_view(), "production"@)) by {
            assert("development"@.len() != "production"@.len());
            assert("staging"@.len() != "production"@.len());
        }
        templates.insert("production".to_string(), Self::production());
        assert(templates.keys_view() =~= seq!["development"@, "staging"@, "production"@]);
        templates
    }
}

} // verus!
