//! What the exchange gateway is told and what it answers, and the errors
//! and events of the API layer.

use crate::utils::text::join;
use vstd::prelude::*;

verus! {

#[derive(Debug)]
pub struct ApiConfig {
    pub base_url: String,
    pub ws_url: String,
    pub timeout_ms: u64,
    /// How often a failed submission is tried again before the order is dropped.
    pub max_retries: u32,
    /// How long a failed submission waits for its next try, in milliseconds.
    pub retry_delay_ms: u64,
}

impl Clone for ApiConfig {
    fn clone(&self) -> (r: Self)
        ensures
            r == *self,
    {
        ApiConfig {
            base_url: self.base_url.clone(),
            ws_url: self.ws_url.clone(),
            timeout_ms: self.timeout_ms,
            max_retries: self.max_retries,
            retry_delay_ms: self.retry_delay_ms,
        }
    }
}

impl Default for ApiConfig {
    fn default() -> (r: Self)
        ensures
            r.base_url@ == "https://api.hyperliquid.xyz"@,
            r.ws_url@ == "wss://api.hyperliquid.xyz/ws"@,
            r.timeout_ms == 5000,
            r.max_retries == 3,
            r.retry_delay_ms == 1000,
    {
        ApiConfig {
            base_url: "https://api.hyperliquid.xyz".to_string(),
            ws_url: "wss://api.hyperliquid.xyz/ws".to_string(),
            timeout_ms: 5000,
            max_retries: 3,
            retry_delay_ms: 1000,
        }
    }
}

/// An order as the exchange takes it.
#[derive(Debug, Clone)]
pub struct HyperLiquidOrder {
    /// The account.
    pub a: Option<u64>,
    /// Whether it is a buy.
    pub b: bool,
    /// The price.
    pub p: String,
    /// The size.
    pub s: String,
    /// Whether it may only reduce a position.
    pub r: bool,
    /// The order type.
    pub t: String,
    /// The client order identity.
    pub cid: u64,
    /// The exchange's order identity.
    pub oid: Option<u64>,
}

#[derive(Debug, Clone)]
pub struct HyperLiquidOrderResponse {
    pub status: String,
    pub response: Option<HyperLiquidOrderResult>,
}

#[derive(Debug, Clone)]
pub struct HyperLiquidOrderResult {
    pub type_: String,
    pub data: Option<HyperLiquidOrderData>,
}

#[derive(Debug, Clone)]
pub struct HyperLiquidOrderData {
    pub statuses: Vec<HyperLiquidOrderStatus>,
}

#[derive(Debug, Clone)]
pub struct HyperLiquidOrderStatus {
    pub rest: Option<HyperLiquidOrderRest>,
    pub filled: Option<HyperLiquidOrderFilled>,
}

#[derive(Debug, Clone)]
pub struct HyperLiquidOrderRest {
    pub oid: u64,
    pub total_sz: String,
    pub sz: String,
    pub px: String,
    pub side: String,
    pub cloid: Option<String>,
    pub reduce_only: bool,
    pub timestamp: u64,
}

#[derive(Debug, Clone)]
pub struct HyperLiquidOrderFilled {
    pub oid: u64,
    pub total_sz: String,
    pub sz: String,
    pub px: String,
    pub side: String,
    pub cloid: Option<String>,
    pub reduce_only: bool,
    pub timestamp: u64,
}

#[derive(Debug, Clone)]
pub struct HyperLiquidPosition {
    pub coin: String,
    pub szi: String,
    pub entry_px: String,
    pub position_value: String,
    pub unrealized_pnl: String,
    pub margin_used: String,
}

#[derive(Debug, Clone)]
pub struct HyperLiquidMarginSummary {
    pub account_value: String,
    pub total_margin_used: String,
    pub total_ntl_pos: String,
    pub total_raw_usd: String,
}

#[derive(Debug, Clone)]
pub struct HyperLiquidAccountInfo {
    pub margin_summary: HyperLiquidMarginSummary,
    pub open_orders: Vec<HyperLiquidOrderRest>,
    pub asset_positions: Vec<HyperLiquidPosition>,
}

#[derive(Debug, Clone)]
pub struct HyperLiquidFill {
    pub coin: String,
    pub px: String,
    pub sz: String,
    pub side: String,
    pub time: u64,
    pub start_position: String,
    pub dir: String,
    pub closed_pnl: String,
    pub hash: String,
    pub oid: u64,
    pub crossed: bool,
    pub fee: String,
}

#[derive(Debug, Clone)]
pub struct HyperLiquidUserState {
    pub asset_positions: Vec<HyperLiquidPosition>,
    pub cross_margin_summary: HyperLiquidMarginSummary,
    pub margin_summary: HyperLiquidMarginSummary,
    pub withdrawable: String,
    pub open_orders: Vec<HyperLiquidOrderRest>,
    pub equity: String,
}

#[derive(Debug, Clone)]
pub struct HyperLiquidUserStateResponse {
    pub status: String,
    pub response: Option<HyperLiquidUserState>,
}

#[derive(Debug, Clone)]
pub struct HyperLiquidInfoRequest {
    pub type_: String,
    pub user: Option<String>,
}

#[derive(Debug, Clone)]
pub struct HyperLiquidFillsRequest {
    pub user: Option<String>,
    pub start_time: Option<u64>,
    pub end_time: Option<u64>,
}

#[derive(Debug, Clone)]
pub struct HyperLiquidFillsResponse {
    pub status: String,
    pub response: Option<Vec<HyperLiquidFill>>,
}

#[derive(Debug, Clone)]
pub struct HyperLiquidCancelRequest {
    pub oid: u64,
}

#[derive(Debug)]
pub enum ApiError {
    NetworkError(String),
    ParseError(String),
    AuthenticationError(String),
    RateLimitError(String),
    OrderRejected(String),
    InsufficientBalance(String),
    InvalidOrder(String),
    Timeout(String),
    Unknown(String),
}

impl Clone for ApiError {
    fn clone(&self) -> (r: Self)
        ensures
            r == *self,
    {
        match self {
            ApiError::NetworkError(m) => ApiError::NetworkError(m.clone()),
            ApiError::ParseError(m) => ApiError::ParseError(m.clone()),
            ApiError::AuthenticationError(m) => ApiError::AuthenticationError(m.clone()),
            ApiError::RateLimitError(m) => ApiError::RateLimitError(m.clone()),
            ApiError::OrderRejected(m) => ApiError::OrderRejected(m.clone()),
            ApiError::InsufficientBalance(m) => ApiError::InsufficientBalance(m.clone()),
            ApiError::InvalidOrder(m) => ApiError::InvalidOrder(m.clone()),
            ApiError::Timeout(m) => ApiError::Timeout(m.clone()),
            ApiError::Unknown(m) => ApiError::Unknown(m.clone()),
        }
    }
}

impl ApiError {
    /// Whether the submission pipeline tries again after this error: it
    /// does after failures of the transport and of reading the answer.
    pub open spec fn spec_is_retryable(&self) -> bool {
        self is NetworkError || self is ParseError || self is Timeout
    }

    /// Whether the submission pipeline tries again after this error.
    #[verifier::when_used_as_spec(spec_is_retryable)]
    pub fn is_retryable(&self) -> (r: bool)
        ensures
            r == self.spec_is_retryable(),
    {
        match self {
            ApiError::NetworkError(_) | ApiError::ParseError(_) | ApiError::Timeout(_) => true,
            _ => false,
        }
    }

    /// The words that name the kind of an error.
    pub open spec fn kind_text(&self) -> Seq<char> {
        match self {
            ApiError::NetworkError(_) => "Network error: "@,
            ApiError::ParseError(_) => "Parse error: "@,
            ApiError::AuthenticationError(_) => "Authentication error: "@,
            ApiError::RateLimitError(_) => "Rate limit error: "@,
            ApiError::OrderRejected(_) => "Order rejected: "@,
            ApiError::InsufficientBalance(_) => "Insufficient balance: "@,
            ApiError::InvalidOrder(_) => "Invalid order: "@,
            ApiError::Timeout(_) => "Timeout: "@,
            ApiError::Unknown(_) => "Unknown error: "@,
        }
    }

    /// What the error carries as its detail.
    pub open spec fn detail(&self) -> Seq<char> {
        match self {
            ApiError::NetworkError(m) => m@,
            ApiError::ParseError(m) => m@,
            ApiError::AuthenticationError(m) => m@,
            ApiError::RateLimitError(m) => m@,
            ApiError::OrderRejected(m) => m@,
            ApiError::InsufficientBalance(m) => m@,
            ApiError::InvalidOrder(m) => m@,
            ApiError::Timeout(m) => m@,
            ApiError::Unknown(m) => m@,
        }
    }

    /// The error in words: its kind, then its detail.
    pub fn to_string(&self) -> (r: String)
        ensures
            r@ == self.kind_text() + self.detail(),
    {
        match self {
            ApiError::NetworkError(m) => join("Network error: ", m.as_str()),
            ApiError::ParseError(m) => join("Parse error: ", m.as_str()),
            ApiError::AuthenticationError(m) => join("Authentication error: ", m.as_str()),
            ApiError::RateLimitError(m) => join("Rate limit error: ", m.as_str()),
            ApiError::OrderRejected(m) => join("Order rejected: ", m.as_str()),
            ApiError::InsufficientBalance(m) => join("Insufficient balance: ", m.as_str()),
            ApiError::InvalidOrder(m) => join("Invalid order: ", m.as_str()),
            ApiError::Timeout(m) => join("Timeout: ", m.as_str()),
            ApiError::Unknown(m) => join("Unknown error: ", m.as_str()),
        }
    }
}

#[derive(Debug, Clone)]
pub enum ApiEvent {
    OrderUpdate {
        order_id: u64,
        status: String,
        filled_size: String,
        remaining_size: String,
        price: String,
        timestamp: u64,
    },
    Fill { order_id: u64, fill_size: String, fill_price: String, fee: String, timestamp: u64 },
    PositionUpdate { coin: String, size: String, entry_price: String, unrealized_pnl: String },
    AccountUpdate { account_value: String, margin_used: String, withdrawable: String },
    Error { error: String, timestamp: u64 },
}

} // verus!
