//! The messages that the market-data connection sends to the exchange.

use vstd::prelude::*;
use vstd::string::StringExecFns;

verus! {

/// After how many seconds without an answer a connection counts as stale.
pub const STALE_AFTER_SECS: u64 = 70;

/// A request to stream a channel of the exchange.
#[derive(Debug, Clone)]
pub struct HypeStreamRequest {
    pub method: &'static str,
    pub subscription: SubscriptionType,
}

#[derive(Debug, Clone)]
pub enum SubscriptionType {
    L2Book(L2BookSubscription),
}

#[derive(Debug, Clone)]
pub struct L2BookSubscription {
    pub type_field: String,
    pub coin: String,
}

impl HypeStreamRequest {
    /// The request that subscribes to the channel `type_field` for `coin`.
    pub fn subscribe_payload(type_field: &str, coin: &str) -> (r: Self)
        ensures
            r.method@ == "subscribe"@,
            r.subscription matches SubscriptionType::L2Book(book) && book.type_field@
                == type_field@ && book.coin@ == coin@,
    {
        HypeStreamRequest {
            method: "subscribe",
            subscription: SubscriptionType::L2Book(
                L2BookSubscription {
                    type_field: String::from_str(type_field),
                    coin: String::from_str(coin),
                },
            ),
        }
    }
}

pub struct Ping {
    pub method: &'static str,
}

impl Ping {
    /// The message that asks the exchange for a pong.
    pub fn ping() -> (r: Self)
        ensures
            r.method@ == "ping "@,
    {
        Ping { method: "ping " }
    }
}

/// What a connection does after a message.
#[derive(Debug, Clone, Copy, PartialEq, Eq, Structural)]
pub enum WSState {
    Continue,
    Closed,
}

/// Whether a connection that last heard from the exchange `elapsed_secs`
/// ago counts as stale.
pub open spec fn spec_is_stale(elapsed_secs: u64) -> bool {
    elapsed_secs > STALE_AFTER_SECS
}

/// Whether a connection that last heard from the exchange `elapsed_secs` ago counts as stale.
#[verifier::when_used_as_spec(spec_is_stale)]
pub fn is_stale(elapsed_secs: u64) -> (r: bool)
    ensures
        r == spec_is_stale(elapsed_secs),
{
    elapsed_secs > STALE_AFTER_SECS
}

} // verus!
