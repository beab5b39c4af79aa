//! What the engine keeps of the account as the exchange reports it:
//! positions and balances. Times are in milliseconds.

use crate::api::types::{
    ApiConfig, ApiError, ApiEvent, HyperLiquidAccountInfo, HyperLiquidFill,
    HyperLiquidFillsResponse, HyperLiquidOrderRest, HyperLiquidPosition, HyperLiquidUserState,
    HyperLiquidUserStateResponse,
};
use crate::clock::utc_now_millis;
use crate::datastructures::symbol_map::{keys_with, same_text, values_with, SymbolMap};
use crate::numeric::decimal::{decimal_of_text, Decimal, Notional, DECIMAL_SCALE};
use crate::trading::types::Position;
use crate::utils::text::join;
use vstd::prelude::*;

verus! {

/// The numbers of a reported position, where its size, its entry price
/// and its open profit are all decimals.
pub open spec fn reported_numbers(report: HyperLiquidPosition) -> Option<(int, int, int)> {
    match (
        decimal_of_text(report.szi@),
        decimal_of_text(report.entry_px@),
        decimal_of_text(report.unrealized_pnl@),
    ) {
        (Some(size), Some(entry), Some(open)) => Some((size, entry, open)),
        _ => None,
    }
}

/// The position that a readable report describes, as a record.
pub open spec fn reported_position(report: HyperLiquidPosition, now: i64) -> Position {
    match reported_numbers(report) {
        Some((size, entry, open)) => Position {
            symbol: report.coin,
            size: Decimal::from_units(size),
            entry_price: Decimal::from_units(entry),
            mark_price: Decimal::from_units(entry),
            unrealized_pnl: Notional::from_units(open * DECIMAL_SCALE),
            realized_pnl: Notional::from_units(0),
            updated_at: now,
        },
        None => arbitrary(),
    }
}

/// The position that a report describes. The exchange reports no mark
/// price, so the entry price stands for it, and the open profit is the
/// exchange's figure, not one derived from the prices; what was realized
/// is not reported and counts as nothing.
pub fn position_from_report(report: &HyperLiquidPosition, now: i64) -> (r: Option<Position>)
    ensures
        match reported_numbers(*report) {
            Some((size, entry, open)) => r == Some(reported_position(*report, now)) && r->0.size@
                == size && r->0.entry_price@ == entry && r->0.mark_price@ == entry
                && r->0.unrealized_pnl@ == open * DECIMAL_SCALE && r->0.realized_pnl@ == 0,
            None => r is None,
        },
{
    let size = Decimal::from_str(report.szi.as_str());
    let entry = Decimal::from_str(report.entry_px.as_str());
    let open = Decimal::from_str(report.unrealized_pnl.as_str());
    match (size, entry, open) {
        (Some(size), Some(entry), Some(open)) => {
            proof {
                broadcast use Decimal::lemma_units_round_trip, Notional::lemma_units_round_trip;

            }
            Some(
            Position {
                symbol: report.coin.clone(),
                size,
                entry_price: entry,
                mark_price: entry,
                unrealized_pnl: Notional::from_decimal(&open),
                realized_pnl: Notional::zero(),
                updated_at: now,
            },
        )
        },
        _ => None,
    }
}

/// `r` is what reading the amount `text` gives: the amount, or an error
/// of parsing in words that name the amount.
pub open spec fn amount_read(r: Result<Decimal, ApiError>, text: Seq<char>, what: Seq<char>) -> bool {
    match decimal_of_text(text) {
        Some(units) => r matches Ok(d) && d@ == units,
        None => r matches Err(ApiError::ParseError(m)) && m@ == "Failed to parse "@ + what,
    }
}

/// Reads an amount of the account; an amount that is no decimal is an
/// error of parsing, in words that name the amount.
pub fn parse_amount(text: &str, what: &str) -> (r: Result<Decimal, ApiError>)
    ensures
        amount_read(r, text@, what@),
{
    match Decimal::from_str(text) {
        Some(d) => Ok(d),
        None => Err(ApiError::ParseError(join("Failed to parse ", what))),
    }
}

/// What the exchange's answer to a question about the account means, as
/// far as its envelope goes: the state of the account, or why there is none.
pub fn judge_account_response(
    http_ok: bool,
    status_line: &str,
    answer: Result<HyperLiquidUserStateResponse, String>,
) -> (r: Result<HyperLiquidAccountInfo, ApiError>)
    ensures
        !http_ok ==> (r matches Err(ApiError::NetworkError(m)) && m@
            == "Account info request failed with status: "@ + status_line@),
        http_ok ==> match answer {
            Err(why) => r matches Err(ApiError::ParseError(m)) && m == why,
            Ok(response) => if response.status@ != "ok"@ {
                r matches Err(ApiError::NetworkError(m)) && m@
                    == "Account info response status not ok"@
            } else {
                match response.response {
                    None => r matches Err(ApiError::ParseError(m)) && m@
                        == "No user state in response"@,
                    Some(state) => r matches Ok(info) && info.margin_summary
                        == state.margin_summary && info.open_orders == state.open_orders
                        && info.asset_positions == state.asset_positions,
                }
            },
        },
{
    if !http_ok {
        return Err(
            ApiError::NetworkError(join("Account info request failed with status: ", status_line)),
        );
    }
    match answer {
        Err(why) => Err(ApiError::ParseError(why)),
        Ok(response) => {
            if !same_text(response.status.as_str(), "ok") {
                return Err(
                    ApiError::NetworkError("Account info response status not ok".to_string()),
                );
            }
            match response.response {
                None => Err(ApiError::ParseError("No user state in response".to_string())),
                Some(state) => Ok(
                    HyperLiquidAccountInfo {
                        margin_summary: state.margin_summary,
                        open_orders: state.open_orders,
                        asset_positions: state.asset_positions,
                    },
                ),
            }
        },
    }
}

/// What the exchange's answer to a question about what can be withdrawn
/// means: the amount, or why there is none.
pub fn judge_withdrawable_response(
    http_ok: bool,
    status_line: &str,
    answer: Result<HyperLiquidUserStateResponse, String>,
) -> (r: Result<Decimal, ApiError>)
    ensures
        !http_ok ==> (r matches Err(ApiError::NetworkError(m)) && m@
            == "Withdrawable request failed with status: "@ + status_line@),
        http_ok ==> match answer {
            Err(why) => r matches Err(ApiError::ParseError(m)) && m == why,
            Ok(response) => if response.status@ != "ok"@ {
                r matches Err(ApiError::NetworkError(m)) && m@
                    == "Withdrawable response status not ok"@
            } else {
                match response.response {
                    None => r matches Err(ApiError::ParseError(m)) && m@
                        == "No user state in response"@,
                    Some(state) => amount_read(r, state.withdrawable@, "withdrawable"@),
                }
            },
        },
{
    if !http_ok {
        return Err(
            ApiError::NetworkError(join("Withdrawable request failed with status: ", status_line)),
        );
    }
    match answer {
        Err(why) => Err(ApiError::ParseError(why)),
        Ok(response) => {
            if !same_text(response.status.as_str(), "ok") {
                return Err(
                    ApiError::NetworkError("Withdrawable response status not ok".to_string()),
                );
            }
            match response.response {
                None => Err(ApiError::ParseError("No user state in response".to_string())),
                Some(state) => AccountApi::get_withdrawable(&state),
            }
        },
    }
}

/// What the exchange's answer to a question about fills means: the fills,
/// none where the answer names none, or why there are none.
pub fn judge_fills_response(
    http_ok: bool,
    status_line: &str,
    answer: Result<HyperLiquidFillsResponse, String>,
) -> (r: Result<Vec<HyperLiquidFill>, ApiError>)
    ensures
        !http_ok ==> (r matches Err(ApiError::NetworkError(m)) && m@
            == "Fills request failed with status: "@ + status_line@),
        http_ok ==> match answer {
            Err(why) => r matches Err(ApiError::ParseError(m)) && m == why,
            Ok(response) => if response.status@ != "ok"@ {
                r matches Err(ApiError::NetworkError(m)) && m@ == "Fills response status not ok"@
            } else {
                match response.response {
                    None => r matches Ok(fills) && fills@.len() == 0,
                    Some(listed) => r matches Ok(fills) && fills == listed,
                }
            },
        },
{
    if !http_ok {
        return Err(ApiError::NetworkError(join("Fills request failed with status: ", status_line)));
    }
    match answer {
        Err(why) => Err(ApiError::ParseError(why)),
        Ok(response) => {
            if !same_text(response.status.as_str(), "ok") {
                return Err(ApiError::NetworkError("Fills response status not ok".to_string()));
            }
            match response.response {
                None => Ok(Vec::new()),
                Some(listed) => Ok(listed),
            }
        },
    }
}

/// The positions that the first `n` reports describe: one for each that
/// is readable, in their order.
pub open spec fn positions_of_reports(reports: Seq<HyperLiquidPosition>, now: i64, n: int) -> Seq<
    Position,
>
    decreases n,
{
    if n <= 0 {
        Seq::empty()
    } else if reported_numbers(reports[n - 1]) is Some {
        positions_of_reports(reports, now, n - 1).push(reported_position(reports[n - 1], now))
    } else {
        positions_of_reports(reports, now, n - 1)
    }
}

pub struct AccountApi {
    pub config: ApiConfig,
    /// The positions as last reported, each under its symbol.
    pub positions: SymbolMap<Position>,
    pub account_info: Option<HyperLiquidAccountInfo>,
    pub last_update: i64,
    /// The events that wait to be drained.
    pub events: Vec<ApiEvent>,
}

/// The event that tells of a report.
pub open spec fn report_event(report: HyperLiquidPosition) -> ApiEvent {
    ApiEvent::PositionUpdate {
        coin: report.coin,
        size: report.szi,
        entry_price: report.entry_px,
        unrealized_pnl: report.unrealized_pnl,
    }
}

/// The events of the first `n` reports: one for each that is readable, in
/// their order.
pub open spec fn report_events(reports: Seq<HyperLiquidPosition>, n: int) -> Seq<ApiEvent>
    decreases n,
{
    if n <= 0 {
        Seq::empty()
    } else if reported_numbers(reports[n - 1]) is Some {
        report_events(reports, n - 1).push(report_event(reports[n - 1]))
    } else {
        report_events(reports, n - 1)
    }
}

/// The symbols of the cache after the first `n` reports were taken in.
pub open spec fn cached_keys(keys: Seq<Seq<char>>, reports: Seq<HyperLiquidPosition>, n: int) -> Seq<
    Seq<char>,
>
    decreases n,
{
    if n <= 0 {
        keys
    } else if reported_numbers(reports[n - 1]) is Some {
        keys_with(cached_keys(keys, reports, n - 1), reports[n - 1].coin@)
    } else {
        cached_keys(keys, reports, n - 1)
    }
}

/// The positions of the cache after the first `n` reports were taken in:
/// each readable report sets the position of its coin.
pub open spec fn cached_positions(
    keys: Seq<Seq<char>>,
    positions: Seq<Position>,
    reports: Seq<HyperLiquidPosition>,
    now: i64,
    n: int,
) -> Seq<Position>
    decreases n,
{
    if n <= 0 {
        positions
    } else if reported_numbers(reports[n - 1]) is Some {
        values_with(
            cached_keys(keys, reports, n - 1),
            cached_positions(keys, positions, reports, now, n - 1),
            reports[n - 1].coin@,
            reported_position(reports[n - 1], now),
        )
    } else {
        cached_positions(keys, positions, reports, now, n - 1)
    }
}

impl AccountApi {
    /// A cache that remembers nothing, last updated at `now`.
    pub fn new_at(config: ApiConfig, now: i64) -> (r: Self)
        ensures
            r.config == config,
            r.positions.spec_len() == 0,
            r.account_info is None,
            r.last_update == now,
            r.events@.len() == 0,
    {
        AccountApi {
            config,
            positions: SymbolMap::new(),
            account_info: None,
            last_update: now,
            events: Vec::new(),
        }
    }

    /// A cache that remembers nothing, last updated now.
    pub fn new(config: ApiConfig) -> (r: Self)
        ensures
            r.config == config,
            r.positions.spec_len() == 0,
            r.account_info is None,
            r.events@.len() == 0,
    {
        Self::new_at(config, utc_now_millis())
    }

    /// Takes the reported positions into the cache, each readable one under
    /// its symbol, and queues an event for each of them and, at the end,
    /// one for the account.
    pub fn update_positions_from_account_info(&mut self, info: &HyperLiquidAccountInfo, now: i64)
        ensures
            final(self).positions.keys_view() == cached_keys(
                old(self).positions.keys_view(),
                info.asset_positions@,
                info.asset_positions@.len() as int,
            ),
            final(self).positions.values_view() == cached_positions(
                old(self).positions.keys_view(),
                old(self).positions.values_view(),
                info.asset_positions@,
                now,
                info.asset_positions@.len() as int,
            ),
            final(self).events@.len() > 0,
            final(self).events@.drop_last() == old(self).events@ + report_events(
                info.asset_positions@,
                info.asset_positions@.len() as int,
            ),
            final(self).events@.last() matches ApiEvent::AccountUpdate {
                account_value,
                margin_used,
                withdrawable,
            } && account_value == info.margin_summary.account_value && margin_used
                == info.margin_summary.total_margin_used && withdrawable@ == "0"@,
            final(self).config == old(self).config,
            final(self).account_info == old(self).account_info,
            final(self).last_update == old(self).last_update,
    {
        let reports = &info.asset_positions;
        let ghost keys_before = self.positions.keys_view();
        let ghost held_before = self.positions.values_view();
        let ghost events_before = self.events@;
        let mut i: usize = 0;
        assert(self.events@ =~= events_before + report_events(reports@, 0));
        while i < reports.len()
            invariant
                i <= reports.len(),
                reports == &info.asset_positions,
                self.positions.keys_view() == cached_keys(keys_before, reports@, i as int),
                self.positions.values_view() == cached_positions(
                    keys_before,
                    held_before,
                    reports@,
                    now,
                    i as int,
                ),
                self.events@ == events_before + report_events(reports@, i as int),
                self.config == old(self).config,
                self.account_info == old(self).account_info,
                self.last_update == old(self).last_update,
            decreases reports.len() - i,
        {
            let report = &reports[i];
            match position_from_report(report, now) {
                Some(position) => {
                    self.positions.insert(report.coin.clone(), position);
                    let event = ApiEvent::PositionUpdate {
                        coin: report.coin.clone(),
                        size: report.szi.clone(),
                        entry_price: report.entry_px.clone(),
                        unrealized_pnl: report.unrealized_pnl.clone(),
                    };
                    assert(event == report_event(*report));
                    self.events.push(event);
                    assert(self.events@ =~= events_before + report_events(reports@, i + 1));
                },
                None => {},
            }
            i = i + 1;
        }
        let ghost held = self.events@;
        self.events.push(
            ApiEvent::AccountUpdate {
                account_value: info.margin_summary.account_value.clone(),
                margin_used: info.margin_summary.total_margin_used.clone(),
                withdrawable: "0".to_string(),
            },
        );
        assert(self.events@.drop_last() =~= held);
    }

    /// Takes a state of the account as the exchange reported it at the
    /// time `now`: it becomes the state remembered, and its positions go
    /// into the cache.
    pub fn absorb_account_info(&mut self, info: HyperLiquidAccountInfo, now: i64)
        ensures
            final(self).account_info == Some(info),
            final(self).last_update == now,
            final(self).positions.keys_view() == cached_keys(
                old(self).positions.keys_view(),
                info.asset_positions@,
                info.asset_positions@.len() as int,
            ),
            final(self).positions.values_view() == cached_positions(
                old(self).positions.keys_view(),
                old(self).positions.values_view(),
                info.asset_positions@,
                now,
                info.asset_positions@.len() as int,
            ),
            final(self).events@.len() > 0,
            final(self).events@.drop_last() == old(self).events@ + report_events(
                info.asset_positions@,
                info.asset_positions@.len() as int,
            ),
            final(self).config == old(self).config,
    {
        self.update_positions_from_account_info(&info, now);
        self.account_info = Some(info);
        self.last_update = now;
    }

    /// The positions that a state of the account reports, as records
    /// stamped with the time `now`; reports that cannot be read are left out.
    pub fn get_positions(info: &HyperLiquidAccountInfo, now: i64) -> (r: Vec<Position>)
        ensures
            r@ == positions_of_reports(
                info.asset_positions@,
                now,
                info.asset_positions@.len() as int,
            ),
    {
        let reports = &info.asset_positions;
        let n = reports.len();
        let mut out: Vec<Position> = Vec::new();
        let mut i: usize = 0;
        while i < n
            invariant
                i <= n,
                n == reports@.len(),
                out@ == positions_of_reports(reports@, now, i as int),
            decreases n - i,
        {
            match position_from_report(&reports[i], now) {
                Some(position) => {
                    out.push(position);
                },
                None => {},
            }
            i = i + 1;
        }
        out
    }

    /// The value of the account, as a state of the account reports it.
    pub fn get_balance(info: &HyperLiquidAccountInfo) -> (r: Result<Decimal, ApiError>)
        ensures
            amount_read(r, info.margin_summary.account_value@, "balance"@),
    {
        parse_amount(info.margin_summary.account_value.as_str(), "balance")
    }

    /// The margin in use, as a state of the account reports it.
    pub fn get_margin_used(info: &HyperLiquidAccountInfo) -> (r: Result<Decimal, ApiError>)
        ensures
            amount_read(r, info.margin_summary.total_margin_used@, "margin used"@),
    {
        parse_amount(info.margin_summary.total_margin_used.as_str(), "margin used")
    }

    /// What can be withdrawn, as the exchange reports it of the user.
    pub fn get_withdrawable(state: &HyperLiquidUserState) -> (r: Result<Decimal, ApiError>)
        ensures
            amount_read(r, state.withdrawable@, "withdrawable"@),
    {
        parse_amount(state.withdrawable.as_str(), "withdrawable")
    }

    /// The orders that rest at the exchange, as a state of the account
    /// reports them.
    pub fn get_open_orders(info: HyperLiquidAccountInfo) -> (r: Vec<HyperLiquidOrderRest>)
        ensures
            r == info.open_orders,
    {
        info.open_orders
    }

    /// The state of the account as last remembered.
    pub fn get_cached_account_info(&self) -> (r: Option<&HyperLiquidAccountInfo>)
        ensures
            match r {
                Some(info) => self.account_info == Some(*info),
                None => self.account_info is None,
            },
    {
        match &self.account_info {
            Some(info) => Some(info),
            None => None,
        }
    }

    /// The position of a symbol as last reported.
    pub fn get_cached_position(&self, symbol: &str) -> (r: Option<Position>)
        ensures
            r == self.positions.value_of(symbol@),
    {
        match self.positions.get(symbol) {
            Some(p) => Some(p.clone()),
            None => None,
        }
    }

    /// The positions as last reported, in the order in which their
    /// symbols first came.
    pub fn get_all_cached_positions(&self) -> (r: Vec<Position>)
        ensures
            r@ == self.positions.values_view(),
    {
        let n = self.positions.len();
        let mut out: Vec<Position> = Vec::new();
        let mut i: usize = 0;
        while i < n
            invariant
                i <= n,
                n == self.positions.spec_len(),
                self.positions.wf(),
                out@ == self.positions.values_view().take(i as int),
            decreases n - i,
        {
            out.push(self.positions.value_at(i).clone());
            assert(out@ =~= self.positions.values_view().take(i + 1));
            i = i + 1;
        }
        assert(self.positions.values_view().take(n as int) =~= self.positions.values_view());
        out
    }

    /// Whether the whole seconds since the account was last remembered, at
    /// the time `now`, are fewer than `max_age_seconds`.
    pub open spec fn fresh_at(&self, max_age_seconds: u64, now: i64) -> bool {
        (if now >= self.last_update {
            (now - self.last_update) / 1000
        } else {
            0
        }) < max_age_seconds
    }

    /// Whether what is remembered of the account is younger, at the time
    /// `now`, than `max_age_seconds`.
    pub fn is_data_fresh_at(&self, max_age_seconds: u64, now: i64) -> (r: bool)
        ensures
            r == self.fresh_at(max_age_seconds, now),
    {
        let elapsed: i128 = if now >= self.last_update {
            ((now as i128) - (self.last_update as i128)) / 1000
        } else {
            0
        };
        elapsed < max_age_seconds as i128
    }

    /// Whether what is remembered of the account is younger than
    /// `max_age_seconds`.
    pub fn is_data_fresh(&self, max_age_seconds: u64) -> (r: bool)
        ensures
            exists|now: i64| r == #[trigger] self.fresh_at(max_age_seconds, now),
    {
        self.is_data_fresh_at(max_age_seconds, utc_now_millis())
    }

    /// Hands out the events that wait, oldest first, and forgets them.
    pub fn drain_events(&mut self) -> (r: Vec<ApiEvent>)
        ensures
            r@ == old(self).events@,
            final(self).events@ == Seq::<ApiEvent>::empty(),
            final(self).config == old(self).config,
            final(self).positions == old(self).positions,
            final(self).account_info == old(self).account_info,
            final(self).last_update == old(self).last_update,
    {
        let mut out: Vec<ApiEvent> = Vec::new();
        core::mem::swap(&mut out, &mut self.events);
        out
    }
}

} // verus!
