//! The messages pushed to the dashboard, and who may subscribe to them.

use vstd::prelude::*;
use crate::decimal::{Decimal, decimal_text};
use crate::text::copy_text;
use crate::web::auth::{expected_password, expected_user, token_matches, verify_ws_token_with_defaults};
use crate::web::state::BotStatus;

verus! {

/// A message pushed to the dashboard.
#[derive(Debug)]
pub enum WsMessage {
    Status { status: String, simulation_mode: bool, uptime_seconds: u64 },
    Opportunity {
        from_dex: String,
        to_dex: String,
        base_token: String,
        quote_token: String,
        profit_percent: String,
        profit_percent_after_fees: String,
    },
    Trade {
        id: String,
        timestamp: String,
        from_dex: String,
        to_dex: String,
        profit_percent: String,
        status: String,
    },
    Metrics { total_trades: u64, successful_trades: u64, failed_trades: u64, total_profit_sol: String },
    Error { message: String },
}

/// What a subscriber sends along.
#[derive(Debug)]
pub struct WsQuery {
    pub token: Option<String>,
}

/// Whether a subscription is let in.
#[derive(Clone, Copy, Debug, PartialEq, Eq, Structural)]
pub enum WsAccess {
    /// The token is the right one.
    Granted,
    /// No token was sent.
    TokenRequired,
    /// The token is not the right one.
    Unauthorized,
}

/// The message that tells the bot's status.
pub fn status_message(status: BotStatus, simulation_mode: bool, uptime_seconds: u64) -> (r: WsMessage)
    ensures
        r matches WsMessage::Status { status: s, simulation_mode: m, uptime_seconds: u } && s@
            == status.label_spec() && m == simulation_mode && u == uptime_seconds,
{
    WsMessage::Status { status: copy_text(status.label()), simulation_mode, uptime_seconds }
}

/// The message that tells the trade counts and the profit so far.
pub fn metrics_message(
    total_trades: u64,
    successful_trades: u64,
    failed_trades: u64,
    total_profit_sol: Decimal,
) -> (r: WsMessage)
    requires
        total_profit_sol.wf(),
    ensures
        r matches WsMessage::Metrics { total_trades: t, successful_trades: s, failed_trades: f, total_profit_sol: p }
            && t == total_trades && s == successful_trades && f == failed_trades && p@ == decimal_text(
            total_profit_sol,
        ),
{
    WsMessage::Metrics {
        total_trades,
        successful_trades,
        failed_trades,
        total_profit_sol: total_profit_sol.to_text(),
    }
}

/// Decides whether a subscription is let in: it must send the token that
/// stands for the dashboard's user and password. Where no user is set it is
/// `admin`; where no password is set it is empty.
pub fn ws_access(query: &WsQuery, username: Option<&str>, password: Option<&str>) -> (r: WsAccess)
    ensures
        r == match query.token {
            None => WsAccess::TokenRequired,
            Some(token) => if token_matches(
                token@,
                expected_user(
                    match username {
                        Some(u) => Some(u@),
                        None => None,
                    },
                ),
                expected_password(
                    match password {
                        Some(p) => Some(p@),
                        None => None,
                    },
                ),
            ) {
                WsAccess::Granted
            } else {
                WsAccess::Unauthorized
            },
        },
{
    match &query.token {
        None => WsAccess::TokenRequired,
        Some(token) => {
            if verify_ws_token_with_defaults(token.as_str(), username, password) {
                WsAccess::Granted
            } else {
                WsAccess::Unauthorized
            }
        },
    }
}

} // verus!
