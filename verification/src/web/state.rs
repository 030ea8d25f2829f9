//! What the dashboard knows of the bot.

use vstd::prelude::*;
use crate::decimal::Decimal;

verus! {

/// Whether the bot is at work.
#[derive(Clone, Copy, Debug, PartialEq, Eq, Structural)]
pub enum BotStatus {
    Running,
    Stopped,
    Error,
}

/// How a trade ended.
#[derive(Clone, Copy, Debug, PartialEq, Eq, Structural)]
pub enum TradeStatus {
    Success,
    Failed,
    Simulated,
}

/// A trade in the history. The identifier and the time are held as the texts
/// under which the dashboard shows them.
#[derive(Debug)]
pub struct TradeRecord {
    pub id: String,
    pub timestamp: String,
    pub from_dex: String,
    pub to_dex: String,
    pub base_token: String,
    pub quote_token: String,
    pub amount: Decimal,
    pub profit_percent: Decimal,
    pub profit_sol: Decimal,
    pub status: TradeStatus,
    pub tx_signature: Option<String>,
}

impl BotStatus {
    /// The word the dashboard shows for the status.
    pub open spec fn label_spec(self) -> Seq<char> {
        match self {
            BotStatus::Running => "running"@,
            BotStatus::Stopped => "stopped"@,
            BotStatus::Error => "error"@,
        }
    }

    /// The word the dashboard shows for the status.
    pub fn label(&self) -> (r: &'static str)
        ensures
            r@ == self.label_spec(),
    {
        match self {
            BotStatus::Running => "running",
            BotStatus::Stopped => "stopped",
            BotStatus::Error => "error",
        }
    }
}

impl TradeStatus {
    /// The word the dashboard shows for the status.
    pub open spec fn label_spec(self) -> Seq<char> {
        match self {
            TradeStatus::Success => "success"@,
            TradeStatus::Failed => "failed"@,
            TradeStatus::Simulated => "simulated"@,
        }
    }

    /// The word the dashboard shows for the status.
    pub fn label(&self) -> (r: &'static str)
        ensures
            r@ == self.label_spec(),
    {
        match self {
            TradeStatus::Success => "success",
            TradeStatus::Failed => "failed",
            TradeStatus::Simulated => "simulated",
        }
    }
}

impl TradeRecord {
    /// The decimals of the record are well formed.
    pub open spec fn wf(&self) -> bool {
        self.amount.wf() && self.profit_percent.wf() && self.profit_sol.wf()
    }
}

/// The seconds the bot has been up, given the whole seconds that have gone by
/// on the clock since it started. A clock that was set back makes them
/// negative; they are then counted up from `2^64`.
pub open spec fn uptime_spec(elapsed_seconds: i64) -> u64 {
    if elapsed_seconds >= 0 {
        elapsed_seconds as u64
    } else {
        (elapsed_seconds + 0x1_0000_0000_0000_0000) as u64
    }
}

/// The seconds the bot has been up.
pub fn uptime_seconds(elapsed_seconds: i64) -> (r: u64)
    ensures
        r == uptime_spec(elapsed_seconds),
{
    if elapsed_seconds >= 0 {
        elapsed_seconds as u64
    } else {
        let below: u64 = (-(elapsed_seconds + 1)) as u64;
        u64::MAX - below
    }
}

} // verus!
