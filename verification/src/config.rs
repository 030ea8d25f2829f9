//! Settings of the bot and the rules a usable configuration obeys.

use vstd::prelude::*;
use crate::decimal::Decimal;

verus! {

/// Everything the bot is configured with.
#[derive(Debug)]
pub struct Config {
    pub network: NetworkConfig,
    pub wallet: WalletConfig,
    pub arbitrage: ArbitrageConfig,
    pub dex: DexConfig,
    pub monitoring: MonitoringConfig,
    pub safety: SafetyConfig,
    pub web: WebConfig,
}

/// How the chain is reached.
#[derive(Debug)]
pub struct NetworkConfig {
    /// RPC endpoint.
    pub rpc_url: String,
    /// WebSocket endpoint for subscriptions.
    pub ws_url: Option<String>,
    /// Confirmation level asked of transactions.
    pub commitment: String,
}

/// Where the signing key is kept.
#[derive(Debug)]
pub struct WalletConfig {
    /// Path of the key file.
    pub keypair_path: String,
}

/// Thresholds of the arbitrage engine.
#[derive(Debug)]
pub struct ArbitrageConfig {
    /// Least profit after fees, in percent, for an opportunity to be kept.
    pub min_profit_percent: Decimal,
    /// Largest trade, in units of the base asset.
    pub max_trade_amount_sol: Decimal,
    /// Slippage tolerated where no live estimate is to be had, in percent.
    pub slippage_tolerance: Decimal,
    /// Time allowed to each leg, in seconds.
    pub transaction_timeout_sec: u64,
}

/// Venues and pairs to watch.
#[derive(Debug)]
pub struct DexConfig {
    /// Names of the venues to register.
    pub enabled_dexes: Vec<String>,
    /// Pairs to scan, each written `BASE/QUOTE`.
    pub trading_pairs: Vec<String>,
}

/// Polling and logging.
#[derive(Debug)]
pub struct MonitoringConfig {
    /// Pause between two scans, in milliseconds.
    pub check_interval_ms: u64,
    /// Log level.
    pub log_level: String,
    /// Path of the log file.
    pub log_file: String,
}

/// Safety limits.
#[derive(Debug)]
pub struct SafetyConfig {
    /// In simulation mode nothing is submitted to a venue.
    pub simulation_mode: bool,
    /// Failed executions in a row after which the engine reports a fatal condition.
    pub max_consecutive_failures: u32,
    /// Least balance with which the bot goes on.
    pub min_balance_sol: Decimal,
}

/// The dashboard's listener.
#[derive(Debug)]
pub struct WebConfig {
    /// Whether the dashboard is served.
    pub enabled: bool,
    /// Port of the HTTP listener.
    pub port: u16,
    /// Address the listener binds to.
    pub bind_address: String,
    /// Directory of the static files.
    pub static_dir: String,
}

/// Why a configuration is refused.
#[derive(Clone, Copy, Debug, PartialEq, Eq, Structural)]
pub enum ConfigError {
    /// The RPC endpoint is empty.
    EmptyRpcUrl,
    /// A decimal setting has a mantissa or scale out of range.
    MalformedNumber,
    /// The least profit is not above zero.
    NonPositiveMinProfit,
    /// The largest trade is not above zero.
    NonPositiveMaxTrade,
    /// The polling interval is zero.
    ZeroCheckInterval,
}

/// The dashboard is served unless switched off.
pub fn default_true() -> (r: bool)
    ensures
        r,
{
    true
}

/// The dashboard's port unless another is named.
pub fn default_web_port() -> (r: u16)
    ensures
        r == 8080,
{
    8080
}

/// The dashboard listens on the loopback address unless another is named.
pub fn default_bind_address() -> (r: String)
    ensures
        r@ == "127.0.0.1"@,
{
    "127.0.0.1".to_owned()
}

/// The directory of the static files unless another is named: beside the
/// program on Windows, under the installation directory elsewhere.
pub fn default_static_dir(windows: bool) -> (r: String)
    ensures
        r@ == if windows {
            "static"@
        } else {
            "/opt/arb-bot/static"@
        },
{
    if windows {
        "static".to_owned()
    } else {
        "/opt/arb-bot/static".to_owned()
    }
}

impl WebConfig {
    /// The settings used where the configuration has no section for the dashboard.
    pub fn with_defaults(windows: bool) -> (r: WebConfig)
        ensures
            r.enabled,
            r.port == 8080,
            r.bind_address@ == "127.0.0.1"@,
            r.static_dir@ == if windows {
                "static"@
            } else {
                "/opt/arb-bot/static"@
            },
    {
        WebConfig {
            enabled: default_true(),
            port: default_web_port(),
            bind_address: default_bind_address(),
            static_dir: default_static_dir(windows),
        }
    }
}

impl ArbitrageConfig {
    /// Every decimal setting is well formed.
    pub open spec fn wf(self) -> bool {
        &&& self.min_profit_percent.wf()
        &&& self.max_trade_amount_sol.wf()
        &&& self.slippage_tolerance.wf()
    }

    /// Builds the thresholds from settings of which some could not be read as
    /// decimals: a missing least profit or largest trade counts as zero, a
    /// missing slippage tolerance as one percent.
    pub fn with_fallbacks(
        min_profit_percent: Option<Decimal>,
        max_trade_amount_sol: Option<Decimal>,
        slippage_tolerance: Option<Decimal>,
        transaction_timeout_sec: u64,
    ) -> (r: ArbitrageConfig)
        ensures
            r.min_profit_percent == match min_profit_percent {
                Some(d) => d,
                None => (Decimal { mantissa: 0, scale: 0 }),
            },
            r.max_trade_amount_sol == match max_trade_amount_sol {
                Some(d) => d,
                None => (Decimal { mantissa: 0, scale: 0 }),
            },
            r.slippage_tolerance == match slippage_tolerance {
                Some(d) => d,
                None => (Decimal { mantissa: 10, scale: 1 }),
            },
            r.transaction_timeout_sec == transaction_timeout_sec,
    {
        ArbitrageConfig {
            min_profit_percent: match min_profit_percent {
                Some(d) => d,
                None => Decimal::zero(),
            },
            max_trade_amount_sol: match max_trade_amount_sol {
                Some(d) => d,
                None => Decimal::zero(),
            },
            slippage_tolerance: match slippage_tolerance {
                Some(d) => d,
                None => Decimal::new(10, 1),
            },
            transaction_timeout_sec,
        }
    }
}

impl Config {
    /// Where the configuration file is looked for: beside the program on
    /// Windows, under the installation directory elsewhere.
    pub fn config_path(windows: bool) -> (r: &'static str)
        ensures
            r@ == if windows {
                "config.toml"@
            } else {
                "/opt/arb-bot/config.toml"@
            },
    {
        if windows {
            "config.toml"
        } else {
            "/opt/arb-bot/config.toml"
        }
    }

    /// Every decimal setting is well formed.
    pub open spec fn wf(self) -> bool {
        &&& self.arbitrage.wf()
        &&& self.safety.min_balance_sol.wf()
    }

    /// The first rule the configuration breaks, if any.
    pub open spec fn first_fault(self) -> Option<ConfigError> {
        if self.network.rpc_url@.len() == 0 {
            Some(ConfigError::EmptyRpcUrl)
        } else if !self.wf() {
            Some(ConfigError::MalformedNumber)
        } else if self.arbitrage.min_profit_percent.value() <= 0 {
            Some(ConfigError::NonPositiveMinProfit)
        } else if self.arbitrage.max_trade_amount_sol.value() <= 0 {
            Some(ConfigError::NonPositiveMaxTrade)
        } else if self.monitoring.check_interval_ms == 0 {
            Some(ConfigError::ZeroCheckInterval)
        } else {
            None
        }
    }

    /// Checks the configuration: the RPC endpoint is not empty, the decimal
    /// settings are well formed, the least profit and the largest trade are
    /// above zero and the polling interval is not zero. The first rule broken
    /// is the one reported.
    pub fn validate(&self) -> (r: Result<(), ConfigError>)
        ensures
            r == match self.first_fault() {
                Some(e) => Err::<(), ConfigError>(e),
                None => Ok(()),
            },
            r is Ok ==> self.wf(),
    {
        if self.network.rpc_url.as_str().unicode_len() == 0 {
            return Err(ConfigError::EmptyRpcUrl);
        }
        if !(self.arbitrage.min_profit_percent.is_well_formed()
            && self.arbitrage.max_trade_amount_sol.is_well_formed()
            && self.arbitrage.slippage_tolerance.is_well_formed()
            && self.safety.min_balance_sol.is_well_formed()) {
            return Err(ConfigError::MalformedNumber);
        }
        let zero = Decimal::zero();
        if self.arbitrage.min_profit_percent.le(zero) {
            return Err(ConfigError::NonPositiveMinProfit);
        }
        if self.arbitrage.max_trade_amount_sol.le(zero) {
            return Err(ConfigError::NonPositiveMaxTrade);
        }
        if self.monitoring.check_interval_ms == 0 {
            return Err(ConfigError::ZeroCheckInterval);
        }
        Ok(())
    }
}

} // verus!
