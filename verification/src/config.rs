//! Application settings with their defaults, the places of the
//! configuration, database and logs, the database settings and the log
//! level.  Reading and writing the TOML file is done by the application.
use crate::decimal::{rint, Dec};
use crate::text::{lower_of, text_is, to_lower};
use vstd::prelude::*;
use vstd::string::*;

verus! {

// ---------------------------------------------------------------------------
// Places.

/// `directories::ProjectDirs::from("br", "cypherpunk", "robotrade")`: the
/// configuration and data directories, as texts, or nothing when no home
/// directory is known.  They depend on the environment and the platform:
/// nothing is stated of them.
#[verifier::external_body]
fn project_dirs() -> (r: Option<(String, String)>) {
    match directories::ProjectDirs::from("br", "cypherpunk", "robotrade") {
        Some(d) => Some(
            (
                d.config_dir().to_string_lossy().into_owned(),
                d.data_dir().to_string_lossy().into_owned(),
            ),
        ),
        None => None,
    }
}

/// A relative `name` joined under the directory `dir`, with one '/'
/// between them.
pub open spec fn joined(dir: Seq<char>, name: Seq<char>) -> Seq<char> {
    if dir.len() == 0 {
        name
    } else if dir.last() == '/' {
        dir + name
    } else {
        dir + "/"@ + name
    }
}

/// Joins a relative `name` under the directory `dir`.
pub fn join_path(dir: &str, name: &str) -> (r: String)
    ensures
        r@ == joined(dir@, name@),
{
    let n = dir.unicode_len();
    let mut path = dir.to_string();
    if n == 0 {
        return name.to_string();
    }
    if dir.get_char(n - 1) != '/' {
        path.append("/");
    }
    path.append(name);
    proof {
        reveal_strlit("/");
    }
    path
}

/// The configuration file: "config.toml" in the configuration directory,
/// when one is known.
pub fn config_path() -> (r: Option<String>)
    ensures
        r is Some ==> exists|dir: Seq<char>| r.unwrap()@ == joined(dir, "config.toml"@),
{
    match project_dirs() {
        Some((config_dir, _)) => Some(join_path(config_dir.as_str(), "config.toml")),
        None => None,
    }
}

/// The database file: "robotrade.db" in the data directory, when one is
/// known.
pub fn database_path() -> (r: Option<String>)
    ensures
        r is Some ==> exists|dir: Seq<char>| r.unwrap()@ == joined(dir, "robotrade.db"@),
{
    match project_dirs() {
        Some((_, data_dir)) => Some(join_path(data_dir.as_str(), "robotrade.db")),
        None => None,
    }
}

/// The logs directory: "logs" in the data directory, when one is known.
pub fn logs_path() -> (r: Option<String>)
    ensures
        r is Some ==> exists|dir: Seq<char>| r.unwrap()@ == joined(dir, "logs"@),
{
    match project_dirs() {
        Some((_, data_dir)) => Some(join_path(data_dir.as_str(), "logs")),
        None => None,
    }
}

// ---------------------------------------------------------------------------
// Defaults of single settings.

/// The default theme: "dark".
pub fn default_theme() -> (r: String)
    ensures
        r@ == "dark"@,
{
    "dark".to_string()
}

/// The default language: "pt-BR".
pub fn default_language() -> (r: String)
    ensures
        r@ == "pt-BR"@,
{
    "pt-BR".to_string()
}

/// The default trading mode: "paper".
pub fn default_trading_mode() -> (r: String)
    ensures
        r@ == "paper"@,
{
    "paper".to_string()
}

/// The default leverage: 5.
pub fn default_leverage() -> (r: u32)
    ensures
        r == 5,
{
    5
}

/// The default position size: 5 percent of the capital.
pub fn default_position_size() -> (r: Dec)
    ensures
        r.repr() == rint(5),
{
    Dec::from_u32(5)
}

/// The default stop loss: 2 percent.
pub fn default_stop_loss() -> (r: Dec)
    ensures
        r.repr() == rint(2),
{
    Dec::from_u32(2)
}

/// The default take profit: 4 percent.
pub fn default_take_profit() -> (r: Dec)
    ensures
        r.repr() == rint(4),
{
    Dec::from_u32(4)
}

/// The default number of positions held at once: 3.
pub fn default_max_positions() -> (r: u32)
    ensures
        r == 3,
{
    3
}

/// The default daily risk: 5 percent.
pub fn default_max_daily_risk() -> (r: Dec)
    ensures
        r.repr() == rint(5),
{
    Dec::from_u32(5)
}

/// True, the default of the switches that are on.
pub fn default_true() -> (r: bool)
    ensures
        r,
{
    true
}

/// The default Fear & Greed interval: 60 minutes.
pub fn default_fear_greed_interval() -> (r: u32)
    ensures
        r == 60,
{
    60
}

/// The default candle interval: 60 seconds.
pub fn default_candle_interval() -> (r: u32)
    ensures
        r == 60,
{
    60
}

/// The default symbols: BTCUSDT and ETHUSDT.
pub fn default_symbols() -> (r: Vec<String>)
    ensures
        r@.len() == 2,
        r@[0]@ == "BTCUSDT"@,
        r@[1]@ == "ETHUSDT"@,
{
    let mut v: Vec<String> = Vec::new();
    v.push("BTCUSDT".to_string());
    v.push("ETHUSDT".to_string());
    v
}

/// The default timeframes: 1h, 4h and 1d.
pub fn default_timeframes() -> (r: Vec<String>)
    ensures
        r@.len() == 3,
        r@[0]@ == "1h"@,
        r@[1]@ == "4h"@,
        r@[2]@ == "1d"@,
{
    let mut v: Vec<String> = Vec::new();
    v.push("1h".to_string());
    v.push("4h".to_string());
    v.push("1d".to_string());
    v
}

/// The default candle history: 90 days.
pub fn default_candle_history() -> (r: u32)
    ensures
        r == 90,
{
    90
}

/// The default log level: "info".
pub fn default_log_level() -> (r: String)
    ensures
        r@ == "info"@,
{
    "info".to_string()
}

/// The default log retention: 7 days.
pub fn default_log_retention() -> (r: u32)
    ensures
        r == 7,
{
    7
}

/// The default request timeout: 30 seconds.
pub fn default_request_timeout() -> (r: u32)
    ensures
        r == 30,
{
    30
}

/// The default number of retries: 3.
pub fn default_max_retries() -> (r: u32)
    ensures
        r == 3,
{
    3
}

// ---------------------------------------------------------------------------
// Sections.

/// General settings.
#[derive(Debug, Clone)]
pub struct GeneralConfig {
    pub theme: String,
    pub language: String,
    pub start_minimized: bool,
    pub start_with_system: bool,
}

impl GeneralConfig {
    /// Dark theme, pt-BR, not minimized, not started with the system.
    pub fn default() -> (r: Self)
        ensures
            r.theme@ == "dark"@,
            r.language@ == "pt-BR"@,
            !r.start_minimized,
            !r.start_with_system,
    {
        GeneralConfig {
            theme: default_theme(),
            language: default_language(),
            start_minimized: false,
            start_with_system: false,
        }
    }
}

/// Trading settings.
#[derive(Debug, Clone)]
pub struct TradingConfig {
    pub default_mode: String,
    pub default_leverage: u32,
    pub default_position_size_pct: Dec,
    pub default_stop_loss_pct: Dec,
    pub default_take_profit_pct: Dec,
    pub max_positions: u32,
    pub max_daily_risk_pct: Dec,
    pub require_signal_confirmation: bool,
    pub auto_trading_enabled: bool,
}

impl TradingConfig {
    /// Paper mode, leverage 5, positions of 5%, stop loss 2%, take profit
    /// 4%, at most 3 positions, 5% daily risk, signals confirmed, no
    /// automatic trading.
    pub fn default() -> (r: Self)
        ensures
            r.default_mode@ == "paper"@,
            r.default_leverage == 5,
            r.default_position_size_pct.repr() == rint(5),
            r.default_stop_loss_pct.repr() == rint(2),
            r.default_take_profit_pct.repr() == rint(4),
            r.max_positions == 3,
            r.max_daily_risk_pct.repr() == rint(5),
            r.require_signal_confirmation,
            !r.auto_trading_enabled,
    {
        TradingConfig {
            default_mode: default_trading_mode(),
            default_leverage: default_leverage(),
            default_position_size_pct: default_position_size(),
            default_stop_loss_pct: default_stop_loss(),
            default_take_profit_pct: default_take_profit(),
            max_positions: default_max_positions(),
            max_daily_risk_pct: default_max_daily_risk(),
            require_signal_confirmation: true,
            auto_trading_enabled: false,
        }
    }
}

/// Market data collection settings.
#[derive(Debug, Clone)]
pub struct DataCollectionConfig {
    pub fear_greed_interval_mins: u32,
    pub candle_interval_secs: u32,
    pub symbols: Vec<String>,
    pub timeframes: Vec<String>,
    pub candle_history_days: u32,
}

impl DataCollectionConfig {
    /// Fear & Greed hourly, candles every minute for BTCUSDT and ETHUSDT
    /// on 1h, 4h and 1d, 90 days kept.
    pub fn default() -> (r: Self)
        ensures
            r.fear_greed_interval_mins == 60,
            r.candle_interval_secs == 60,
            r.symbols@.len() == 2,
            r.symbols@[0]@ == "BTCUSDT"@,
            r.symbols@[1]@ == "ETHUSDT"@,
            r.timeframes@.len() == 3,
            r.timeframes@[0]@ == "1h"@,
            r.timeframes@[1]@ == "4h"@,
            r.timeframes@[2]@ == "1d"@,
            r.candle_history_days == 90,
    {
        DataCollectionConfig {
            fear_greed_interval_mins: default_fear_greed_interval(),
            candle_interval_secs: default_candle_interval(),
            symbols: default_symbols(),
            timeframes: default_timeframes(),
            candle_history_days: default_candle_history(),
        }
    }
}

/// Notification settings.
#[derive(Debug, Clone)]
pub struct NotificationConfig {
    pub enabled: bool,
    pub sounds_enabled: bool,
    pub notify_signals: bool,
    pub notify_orders: bool,
    pub notify_positions: bool,
    pub notify_errors: bool,
}

impl NotificationConfig {
    /// Everything on.
    pub fn default() -> (r: Self)
        ensures
            r.enabled,
            r.sounds_enabled,
            r.notify_signals,
            r.notify_orders,
            r.notify_positions,
            r.notify_errors,
    {
        NotificationConfig {
            enabled: true,
            sounds_enabled: true,
            notify_signals: true,
            notify_orders: true,
            notify_positions: true,
            notify_errors: true,
        }
    }
}

/// Logging settings.
#[derive(Debug, Clone)]
pub struct LoggingConfig {
    pub level: String,
    pub file_logging: bool,
    pub retention_days: u32,
    pub json_format: bool,
}

impl LoggingConfig {
    /// Level "info", to a file kept 7 days, as text.
    pub fn default() -> (r: Self)
        ensures
            r.level@ == "info"@,
            r.file_logging,
            r.retention_days == 7,
            !r.json_format,
    {
        LoggingConfig {
            level: default_log_level(),
            file_logging: true,
            retention_days: default_log_retention(),
            json_format: false,
        }
    }
}

/// Exchange settings; the credentials are kept outside the file.
#[derive(Debug, Clone)]
pub struct ExchangeConfig {
    pub use_testnet: bool,
    pub request_timeout_secs: u32,
    pub max_retries: u32,
    pub api_key: Option<String>,
    pub api_secret: Option<String>,
}

impl ExchangeConfig {
    /// The testnet, 30 s requests, 3 retries, no credentials.
    pub fn default() -> (r: Self)
        ensures
            r.use_testnet,
            r.request_timeout_secs == 30,
            r.max_retries == 3,
            r.api_key is None,
            r.api_secret is None,
    {
        ExchangeConfig {
            use_testnet: true,
            request_timeout_secs: default_request_timeout(),
            max_retries: default_max_retries(),
            api_key: None,
            api_secret: None,
        }
    }
}

/// All settings.
#[derive(Debug, Clone)]
pub struct AppConfig {
    pub general: GeneralConfig,
    pub trading: TradingConfig,
    pub data_collection: DataCollectionConfig,
    pub notifications: NotificationConfig,
    pub logging: LoggingConfig,
    pub exchange: ExchangeConfig,
}

impl AppConfig {
    /// Every section at its default.
    pub fn default() -> (r: Self)
        ensures
            r.general.theme@ == "dark"@,
            r.general.language@ == "pt-BR"@,
            !r.general.start_minimized,
            !r.general.start_with_system,
            r.trading.default_mode@ == "paper"@,
            r.trading.default_leverage == 5,
            r.trading.default_position_size_pct.repr() == rint(5),
            r.trading.default_stop_loss_pct.repr() == rint(2),
            r.trading.default_take_profit_pct.repr() == rint(4),
            r.trading.max_positions == 3,
            r.trading.max_daily_risk_pct.repr() == rint(5),
            r.trading.require_signal_confirmation,
            !r.trading.auto_trading_enabled,
            r.data_collection.fear_greed_interval_mins == 60,
            r.data_collection.candle_interval_secs == 60,
            r.data_collection.symbols@.len() == 2,
            r.data_collection.symbols@[0]@ == "BTCUSDT"@,
            r.data_collection.symbols@[1]@ == "ETHUSDT"@,
            r.data_collection.timeframes@.len() == 3,
            r.data_collection.timeframes@[0]@ == "1h"@,
            r.data_collection.timeframes@[1]@ == "4h"@,
            r.data_collection.timeframes@[2]@ == "1d"@,
            r.data_collection.candle_history_days == 90,
            r.notifications.enabled,
            r.notifications.sounds_enabled,
            r.notifications.notify_signals,
            r.notifications.notify_orders,
            r.notifications.notify_positions,
            r.notifications.notify_errors,
            r.logging.level@ == "info"@,
            r.logging.file_logging,
            r.logging.retention_days == 7,
            !r.logging.json_format,
            r.exchange.use_testnet,
            r.exchange.request_timeout_secs == 30,
            r.exchange.max_retries == 3,
            r.exchange.api_key is None,
            r.exchange.api_secret is None,
    {
        AppConfig {
            general: GeneralConfig::default(),
            trading: TradingConfig::default(),
            data_collection: DataCollectionConfig::default(),
            notifications: NotificationConfig::default(),
            logging: LoggingConfig::default(),
            exchange: ExchangeConfig::default(),
        }
    }
}

// ---------------------------------------------------------------------------
// Database.

/// Database settings.
#[derive(Debug, Clone)]
pub struct DatabaseConfig {
    pub path: String,
    pub max_connections: u32,
    pub connect_timeout_secs: u64,
    pub create_if_missing: bool,
}

impl DatabaseConfig {
    /// The database at `path`: 5 connections, 30 s to connect, created when
    /// missing.
    pub fn with_path(path: String) -> (r: Self)
        ensures
            r.path == path,
            r.max_connections == 5,
            r.connect_timeout_secs == 30,
            r.create_if_missing,
    {
        DatabaseConfig { path, max_connections: 5, connect_timeout_secs: 30, create_if_missing: true }
    }

    /// The default database, in the data directory, when one is known.
    pub fn default() -> (r: Option<Self>)
        ensures
            r is Some ==> {
                let c = r.unwrap();
                &&& exists|dir: Seq<char>| c.path@ == joined(dir, "robotrade.db"@)
                &&& c.max_connections == 5
                &&& c.connect_timeout_secs == 30
                &&& c.create_if_missing
            },
    {
        match database_path() {
            Some(path) => Some(Self::with_path(path)),
            None => None,
        }
    }

    /// The connection address: "sqlite:" and the path.
    pub fn connection_url(&self) -> (r: String)
        ensures
            r@ == "sqlite:"@ + self.path@,
    {
        let mut url = "sqlite:".to_string();
        url.append(self.path.as_str());
        url
    }
}

// ---------------------------------------------------------------------------
// Logging.

/// Log levels.
#[derive(Clone, Copy, Debug, PartialEq, Eq, Structural)]
pub enum Level {
    Trace,
    Debug,
    Info,
    Warn,
    Error,
}

/// The level a lower-case name names; unknown names are "info".
pub open spec fn level_named(lower: Seq<char>) -> Level {
    if lower == "trace"@ {
        Level::Trace
    } else if lower == "debug"@ {
        Level::Debug
    } else if lower == "info"@ {
        Level::Info
    } else if lower == "warn"@ || lower == "warning"@ {
        Level::Warn
    } else if lower == "error"@ {
        Level::Error
    } else {
        Level::Info
    }
}

/// The level a name gives, in any case; unknown names give info.
pub fn parse_level(level: &str) -> (r: Level)
    ensures
        r == level_named(lower_of(level@)),
{
    let low = to_lower(level);
    let l = low.as_str();
    if text_is(l, "trace") {
        Level::Trace
    } else if text_is(l, "debug") {
        Level::Debug
    } else if text_is(l, "info") {
        Level::Info
    } else if text_is(l, "warn") || text_is(l, "warning") {
        Level::Warn
    } else if text_is(l, "error") {
        Level::Error
    } else {
        Level::Info
    }
}

/// The log filter: this application's events from the configured level
/// (in lower case), everything else from warnings.
pub fn log_filter(config: &LoggingConfig) -> (r: String)
    ensures
        r@ == "robotrade="@ + lower_of(config.level@) + ",warn"@,
{
    let mut filter = "robotrade=".to_string();
    filter.append(to_lower(config.level.as_str()).as_str());
    filter.append(",warn");
    filter
}

} // verus!
