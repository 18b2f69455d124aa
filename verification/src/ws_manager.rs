//! Normalized exchange events: balance, position, order, fill, account-log,
//! connection and error events from Binance and Kraken in one shape.
//! Instants are milliseconds since the Unix epoch.
use crate::clock::{duration_from_secs, now_millis, seconds_duration};
use crate::decimal::Dec;
use core::time::Duration;
use vstd::prelude::*;

verus! {

/// An exchange with a user-data stream.
#[derive(Clone, Copy, Debug, PartialEq, Eq, Structural)]
pub enum Exchange {
    Binance,
    Kraken,
}

/// The name of an exchange.
pub open spec fn exchange_name(e: Exchange) -> Seq<char> {
    match e {
        Exchange::Binance => "Binance"@,
        Exchange::Kraken => "Kraken"@,
    }
}

impl Exchange {
    /// "Binance" or "Kraken".
    pub fn to_text(&self) -> (r: String)
        ensures
            r@ == exchange_name(*self),
    {
        match self {
            Exchange::Binance => "Binance".to_string(),
            Exchange::Kraken => "Kraken".to_string(),
        }
    }
}

/// Side of a position; `Both` in one-way mode.
#[derive(Clone, Copy, Debug, PartialEq, Eq, Structural)]
pub enum PositionSide {
    Long,
    Short,
    Both,
}

/// Side of an order.
#[derive(Clone, Copy, Debug, PartialEq, Eq, Structural)]
pub enum OrderSide {
    Buy,
    Sell,
}

/// Status of an order.
#[derive(Clone, Copy, Debug, PartialEq, Eq, Structural)]
pub enum OrderStatus {
    New,
    PartiallyFilled,
    Filled,
    Canceled,
    Rejected,
    Expired,
}

/// Kind of account-log entry.
#[derive(Clone, Debug, PartialEq, Eq)]
pub enum AccountLogType {
    Deposit,
    Withdrawal,
    FundingFee,
    Commission,
    RealizedPnL,
    Transfer,
    Other(String),
}

/// State of a stream connection.
#[derive(Clone, Copy, Debug, PartialEq, Eq, Structural)]
pub enum WsConnectionState {
    Disconnected,
    Connecting,
    Connected,
    Authenticated,
    Reconnecting,
    Failed,
}

#[derive(Clone, Debug)]
pub struct BalanceUpdateEvent {
    pub exchange: Exchange,
    pub asset: String,
    pub total: Dec,
    pub available: Dec,
    pub change: Option<Dec>,
    pub timestamp: i64,
}

#[derive(Clone, Debug)]
pub struct PositionUpdateEvent {
    pub exchange: Exchange,
    pub symbol: String,
    pub side: PositionSide,
    pub size: Dec,
    pub entry_price: Dec,
    pub unrealized_pnl: Dec,
    pub timestamp: i64,
}

#[derive(Clone, Debug)]
pub struct OrderUpdateEvent {
    pub exchange: Exchange,
    pub symbol: String,
    pub order_id: String,
    pub client_order_id: Option<String>,
    pub side: OrderSide,
    pub order_type: String,
    pub status: OrderStatus,
    pub quantity: Dec,
    pub filled_quantity: Dec,
    pub avg_price: Dec,
    pub timestamp: i64,
}

#[derive(Clone, Debug)]
pub struct TradeEvent {
    pub exchange: Exchange,
    pub trade_id: String,
    pub symbol: String,
    pub order_id: String,
    pub side: OrderSide,
    pub price: Dec,
    pub quantity: Dec,
    pub commission: Dec,
    pub commission_asset: String,
    pub realized_pnl: Option<Dec>,
    pub timestamp: i64,
}

#[derive(Clone, Debug)]
pub struct AccountLogEvent {
    pub exchange: Exchange,
    pub log_type: AccountLogType,
    pub asset: String,
    pub amount: Dec,
    pub balance: Option<Dec>,
    pub description: Option<String>,
    pub timestamp: i64,
}

#[derive(Clone, Debug)]
pub struct ConnectionStateEvent {
    pub exchange: Exchange,
    pub state: WsConnectionState,
    pub reason: Option<String>,
    pub timestamp: i64,
}

#[derive(Clone, Debug)]
pub struct ErrorEvent {
    pub exchange: Exchange,
    pub message: String,
    pub code: Option<String>,
    pub recoverable: bool,
    pub timestamp: i64,
}

/// An event from any exchange, in one shape.
#[derive(Clone, Debug)]
pub enum NormalizedEvent {
    BalanceUpdate(BalanceUpdateEvent),
    PositionUpdate(PositionUpdateEvent),
    OrderUpdate(OrderUpdateEvent),
    TradeExecuted(TradeEvent),
    AccountLogEntry(AccountLogEvent),
    ConnectionStateChanged(ConnectionStateEvent),
    Error(ErrorEvent),
}

/// Settings of the stream manager.
#[derive(Clone, Debug)]
pub struct WsManagerConfig {
    pub enable_binance: bool,
    pub enable_kraken: bool,
    pub channel_buffer_size: usize,
    pub health_check_interval: Duration,
}

impl WsManagerConfig {
    /// Both exchanges on, a buffer of 1000 events, a check every 30 s.
    pub fn default() -> (r: Self)
        ensures
            r.enable_binance,
            r.enable_kraken,
            r.channel_buffer_size == 1000,
            r.health_check_interval == seconds_duration(30),
    {
        WsManagerConfig {
            enable_binance: true,
            enable_kraken: true,
            channel_buffer_size: 1000,
            health_check_interval: duration_from_secs(30),
        }
    }
}

/// The connection states and whether the manager runs.
#[derive(Clone, Copy, Debug, PartialEq, Eq, Structural)]
pub struct WsManagerState {
    pub binance_state: WsConnectionState,
    pub kraken_state: WsConnectionState,
    pub is_running: bool,
}

/// The stream manager; its connections are driven by the application.
pub struct WsManager {
    config: WsManagerConfig,
}

impl WsManager {
    pub closed spec fn cfg(&self) -> WsManagerConfig {
        self.config
    }

    /// A manager with `config`.
    pub fn new(config: WsManagerConfig) -> (r: Self)
        ensures
            r.cfg() == config,
    {
        WsManager { config }
    }

    /// The settings.
    pub fn config(&self) -> (r: &WsManagerConfig)
        ensures
            *r == self.cfg(),
    {
        &self.config
    }
}

/// chrono can hold the instant `ms` milliseconds after the epoch: its
/// second lies from January 1 of year -262143 to the end of December 31 of
/// year 262142.
pub open spec fn chrono_millis_in_range(ms: i64) -> bool {
    -8334601228800000 <= ms <= 8210266876799999
}

/// Whether chrono can hold the instant `ms` (what
/// `chrono::DateTime::from_timestamp_millis(ms).is_some()` tells).
fn millis_representable(ms: i64) -> (r: bool)
    ensures
        r == chrono_millis_in_range(ms),
{
    -8334601228800000 <= ms && ms <= 8210266876799999
}

/// The instant `timestamp_ms`, or now when chrono cannot hold it.
pub fn timestamp_to_datetime(timestamp_ms: i64) -> (r: i64)
    ensures
        chrono_millis_in_range(timestamp_ms) ==> r == timestamp_ms,
        !chrono_millis_in_range(timestamp_ms) ==> 0 <= r <= crate::clock::latest_instant(),
{
    if millis_representable(timestamp_ms) {
        timestamp_ms
    } else {
        now_millis()
    }
}

/// The message of a reconnection refused for too many attempts.
pub open spec fn too_many_reconnects() -> Seq<char> {
    "Máximo de tentativas de reconexão atingido"@
}

/// The number of the next reconnection attempt, after `attempts` of at
/// most `max_attempts`: refused once they are used up.
pub fn reconnect_attempt(attempts: u32, max_attempts: u32) -> (r: Result<u32, String>)
    ensures
        attempts >= max_attempts ==> (r matches Err(e) && e@ == too_many_reconnects()),
        attempts < max_attempts ==> r == Ok::<u32, String>((attempts + 1) as u32),
{
    if attempts >= max_attempts {
        Err("Máximo de tentativas de reconexão atingido".to_string())
    } else {
        Ok(attempts + 1)
    }
}

} // verus!
