//! Binance Futures: the REST models, the user-data stream's messages and
//! events, and the conversions between them and the domain entities.
//! Sending requests and holding connections is done by the application.
use crate::buckets::{key_amounts, keys_of, sums_fit, totals_by_key};
use crate::clock::{duration_from_secs, new_id, now_millis, seconds_duration};
use crate::decimal::{
    abs_val, decimal_from_text, rabs, reprs, rsum, sum_all, sum_fits, Dec,
};
use crate::entities::{
    balance_views, Balance, Candle, ExchangeError, ExchangeId, Order, OrderRequest, OrderSide, OrderSource, OrderStatus,
    OrderType, Position, PositionSide, PositionStatus, TimeInForce,
};
use crate::json::{as_i64, as_str, int_of, json_parse, parse_json, text_of, JsonValue};
use crate::kraken::{utf8_bytes, utf8_of};
use crate::text::{
    i64_text, int_text, optional_param, param_views, parse_u32, parse_unsigned_spec, push_optional,
    push_param, text_is, u64_text,
};
use crate::ws_manager::{chrono_millis_in_range, timestamp_to_datetime};
use core::time::Duration;
use vstd::prelude::*;
use vstd::string::*;

verus! {

/// Account information.
#[derive(Debug, Clone)]
pub struct AccountInfo {
    pub total_initial_margin: String,
    pub total_maint_margin: String,
    pub total_wallet_balance: String,
    pub total_unrealized_profit: String,
    pub total_margin_balance: String,
    pub total_position_initial_margin: String,
    pub total_open_order_initial_margin: String,
    pub total_cross_wallet_balance: String,
    pub total_cross_un_pnl: String,
    pub available_balance: String,
    pub max_withdraw_amount: String,
    pub assets: Vec<AccountAsset>,
    pub positions: Vec<AccountPosition>,
    pub can_trade: bool,
    pub can_deposit: bool,
    pub can_withdraw: bool,
    pub update_time: i64,
}

/// One asset of the account.
#[derive(Debug, Clone)]
pub struct AccountAsset {
    pub asset: String,
    pub wallet_balance: String,
    pub unrealized_profit: String,
    pub margin_balance: String,
    pub maint_margin: String,
    pub initial_margin: String,
    pub position_initial_margin: String,
    pub open_order_initial_margin: String,
    pub cross_wallet_balance: String,
    pub cross_un_pnl: String,
    pub available_balance: String,
    pub max_withdraw_amount: String,
    pub margin_available: bool,
    pub update_time: i64,
}

/// One position of the account.
#[derive(Debug, Clone)]
pub struct AccountPosition {
    pub symbol: String,
    pub initial_margin: String,
    pub maint_margin: String,
    pub unrealized_profit: String,
    pub position_initial_margin: String,
    pub open_order_initial_margin: String,
    pub leverage: String,
    pub isolated: bool,
    pub entry_price: String,
    pub break_even_price: String,
    pub max_notional: String,
    pub position_side: String,
    pub position_amt: String,
    pub notional: String,
    pub isolated_wallet: String,
    pub update_time: i64,
    pub bid_notional: String,
    pub ask_notional: String,
}

/// A kline (candle).
#[derive(Debug, Clone)]
pub struct BinanceKline {
    pub open_time: i64,
    pub open: String,
    pub high: String,
    pub low: String,
    pub close: String,
    pub volume: String,
    pub close_time: i64,
    pub quote_asset_volume: String,
    pub number_of_trades: i64,
    pub taker_buy_base_volume: String,
    pub taker_buy_quote_volume: String,
    pub ignore: String,
}

/// 24-hour ticker statistics.
#[derive(Debug, Clone)]
pub struct Ticker24h {
    pub symbol: String,
    pub price_change: String,
    pub price_change_percent: String,
    pub weighted_avg_price: String,
    pub last_price: String,
    pub last_qty: String,
    pub open_price: String,
    pub high_price: String,
    pub low_price: String,
    pub volume: String,
    pub quote_volume: String,
    pub open_time: i64,
    pub close_time: i64,
    pub first_id: i64,
    pub last_id: i64,
    pub count: i64,
}

/// The latest price of a symbol.
#[derive(Debug, Clone)]
pub struct TickerPrice {
    pub symbol: String,
    pub price: String,
    pub time: i64,
}

/// Best bid and ask.
#[derive(Debug, Clone)]
pub struct BookTicker {
    pub symbol: String,
    pub bid_price: String,
    pub bid_qty: String,
    pub ask_price: String,
    pub ask_qty: String,
    pub time: i64,
}

/// An order as the exchange reports it.
#[derive(Debug, Clone)]
pub struct BinanceOrder {
    pub order_id: i64,
    pub symbol: String,
    pub status: String,
    pub client_order_id: String,
    pub price: String,
    pub avg_price: String,
    pub orig_qty: String,
    pub executed_qty: String,
    pub cum_qty: Option<String>,
    pub cum_quote: String,
    pub order_type: String,
    pub side: String,
    pub position_side: String,
    pub stop_price: String,
    pub time_in_force: String,
    pub reduce_only: bool,
    pub close_position: bool,
    pub orig_type: String,
    pub working_type: String,
    pub price_protect: bool,
    pub update_time: i64,
    pub time: Option<i64>,
    pub price_match: Option<String>,
    pub self_trade_prevention_mode: Option<String>,
    pub good_till_date: Option<i64>,
}

/// One of the user's trades.
#[derive(Debug, Clone)]
pub struct UserTrade {
    pub symbol: String,
    pub id: i64,
    pub order_id: i64,
    pub side: String,
    pub price: String,
    pub qty: String,
    pub realized_pnl: String,
    pub margin_asset: String,
    pub quote_qty: String,
    pub commission: String,
    pub commission_asset: String,
    pub time: i64,
    pub position_side: String,
    pub buyer: bool,
    pub maker: bool,
}

/// An income record (P&L, funding, commission...).
#[derive(Debug, Clone)]
pub struct IncomeRecord {
    pub symbol: String,
    pub income_type: String,
    pub income: String,
    pub asset: String,
    pub info: String,
    pub time: i64,
    pub tran_id: i64,
    pub trade_id: String,
}

/// Kind of income record.
#[derive(Debug, Clone, PartialEq, Eq)]
pub enum IncomeType {
    Transfer,
    WelcomeBonus,
    RealizedPnl,
    FundingFee,
    Commission,
    InsuranceClear,
    ReferralKickback,
    CommissionRebate,
    ApiRebate,
    ContestReward,
    CrossCollateralTransfer,
    OptionsPremiumFee,
    OptionsSettleProfit,
    InternalTransfer,
    AutoExchange,
    DeliveredSettelment,
    CoinSwapDeposit,
    CoinSwapWithdraw,
    PositionLimitIncreaseFee,
    Other(String),
}

/// A new-order request.
#[derive(Debug, Clone)]
pub struct NewOrderRequest {
    pub symbol: String,
    pub side: String,
    pub order_type: String,
    pub position_side: Option<String>,
    pub time_in_force: Option<String>,
    pub quantity: Option<String>,
    pub reduce_only: Option<bool>,
    pub price: Option<String>,
    pub stop_price: Option<String>,
    pub close_position: Option<bool>,
    pub new_client_order_id: Option<String>,
}

/// An error response.
#[derive(Debug, Clone)]
pub struct BinanceError {
    pub code: i32,
    pub msg: String,
}

/// Statistics of realized P&L records.
#[derive(Debug, Clone)]
pub struct TradeHistoryStats {
    pub total_trades: u64,
    pub total_pnl: Dec,
    pub total_fees: Dec,
    pub winning_trades: u64,
    pub losing_trades: u64,
    pub largest_win: Dec,
    pub largest_loss: Dec,
    pub pnl_by_symbol: Vec<(String, Dec)>,
}

/// The decimal a text holds, zero when it holds none.
pub open spec fn decimal_or_zero(s: Seq<char>) -> (int, nat) {
    match decimal_from_text(s) {
        Some(d) => d,
        None => (0, 0),
    }
}

/// Reads a decimal, zero when the text holds none.
pub fn parse_decimal(s: &str) -> (r: Dec)
    ensures
        r.repr() == decimal_or_zero(s@),
{
    match Dec::parse(s) {
        Some(d) => d,
        None => Dec::zero(),
    }
}

/// The income kind a text names; any other text is kept as `Other`.
pub open spec fn income_type_is(s: Seq<char>, t: IncomeType) -> bool {
    if s == "TRANSFER"@ {
        t == IncomeType::Transfer
    } else if s == "WELCOME_BONUS"@ {
        t == IncomeType::WelcomeBonus
    } else if s == "REALIZED_PNL"@ {
        t == IncomeType::RealizedPnl
    } else if s == "FUNDING_FEE"@ {
        t == IncomeType::FundingFee
    } else if s == "COMMISSION"@ {
        t == IncomeType::Commission
    } else if s == "INSURANCE_CLEAR"@ {
        t == IncomeType::InsuranceClear
    } else if s == "REFERRAL_KICKBACK"@ {
        t == IncomeType::ReferralKickback
    } else if s == "COMMISSION_REBATE"@ {
        t == IncomeType::CommissionRebate
    } else if s == "API_REBATE"@ {
        t == IncomeType::ApiRebate
    } else if s == "CONTEST_REWARD"@ {
        t == IncomeType::ContestReward
    } else if s == "CROSS_COLLATERAL_TRANSFER"@ {
        t == IncomeType::CrossCollateralTransfer
    } else if s == "OPTIONS_PREMIUM_FEE"@ {
        t == IncomeType::OptionsPremiumFee
    } else if s == "OPTIONS_SETTLE_PROFIT"@ {
        t == IncomeType::OptionsSettleProfit
    } else if s == "INTERNAL_TRANSFER"@ {
        t == IncomeType::InternalTransfer
    } else if s == "AUTO_EXCHANGE"@ {
        t == IncomeType::AutoExchange
    } else if s == "DELIVERED_SETTELMENT"@ {
        t == IncomeType::DeliveredSettelment
    } else if s == "COIN_SWAP_DEPOSIT"@ {
        t == IncomeType::CoinSwapDeposit
    } else if s == "COIN_SWAP_WITHDRAW"@ {
        t == IncomeType::CoinSwapWithdraw
    } else if s == "POSITION_LIMIT_INCREASE_FEE"@ {
        t == IncomeType::PositionLimitIncreaseFee
    } else {
        t matches IncomeType::Other(o) && o@ == s
    }
}

impl IncomeType {
    /// The income kind named by `s` (as the API writes it).
    pub fn from_text(s: &str) -> (r: IncomeType)
        ensures
            income_type_is(s@, r),
    {
        if text_is(s, "TRANSFER") {
            IncomeType::Transfer
        } else if text_is(s, "WELCOME_BONUS") {
            IncomeType::WelcomeBonus
        } else if text_is(s, "REALIZED_PNL") {
            IncomeType::RealizedPnl
        } else if text_is(s, "FUNDING_FEE") {
            IncomeType::FundingFee
        } else if text_is(s, "COMMISSION") {
            IncomeType::Commission
        } else if text_is(s, "INSURANCE_CLEAR") {
            IncomeType::InsuranceClear
        } else if text_is(s, "REFERRAL_KICKBACK") {
            IncomeType::ReferralKickback
        } else if text_is(s, "COMMISSION_REBATE") {
            IncomeType::CommissionRebate
        } else if text_is(s, "API_REBATE") {
            IncomeType::ApiRebate
        } else if text_is(s, "CONTEST_REWARD") {
            IncomeType::ContestReward
        } else if text_is(s, "CROSS_COLLATERAL_TRANSFER") {
            IncomeType::CrossCollateralTransfer
        } else if text_is(s, "OPTIONS_PREMIUM_FEE") {
            IncomeType::OptionsPremiumFee
        } else if text_is(s, "OPTIONS_SETTLE_PROFIT") {
            IncomeType::OptionsSettleProfit
        } else if text_is(s, "INTERNAL_TRANSFER") {
            IncomeType::InternalTransfer
        } else if text_is(s, "AUTO_EXCHANGE") {
            IncomeType::AutoExchange
        } else if text_is(s, "DELIVERED_SETTELMENT") {
            IncomeType::DeliveredSettelment
        } else if text_is(s, "COIN_SWAP_DEPOSIT") {
            IncomeType::CoinSwapDeposit
        } else if text_is(s, "COIN_SWAP_WITHDRAW") {
            IncomeType::CoinSwapWithdraw
        } else if text_is(s, "POSITION_LIMIT_INCREASE_FEE") {
            IncomeType::PositionLimitIncreaseFee
        } else {
            IncomeType::Other(s.to_string())
        }
    }
}

impl BinanceError {
    /// "Binance error {code}: {msg}".
    pub fn to_text(&self) -> (r: String)
        ensures
            r@ == "Binance error "@ + int_text(self.code as int) + ": "@ + self.msg@,
    {
        let mut text = String::new();
        text.append("Binance error ");
        text.append(&i64_text(self.code as i64));
        text.append(": ");
        text.append(self.msg.as_str());
        text
    }
}

// ---------------------------------------------------------------------------
// User-data stream.

/// State of the stream connection.
#[derive(Debug, Clone, Copy, PartialEq, Eq, Structural)]
pub enum ConnectionState {
    Disconnected,
    Connecting,
    Connected,
    Reconnecting,
    Failed,
}

/// Stream settings.
#[derive(Debug, Clone)]
pub struct BinanceWsConfig {
    pub testnet: bool,
    pub keepalive_interval: Duration,
    pub connect_timeout: Duration,
    pub max_reconnect_attempts: u32,
    pub initial_backoff: Duration,
    pub max_backoff: Duration,
}

impl BinanceWsConfig {
    /// Testnet, keepalive every 30 minutes, 30 s to connect, 10 reconnect
    /// attempts backing off from 1 s to 60 s.
    pub fn default() -> (r: Self)
        ensures
            r.testnet,
            r.keepalive_interval == seconds_duration(1800),
            r.connect_timeout == seconds_duration(30),
            r.max_reconnect_attempts == 10,
            r.initial_backoff == seconds_duration(1),
            r.max_backoff == seconds_duration(60),
    {
        BinanceWsConfig {
            testnet: true,
            keepalive_interval: duration_from_secs(1800),
            connect_timeout: duration_from_secs(30),
            max_reconnect_attempts: 10,
            initial_backoff: duration_from_secs(1),
            max_backoff: duration_from_secs(60),
        }
    }
}

/// The address of the user-data stream for a listen key.
pub fn stream_url(testnet: bool, listen_key: &str) -> (r: String)
    ensures
        r@ == (if testnet {
            "wss://stream.binancefuture.com/ws/"@
        } else {
            "wss://fstream.binance.com/ws/"@
        }) + listen_key@,
{
    let mut url = String::new();
    if testnet {
        url.append("wss://stream.binancefuture.com/ws/");
    } else {
        url.append("wss://fstream.binance.com/ws/");
    }
    url.append(listen_key);
    url
}

/// An event of the user-data stream.
#[derive(Debug, Clone)]
pub enum BinanceWsEvent {
    AccountUpdate(AccountUpdateEvent),
    OrderUpdate(OrderUpdateEvent),
    ConfigUpdate { event_time: i64 },
    MarginCall { event_time: i64 },
    ListenKeyExpired,
    Disconnected { reason: String },
    Error { message: String },
    Unknown { event_type: String },
}

#[derive(Debug, Clone)]
pub struct AccountUpdateEvent {
    pub event_time: i64,
    pub transaction_time: i64,
    pub balances: Vec<BalanceUpdate>,
    pub positions: Vec<PositionUpdate>,
}

#[derive(Debug, Clone)]
pub struct BalanceUpdate {
    pub asset: String,
    pub wallet_balance: Dec,
    pub cross_wallet_balance: Dec,
    pub balance_change: Dec,
}

#[derive(Debug, Clone)]
pub struct PositionUpdate {
    pub symbol: String,
    pub position_amount: Dec,
    pub entry_price: Dec,
    pub unrealized_pnl: Dec,
    pub margin_type: String,
    pub position_side: String,
}

#[derive(Debug, Clone)]
pub struct OrderUpdateEvent {
    pub event_time: i64,
    pub transaction_time: i64,
    pub symbol: String,
    pub client_order_id: String,
    pub side: String,
    pub order_type: String,
    pub time_in_force: String,
    pub original_quantity: Dec,
    pub original_price: Dec,
    pub average_price: Dec,
    pub stop_price: Dec,
    pub execution_type: String,
    pub order_status: String,
    pub order_id: i64,
    pub last_filled_quantity: Dec,
    pub cumulative_filled_quantity: Dec,
    pub last_filled_price: Dec,
    pub commission_asset: Option<String>,
    pub commission: Dec,
    pub order_trade_time: i64,
    pub trade_id: i64,
    pub realized_profit: Dec,
}

/// A stream message as sent: "e" event type, "E" event time, "T"
/// transaction time, "a" account update, "o" order update.
#[derive(Debug, Clone)]
pub struct BinanceWsMessage {
    pub event_type: String,
    pub event_time: i64,
    pub transaction_time: Option<i64>,
    pub account_update: Option<AccountUpdateData>,
    pub order_update: Option<OrderUpdateData>,
}

/// "B" balances and "P" positions (each absent meaning none).
#[derive(Debug, Clone)]
pub struct AccountUpdateData {
    pub balances: Vec<BalanceData>,
    pub positions: Vec<PositionData>,
}

/// "a" asset, "wb" wallet balance, "cw" cross wallet balance, "bc"
/// balance change.
#[derive(Debug, Clone)]
pub struct BalanceData {
    pub asset: String,
    pub wallet_balance: String,
    pub cross_wallet_balance: String,
    pub balance_change: String,
}

/// "s" symbol, "pa" amount, "ep" entry price, "up" unrealized P&L, "mt"
/// margin type, "ps" position side.
#[derive(Debug, Clone)]
pub struct PositionData {
    pub symbol: String,
    pub position_amount: String,
    pub entry_price: String,
    pub unrealized_pnl: String,
    pub margin_type: String,
    pub position_side: String,
}

/// The order part of an ORDER_TRADE_UPDATE.
#[derive(Debug, Clone)]
pub struct OrderUpdateData {
    pub symbol: String,
    pub client_order_id: String,
    pub side: String,
    pub order_type: String,
    pub time_in_force: String,
    pub original_quantity: String,
    pub original_price: String,
    pub average_price: String,
    pub stop_price: String,
    pub execution_type: String,
    pub order_status: String,
    pub order_id: i64,
    pub last_filled_quantity: String,
    pub cumulative_filled_quantity: String,
    pub last_filled_price: String,
    pub commission_asset: Option<String>,
    pub commission: String,
    pub order_trade_time: i64,
    pub trade_id: i64,
    pub realized_profit: String,
}

pub open spec fn balance_read(b: BalanceData, u: BalanceUpdate) -> bool {
    &&& u.asset == b.asset
    &&& u.wallet_balance.repr() == decimal_or_zero(b.wallet_balance@)
    &&& u.cross_wallet_balance.repr() == decimal_or_zero(b.cross_wallet_balance@)
    &&& u.balance_change.repr() == decimal_or_zero(b.balance_change@)
}

pub open spec fn position_read(p: PositionData, u: PositionUpdate) -> bool {
    &&& u.symbol == p.symbol
    &&& u.position_amount.repr() == decimal_or_zero(p.position_amount@)
    &&& u.entry_price.repr() == decimal_or_zero(p.entry_price@)
    &&& u.unrealized_pnl.repr() == decimal_or_zero(p.unrealized_pnl@)
    &&& u.margin_type == p.margin_type
    &&& u.position_side == p.position_side
}

pub open spec fn order_read(d: OrderUpdateData, e: OrderUpdateEvent, event_time: i64, transaction_time: i64) -> bool {
    &&& e.event_time == event_time
    &&& e.transaction_time == transaction_time
    &&& e.symbol == d.symbol
    &&& e.client_order_id == d.client_order_id
    &&& e.side == d.side
    &&& e.order_type == d.order_type
    &&& e.time_in_force == d.time_in_force
    &&& e.original_quantity.repr() == decimal_or_zero(d.original_quantity@)
    &&& e.original_price.repr() == decimal_or_zero(d.original_price@)
    &&& e.average_price.repr() == decimal_or_zero(d.average_price@)
    &&& e.stop_price.repr() == decimal_or_zero(d.stop_price@)
    &&& e.execution_type == d.execution_type
    &&& e.order_status == d.order_status
    &&& e.order_id == d.order_id
    &&& e.last_filled_quantity.repr() == decimal_or_zero(d.last_filled_quantity@)
    &&& e.cumulative_filled_quantity.repr() == decimal_or_zero(d.cumulative_filled_quantity@)
    &&& e.last_filled_price.repr() == decimal_or_zero(d.last_filled_price@)
    &&& e.commission_asset == d.commission_asset
    &&& e.commission.repr() == decimal_or_zero(d.commission@)
    &&& e.order_trade_time == d.order_trade_time
    &&& e.trade_id == d.trade_id
    &&& e.realized_profit.repr() == decimal_or_zero(d.realized_profit@)
}

/// The event a message stands for: account and order updates with their
/// numbers read (zero when unreadable), the transaction time defaulting to
/// the event time; configuration updates, margin calls and listen-key
/// expiry by their type; anything else (or an update without its body)
/// unknown.
pub open spec fn message_event(msg: BinanceWsMessage, r: BinanceWsEvent) -> bool {
    let tx = match msg.transaction_time {
        Some(t) => t,
        None => msg.event_time,
    };
    let unknown = r == BinanceWsEvent::Unknown { event_type: msg.event_type };
    if msg.event_type@ == "ACCOUNT_UPDATE"@ {
        match msg.account_update {
            Some(data) => r matches BinanceWsEvent::AccountUpdate(ev) && ev.event_time
                == msg.event_time && ev.transaction_time == tx && ev.balances@.len()
                == data.balances@.len() && ev.positions@.len() == data.positions@.len() && (forall|
                i: int,
            | 0 <= i < ev.balances@.len() ==> balance_read(data.balances@[i], #[trigger] ev.balances@[i]))
                && (forall|i: int|
                0 <= i < ev.positions@.len() ==> position_read(
                    data.positions@[i],
                    #[trigger] ev.positions@[i],
                )),
            None => unknown,
        }
    } else if msg.event_type@ == "ORDER_TRADE_UPDATE"@ {
        match msg.order_update {
            Some(data) => r matches BinanceWsEvent::OrderUpdate(ev) && order_read(
                data,
                ev,
                msg.event_time,
                tx,
            ),
            None => unknown,
        }
    } else if msg.event_type@ == "ACCOUNT_CONFIG_UPDATE"@ {
        r == BinanceWsEvent::ConfigUpdate { event_time: msg.event_time }
    } else if msg.event_type@ == "MARGIN_CALL"@ {
        r == BinanceWsEvent::MarginCall { event_time: msg.event_time }
    } else if msg.event_type@ == "listenKeyExpired"@ {
        r == BinanceWsEvent::ListenKeyExpired
    } else {
        unknown
    }
}

fn read_balance(b: &BalanceData) -> (u: BalanceUpdate)
    ensures
        balance_read(*b, u),
{
    BalanceUpdate {
        asset: b.asset.clone(),
        wallet_balance: parse_decimal(b.wallet_balance.as_str()),
        cross_wallet_balance: parse_decimal(b.cross_wallet_balance.as_str()),
        balance_change: parse_decimal(b.balance_change.as_str()),
    }
}

fn read_position(p: &PositionData) -> (u: PositionUpdate)
    ensures
        position_read(*p, u),
{
    PositionUpdate {
        symbol: p.symbol.clone(),
        position_amount: parse_decimal(p.position_amount.as_str()),
        entry_price: parse_decimal(p.entry_price.as_str()),
        unrealized_pnl: parse_decimal(p.unrealized_pnl.as_str()),
        margin_type: p.margin_type.clone(),
        position_side: p.position_side.clone(),
    }
}

fn read_order(d: &OrderUpdateData, event_time: i64, transaction_time: i64) -> (e: OrderUpdateEvent)
    ensures
        order_read(*d, e, event_time, transaction_time),
{
    OrderUpdateEvent {
        event_time,
        transaction_time,
        symbol: d.symbol.clone(),
        client_order_id: d.client_order_id.clone(),
        side: d.side.clone(),
        order_type: d.order_type.clone(),
        time_in_force: d.time_in_force.clone(),
        original_quantity: parse_decimal(d.original_quantity.as_str()),
        original_price: parse_decimal(d.original_price.as_str()),
        average_price: parse_decimal(d.average_price.as_str()),
        stop_price: parse_decimal(d.stop_price.as_str()),
        execution_type: d.execution_type.clone(),
        order_status: d.order_status.clone(),
        order_id: d.order_id,
        last_filled_quantity: parse_decimal(d.last_filled_quantity.as_str()),
        cumulative_filled_quantity: parse_decimal(d.cumulative_filled_quantity.as_str()),
        last_filled_price: parse_decimal(d.last_filled_price.as_str()),
        commission_asset: match &d.commission_asset {
            Some(a) => Some(a.clone()),
            None => None,
        },
        commission: parse_decimal(d.commission.as_str()),
        order_trade_time: d.order_trade_time,
        trade_id: d.trade_id,
        realized_profit: parse_decimal(d.realized_profit.as_str()),
    }
}

/// The event a stream message stands for.
pub fn parse_message(msg: &BinanceWsMessage) -> (r: BinanceWsEvent)
    ensures
        message_event(*msg, r),
{
    let tx = match msg.transaction_time {
        Some(t) => t,
        None => msg.event_time,
    };
    let kind = msg.event_type.as_str();
    if text_is(kind, "ACCOUNT_UPDATE") {
        match &msg.account_update {
            Some(data) => {
                let mut balances: Vec<BalanceUpdate> = Vec::new();
                let mut i: usize = 0;
                while i < data.balances.len()
                    invariant
                        i <= data.balances@.len(),
                        balances@.len() == i,
                        forall|k: int|
                            0 <= k < i ==> balance_read(data.balances@[k], #[trigger] balances@[k]),
                    decreases data.balances@.len() - i,
                {
                    balances.push(read_balance(&data.balances[i]));
                    i += 1;
                }
                let mut positions: Vec<PositionUpdate> = Vec::new();
                let mut j: usize = 0;
                while j < data.positions.len()
                    invariant
                        j <= data.positions@.len(),
                        positions@.len() == j,
                        forall|k: int|
                            0 <= k < j ==> position_read(
                                data.positions@[k],
                                #[trigger] positions@[k],
                            ),
                    decreases data.positions@.len() - j,
                {
                    positions.push(read_position(&data.positions[j]));
                    j += 1;
                }
                BinanceWsEvent::AccountUpdate(
                    AccountUpdateEvent {
                        event_time: msg.event_time,
                        transaction_time: tx,
                        balances,
                        positions,
                    },
                )
            },
            None => BinanceWsEvent::Unknown { event_type: msg.event_type.clone() },
        }
    } else if text_is(kind, "ORDER_TRADE_UPDATE") {
        match &msg.order_update {
            Some(data) => BinanceWsEvent::OrderUpdate(read_order(data, msg.event_time, tx)),
            None => BinanceWsEvent::Unknown { event_type: msg.event_type.clone() },
        }
    } else if text_is(kind, "ACCOUNT_CONFIG_UPDATE") {
        BinanceWsEvent::ConfigUpdate { event_time: msg.event_time }
    } else if text_is(kind, "MARGIN_CALL") {
        BinanceWsEvent::MarginCall { event_time: msg.event_time }
    } else if text_is(kind, "listenKeyExpired") {
        BinanceWsEvent::ListenKeyExpired
    } else {
        BinanceWsEvent::Unknown { event_type: msg.event_type.clone() }
    }
}

// ---------------------------------------------------------------------------
// Client conversions.

/// The exchange a client trades on: the testnet counts as paper trading.
pub fn exchange_id(is_testnet: bool) -> (r: ExchangeId)
    ensures
        r == if is_testnet {
            ExchangeId::Paper
        } else {
            ExchangeId::BinanceFutures
        },
{
    if is_testnet {
        ExchangeId::Paper
    } else {
        ExchangeId::BinanceFutures
    }
}

/// The API base address: testnet or production.
pub fn base_url(is_testnet: bool) -> (r: String)
    ensures
        r@ == if is_testnet {
            "https://testnet.binancefuture.com"@
        } else {
            "https://fapi.binance.com"@
        },
{
    if is_testnet {
        "https://testnet.binancefuture.com".to_string()
    } else {
        "https://fapi.binance.com".to_string()
    }
}

/// The API name of an order side.
pub open spec fn side_name(s: OrderSide) -> Seq<char> {
    match s {
        OrderSide::Buy => "BUY"@,
        OrderSide::Sell => "SELL"@,
    }
}

/// The API name of an order type.
pub open spec fn order_type_name(t: OrderType) -> Seq<char> {
    match t {
        OrderType::Market => "MARKET"@,
        OrderType::Limit => "LIMIT"@,
        OrderType::StopLoss => "STOP_MARKET"@,
        OrderType::StopLossLimit => "STOP"@,
        OrderType::TakeProfit => "TAKE_PROFIT_MARKET"@,
        OrderType::TakeProfitLimit => "TAKE_PROFIT"@,
        OrderType::TrailingStop => "TRAILING_STOP_MARKET"@,
    }
}

/// The API name of a time in force (good-till-date is sent as GTC).
pub open spec fn time_in_force_name(t: TimeInForce) -> Seq<char> {
    match t {
        TimeInForce::GTC => "GTC"@,
        TimeInForce::IOC => "IOC"@,
        TimeInForce::FOK => "FOK"@,
        TimeInForce::GTD => "GTC"@,
    }
}

/// The new-order request for a domain order request.
pub fn new_order_request(request: &OrderRequest) -> (r: NewOrderRequest)
    ensures
        r.symbol == request.symbol,
        r.side@ == side_name(request.side),
        r.order_type@ == order_type_name(request.order_type),
        r.position_side is None,
        r.time_in_force is Some && r.time_in_force.unwrap()@ == time_in_force_name(
            request.time_in_force,
        ),
        r.quantity is Some && r.quantity.unwrap()@ == crate::decimal::decimal_text(
            request.quantity.repr(),
        ),
        r.reduce_only == Some(request.reduce_only),
        match request.price {
            Some(p) => r.price is Some && r.price.unwrap()@ == crate::decimal::decimal_text(p.repr()),
            None => r.price is None,
        },
        match request.stop_price {
            Some(p) => r.stop_price is Some && r.stop_price.unwrap()@ == crate::decimal::decimal_text(
                p.repr(),
            ),
            None => r.stop_price is None,
        },
        r.close_position is None,
        r.new_client_order_id is None,
{
    NewOrderRequest {
        symbol: request.symbol.clone(),
        side: match request.side {
            OrderSide::Buy => "BUY".to_string(),
            OrderSide::Sell => "SELL".to_string(),
        },
        order_type: match request.order_type {
            OrderType::Market => "MARKET".to_string(),
            OrderType::Limit => "LIMIT".to_string(),
            OrderType::StopLoss => "STOP_MARKET".to_string(),
            OrderType::StopLossLimit => "STOP".to_string(),
            OrderType::TakeProfit => "TAKE_PROFIT_MARKET".to_string(),
            OrderType::TakeProfitLimit => "TAKE_PROFIT".to_string(),
            OrderType::TrailingStop => "TRAILING_STOP_MARKET".to_string(),
        },
        position_side: None,
        time_in_force: Some(
            match request.time_in_force {
                TimeInForce::GTC => "GTC".to_string(),
                TimeInForce::IOC => "IOC".to_string(),
                TimeInForce::FOK => "FOK".to_string(),
                TimeInForce::GTD => "GTC".to_string(),
            },
        ),
        quantity: Some(request.quantity.to_text()),
        reduce_only: Some(request.reduce_only),
        price: match request.price {
            Some(p) => Some(p.to_text()),
            None => None,
        },
        stop_price: match request.stop_price {
            Some(p) => Some(p.to_text()),
            None => None,
        },
        close_position: None,
        new_client_order_id: None,
    }
}

/// The domain error for an exchange error code.
pub open spec fn binance_error_is(error: BinanceError, r: ExchangeError) -> bool {
    let code = error.code;
    if code == -1021 {
        r matches ExchangeError::ApiError { exchange, code: c, message } && exchange@ == "binance"@
            && c == code && message@ == "Timestamp fora da janela de recvWindow"@
    } else if code == -2010 {
        r matches ExchangeError::InsufficientBalance { asset, required, available } && asset@
            == ""@ && required@ == ""@ && available@ == ""@
    } else if code == -2019 {
        r matches ExchangeError::InsufficientBalance { asset, required, available } && asset@
            == "margin"@ && required@ == ""@ && available@ == ""@
    } else if code == -1102 || code == -1013 {
        r matches ExchangeError::InvalidQuantity { symbol, reason } && symbol@ == ""@ && reason
            == error.msg
    } else if code == -1111 {
        r matches ExchangeError::InvalidQuantity { symbol, reason } && symbol@ == ""@ && reason@
            == "Precisão inválida"@
    } else if code == -4003 {
        r matches ExchangeError::InvalidQuantity { symbol, reason } && symbol@ == ""@ && reason@
            == "Quantidade deve ser maior que zero"@
    } else {
        r matches ExchangeError::ApiError { exchange, code: c, message } && exchange@ == "binance"@
            && c == code && message == error.msg
    }
}

/// Maps an exchange error to a domain error: clock skew, insufficient
/// balance or margin, invalid quantity or precision, else a plain API
/// error.
pub fn map_binance_error(error: BinanceError) -> (r: ExchangeError)
    ensures
        binance_error_is(error, r),
{
    let code = error.code;
    if code == -1021 {
        ExchangeError::ApiError {
            exchange: "binance".to_string(),
            code,
            message: "Timestamp fora da janela de recvWindow".to_string(),
        }
    } else if code == -2010 {
        ExchangeError::InsufficientBalance {
            asset: "".to_string(),
            required: "".to_string(),
            available: "".to_string(),
        }
    } else if code == -2019 {
        ExchangeError::InsufficientBalance {
            asset: "margin".to_string(),
            required: "".to_string(),
            available: "".to_string(),
        }
    } else if code == -1102 || code == -1013 {
        ExchangeError::InvalidQuantity { symbol: "".to_string(), reason: error.msg }
    } else if code == -1111 {
        ExchangeError::InvalidQuantity {
            symbol: "".to_string(),
            reason: "Precisão inválida".to_string(),
        }
    } else if code == -4003 {
        ExchangeError::InvalidQuantity {
            symbol: "".to_string(),
            reason: "Quantidade deve ser maior que zero".to_string(),
        }
    } else {
        ExchangeError::ApiError { exchange: "binance".to_string(), code, message: error.msg }
    }
}

/// The decimal a text holds when it is readable and not zero.
pub open spec fn nonzero_decimal(s: Seq<char>) -> Option<(int, nat)> {
    match decimal_from_text(s) {
        Some(d) => if d.0 != 0 {
            Some(d)
        } else {
            None
        },
        None => None,
    }
}

/// Reads a decimal that is kept only when readable and not zero.
fn parse_nonzero(s: &str) -> (r: Option<Dec>)
    ensures
        match nonzero_decimal(s@) {
            Some(d) => r is Some && r.unwrap().repr() == d,
            None => r is None,
        },
{
    match Dec::parse(s) {
        Some(d) => if d.is_zero() {
            None
        } else {
            Some(d)
        },
        None => None,
    }
}

/// The domain status an API order status names (unknown ones pending).
pub open spec fn order_status_of(s: Seq<char>) -> OrderStatus {
    if s == "NEW"@ {
        OrderStatus::Submitted
    } else if s == "PARTIALLY_FILLED"@ {
        OrderStatus::PartiallyFilled
    } else if s == "FILLED"@ {
        OrderStatus::Filled
    } else if s == "CANCELED"@ {
        OrderStatus::Cancelled
    } else if s == "REJECTED"@ {
        OrderStatus::Rejected
    } else if s == "EXPIRED"@ {
        OrderStatus::Expired
    } else {
        OrderStatus::Pending
    }
}

/// The domain type an API order type names (unknown ones market).
pub open spec fn order_type_of(s: Seq<char>) -> OrderType {
    if s == "MARKET"@ {
        OrderType::Market
    } else if s == "LIMIT"@ {
        OrderType::Limit
    } else if s == "STOP"@ || s == "STOP_MARKET"@ {
        OrderType::StopLoss
    } else if s == "TAKE_PROFIT"@ || s == "TAKE_PROFIT_MARKET"@ {
        OrderType::TakeProfit
    } else if s == "TRAILING_STOP_MARKET"@ {
        OrderType::TrailingStop
    } else {
        OrderType::Market
    }
}

/// The domain order for an exchange order, with a fresh id, stamped now.
pub fn convert_binance_order(bo: &BinanceOrder, exchange: ExchangeId) -> (r: Order)
    ensures
        r.client_order_id == bo.client_order_id,
        r.exchange_order_id is Some && r.exchange_order_id.unwrap()@ == int_text(bo.order_id as int),
        r.exchange == exchange,
        r.symbol == bo.symbol,
        r.side == if bo.side@ == "BUY"@ {
            OrderSide::Buy
        } else {
            OrderSide::Sell
        },
        r.order_type == order_type_of(bo.order_type@),
        r.quantity.repr() == decimal_or_zero(bo.orig_qty@),
        match nonzero_decimal(bo.price@) {
            Some(d) => r.price is Some && r.price.unwrap().repr() == d,
            None => r.price is None,
        },
        match nonzero_decimal(bo.stop_price@) {
            Some(d) => r.stop_price is Some && r.stop_price.unwrap().repr() == d,
            None => r.stop_price is None,
        },
        r.stop_loss is None,
        r.take_profit is None,
        r.time_in_force == TimeInForce::GTC,
        r.status == order_status_of(bo.status@),
        r.filled_quantity.repr() == decimal_or_zero(bo.executed_qty@),
        match nonzero_decimal(bo.avg_price@) {
            Some(d) => r.average_fill_price is Some && r.average_fill_price.unwrap().repr() == d,
            None => r.average_fill_price is None,
        },
        r.source matches OrderSource::Manual { nota } && nota is None,
        r.error_message is None,
        r.submitted_at == Some(r.created_at),
        r.filled_at is None,
        r.updated_at == r.created_at,
{
    let kind = bo.status.as_str();
    let status = if text_is(kind, "NEW") {
        OrderStatus::Submitted
    } else if text_is(kind, "PARTIALLY_FILLED") {
        OrderStatus::PartiallyFilled
    } else if text_is(kind, "FILLED") {
        OrderStatus::Filled
    } else if text_is(kind, "CANCELED") {
        OrderStatus::Cancelled
    } else if text_is(kind, "REJECTED") {
        OrderStatus::Rejected
    } else if text_is(kind, "EXPIRED") {
        OrderStatus::Expired
    } else {
        OrderStatus::Pending
    };
    let side = if text_is(bo.side.as_str(), "BUY") {
        OrderSide::Buy
    } else {
        OrderSide::Sell
    };
    let t = bo.order_type.as_str();
    let order_type = if text_is(t, "MARKET") {
        OrderType::Market
    } else if text_is(t, "LIMIT") {
        OrderType::Limit
    } else if text_is(t, "STOP") || text_is(t, "STOP_MARKET") {
        OrderType::StopLoss
    } else if text_is(t, "TAKE_PROFIT") || text_is(t, "TAKE_PROFIT_MARKET") {
        OrderType::TakeProfit
    } else if text_is(t, "TRAILING_STOP_MARKET") {
        OrderType::TrailingStop
    } else {
        OrderType::Market
    };
    let now = now_millis();
    Order {
        id: new_id(),
        client_order_id: bo.client_order_id.clone(),
        exchange_order_id: Some(i64_text(bo.order_id)),
        exchange,
        symbol: bo.symbol.clone(),
        side,
        order_type,
        quantity: parse_decimal(bo.orig_qty.as_str()),
        price: parse_nonzero(bo.price.as_str()),
        stop_price: parse_nonzero(bo.stop_price.as_str()),
        stop_loss: None,
        take_profit: None,
        time_in_force: TimeInForce::GTC,
        status,
        filled_quantity: parse_decimal(bo.executed_qty.as_str()),
        average_fill_price: parse_nonzero(bo.avg_price.as_str()),
        source: OrderSource::Manual { nota: None },
        error_message: None,
        created_at: now,
        submitted_at: Some(now),
        filled_at: None,
        updated_at: now,
    }
}

/// A domain position converted from an account position.
pub open spec fn binance_position_is(bp: AccountPosition, exchange: ExchangeId, r: Position) -> bool {
    &&& r.exchange == exchange
    &&& r.symbol == bp.symbol
    &&& r.side == if decimal_or_zero(bp.position_amt@).0 > 0 {
        PositionSide::Long
    } else {
        PositionSide::Short
    }
    &&& r.quantity.repr() == rabs(decimal_or_zero(bp.position_amt@))
    &&& r.entry_price.repr() == decimal_or_zero(bp.entry_price@)
    &&& r.current_price.repr() == decimal_or_zero(bp.entry_price@)
    &&& r.leverage == match parse_unsigned_spec(bp.leverage@, u32::MAX as int) {
        Some(l) => l,
        None => 1,
    }
    &&& r.margin.repr() == decimal_or_zero(bp.initial_margin@)
    &&& r.unrealized_pnl.repr() == decimal_or_zero(bp.unrealized_profit@)
    &&& r.unrealized_pnl_pct.v() == 0
    &&& r.realized_pnl.v() == 0
    &&& r.stop_loss_order_id is None
    &&& r.stop_loss_price is None
    &&& r.take_profit_order_id is None
    &&& r.take_profit_price is None
    &&& r.status == PositionStatus::Open
    &&& r.liquidation_price is Some && r.liquidation_price.unwrap().repr() == decimal_or_zero(
        bp.break_even_price@,
    )
    &&& r.closed_at is None
    &&& r.updated_at == r.opened_at
}

/// The domain position for an account position, with fresh ids, stamped
/// now: long when the amount is positive, else short; the quantity is the
/// amount's size; the leverage is 1 when unreadable; the break-even price
/// stands as the liquidation price.
pub fn convert_binance_position(bp: &AccountPosition, exchange: ExchangeId) -> (r: Position)
    ensures
        binance_position_is(*bp, exchange, r),
{
    let amount = parse_decimal(bp.position_amt.as_str());
    let side = if amount.is_positive() {
        PositionSide::Long
    } else {
        PositionSide::Short
    };
    let entry = parse_decimal(bp.entry_price.as_str());
    let now = now_millis();
    Position {
        id: new_id(),
        exchange,
        symbol: bp.symbol.clone(),
        side,
        quantity: amount.abs(),
        entry_price: entry,
        current_price: entry,
        leverage: match parse_u32(bp.leverage.as_str()) {
            Some(l) => l,
            None => 1,
        },
        margin: parse_decimal(bp.initial_margin.as_str()),
        unrealized_pnl: parse_decimal(bp.unrealized_profit.as_str()),
        unrealized_pnl_pct: Dec::zero(),
        realized_pnl: Dec::zero(),
        stop_loss_order_id: None,
        stop_loss_price: None,
        take_profit_order_id: None,
        take_profit_price: None,
        entry_order_id: new_id(),
        status: PositionStatus::Open,
        liquidation_price: Some(parse_decimal(bp.break_even_price.as_str())),
        opened_at: now,
        closed_at: None,
        updated_at: now,
    }
}

/// A kline field read as a decimal: zero when it is not a readable text.
pub open spec fn field_decimal(v: JsonValue) -> (int, nat) {
    match v {
        JsonValue::Text(s) => decimal_or_zero(s@),
        _ => (0, 0),
    }
}

/// A kline field read as an integer: zero when it is not one.
pub open spec fn field_int(v: JsonValue) -> i64 {
    match v {
        JsonValue::Number(Some(n)) => n,
        _ => 0,
    }
}

fn read_field_decimal(v: &JsonValue) -> (r: Dec)
    ensures
        r.repr() == field_decimal(*v),
{
    match as_str(Some(v)) {
        Some(s) => parse_decimal(s),
        None => Dec::zero(),
    }
}

/// What candle `c` reads from kline `k`: open, high, low, close and volume
/// from fields 1 to 5, quote volume from field 7, trade count from field 8
/// (when an integer), and open and close times from fields 0 and 6 (when
/// chrono can hold them).
pub open spec fn kline_read(k: Seq<JsonValue>, c: Candle) -> bool {
    &&& c.open.repr() == field_decimal(k[1])
    &&& c.high.repr() == field_decimal(k[2])
    &&& c.low.repr() == field_decimal(k[3])
    &&& c.close.repr() == field_decimal(k[4])
    &&& c.volume.repr() == field_decimal(k[5])
    &&& c.quote_volume is Some
    &&& c.quote_volume.unwrap().repr() == field_decimal(k[7])
    &&& c.trade_count == (match k[8] {
        JsonValue::Number(Some(n)) => Some(n as u32),
        _ => None,
    })
    &&& chrono_millis_in_range(field_int(k[0])) ==> c.open_time == field_int(k[0])
    &&& chrono_millis_in_range(field_int(k[6])) ==> c.close_time == field_int(k[6])
}

/// A candle from a kline array: open time, open, high, low, close, volume,
/// close time, quote volume, trade count, ...; an error when it has fewer
/// than 12 fields.  Unreadable numbers count as zero; an instant chrono
/// cannot hold is replaced by now.
pub fn parse_kline(k: &Vec<JsonValue>) -> (r: Result<Candle, ExchangeError>)
    ensures
        k@.len() < 12 ==> (r matches Err(ExchangeError::ApiError { exchange, code, message })
            && exchange@ == "binance"@ && code == 0 && message@
            == "Kline com dados insuficientes"@),
        k@.len() >= 12 ==> (r matches Ok(c) && kline_read(k@, c)),
{
    if k.len() < 12 {
        return Err(
            ExchangeError::ApiError {
                exchange: "binance".to_string(),
                code: 0,
                message: "Kline com dados insuficientes".to_string(),
            },
        );
    }
    let open_time = match as_i64(Some(&k[0])) {
        Some(t) => t,
        None => 0,
    };
    let close_time = match as_i64(Some(&k[6])) {
        Some(t) => t,
        None => 0,
    };
    let trade_count = match as_i64(Some(&k[8])) {
        Some(n) => Some(#[verifier::truncate] (n as u32)),
        None => None,
    };
    Ok(
        Candle {
            open: read_field_decimal(&k[1]),
            high: read_field_decimal(&k[2]),
            low: read_field_decimal(&k[3]),
            close: read_field_decimal(&k[4]),
            volume: read_field_decimal(&k[5]),
            quote_volume: Some(read_field_decimal(&k[7])),
            trade_count,
            open_time: timestamp_to_datetime(open_time),
            close_time: timestamp_to_datetime(close_time),
        },
    )
}

// Realized P&L statistics.

/// The P&L of each record, zero when unreadable.
pub open spec fn record_pnls(records: Seq<IncomeRecord>) -> Seq<(int, nat)> {
    records.map_values(|r: IncomeRecord| decimal_or_zero(r.income@))
}

/// The symbol and P&L of each record.
pub open spec fn record_items(records: Seq<IncomeRecord>, pnls: Seq<Dec>) -> bool {
    pnls.len() == records.len() && forall|i: int|
        0 <= i < records.len() ==> (#[trigger] pnls[i]).repr() == decimal_or_zero(
            records[i].income@,
        )
}

/// The number of positive (`positive`) or negative P&Ls.
pub open spec fn count_sign(pnls: Seq<(int, nat)>, positive: bool) -> nat
    decreases pnls.len(),
{
    if pnls.len() == 0 {
        0
    } else {
        count_sign(pnls.drop_last(), positive) + if (positive && pnls.last().0 > 0) || (!positive
            && pnls.last().0 < 0) {
            1nat
        } else {
            0nat
        }
    }
}

/// The largest win (starting from zero) or the largest loss (the most
/// negative, starting from zero).
pub open spec fn extreme(pnls: Seq<(int, nat)>, win: bool) -> (int, nat)
    decreases pnls.len(),
{
    if pnls.len() == 0 {
        (0, 0)
    } else {
        let prev = extreme(pnls.drop_last(), win);
        let p = pnls.last();
        if win && p.0 > 0 && p.0 > prev.0 {
            p
        } else if !win && p.0 < 0 && p.0 < prev.0 {
            p
        } else {
            prev
        }
    }
}

/// The sizes of the fees.
pub open spec fn fee_sizes(fees: Seq<IncomeRecord>) -> Seq<(int, nat)> {
    fees.map_values(|r: IncomeRecord| rabs(decimal_or_zero(r.income@)))
}

/// The (symbol, P&L) of each record.
pub open spec fn symbol_pnls(records: Seq<IncomeRecord>, pnls: Seq<Dec>) -> Seq<(String, Dec)> {
    Seq::new(records.len(), |i: int| (records[i].symbol, pnls[i]))
}

/// Statistics of realized P&L `records` and commission `fees`: the count,
/// total, wins and losses with the largest of each, totals per symbol and
/// the total size of the fees.
pub fn calculate_trade_stats(records: &Vec<IncomeRecord>, fees: &Vec<IncomeRecord>) -> (r:
    TradeHistoryStats)
    requires
        sum_fits(record_pnls(records@)),
        sum_fits(fee_sizes(fees@)),
        forall|pnls: Seq<Dec>|
            record_items(records@, pnls) ==> #[trigger] sums_fit(symbol_pnls(records@, pnls)),
    ensures
        r.total_trades == records@.len(),
        r.total_pnl.repr() == rsum(record_pnls(records@)),
        r.winning_trades == count_sign(record_pnls(records@), true),
        r.losing_trades == count_sign(record_pnls(records@), false),
        r.largest_win.repr() == extreme(record_pnls(records@), true),
        r.largest_loss.repr() == extreme(record_pnls(records@), false),
        r.total_fees.repr() == rsum(fee_sizes(fees@)),
        exists|pnls: Seq<Dec>|
            record_items(records@, pnls) && (forall|i: int|
                0 <= i < r.pnl_by_symbol@.len() ==> (#[trigger] r.pnl_by_symbol@[i]).1.repr()
                    == rsum(key_amounts(symbol_pnls(records@, pnls), r.pnl_by_symbol@[i].0@)))
                && (forall|i: int, j: int|
                0 <= i < j < r.pnl_by_symbol@.len() ==> #[trigger] r.pnl_by_symbol@[i].0@
                    != #[trigger] r.pnl_by_symbol@[j].0@) && (forall|k: int|
                0 <= k < records@.len() ==> keys_of(r.pnl_by_symbol@).contains(
                    #[trigger] records@[k].symbol@,
                )),
{
    let mut pnls: Vec<Dec> = Vec::new();
    let mut items: Vec<(String, Dec)> = Vec::new();
    let mut winning: u64 = 0;
    let mut losing: u64 = 0;
    let mut largest_win = Dec::zero();
    let mut largest_loss = Dec::zero();
    let mut i: usize = 0;
    while i < records.len()
        invariant
            i <= records@.len(),
            pnls@.len() == i,
            items@.len() == i,
            forall|k: int|
                0 <= k < i ==> (#[trigger] pnls@[k]).repr() == decimal_or_zero(
                    records@[k].income@,
                ),
            forall|k: int| 0 <= k < i ==> #[trigger] items@[k] == (records@[k].symbol, pnls@[k]),
            winning as int == count_sign(record_pnls(records@.take(i as int)), true),
            losing as int == count_sign(record_pnls(records@.take(i as int)), false),
            winning <= i,
            losing <= i,
            largest_win.repr() == extreme(record_pnls(records@.take(i as int)), true),
            largest_loss.repr() == extreme(record_pnls(records@.take(i as int)), false),
        decreases records@.len() - i,
    {
        let ghost before = record_pnls(records@.take(i as int));
        assert(record_pnls(records@.take(i as int + 1)) =~= before.push(
            decimal_or_zero(records@[i as int].income@),
        ));
        assert(record_pnls(records@.take(i as int + 1)).drop_last() =~= before);
        let pnl = parse_decimal(records[i].income.as_str());
        if pnl.is_positive() {
            winning = winning + 1;
            if pnl.gt(&largest_win) {
                largest_win = pnl;
            }
        } else if pnl.is_negative() {
            losing = losing + 1;
            if pnl.lt(&largest_loss) {
                largest_loss = pnl;
            }
        }
        pnls.push(pnl);
        items.push((records[i].symbol.clone(), pnl));
        i += 1;
    }
    assert(records@.take(records@.len() as int) =~= records@);
    assert(reprs(pnls@) =~= record_pnls(records@));
    assert(record_items(records@, pnls@));
    assert(items@ =~= symbol_pnls(records@, pnls@));
    let total_pnl = sum_all(&pnls);
    let by_symbol = totals_by_key(&items);
    let mut fee_amounts: Vec<Dec> = Vec::new();
    let mut j: usize = 0;
    while j < fees.len()
        invariant
            j <= fees@.len(),
            fee_amounts@.len() == j,
            forall|k: int|
                0 <= k < j ==> (#[trigger] fee_amounts@[k]).repr() == rabs(
                    decimal_or_zero(fees@[k].income@),
                ),
        decreases fees@.len() - j,
    {
        fee_amounts.push(parse_decimal(fees[j].income.as_str()).abs());
        j += 1;
    }
    assert(reprs(fee_amounts@) =~= fee_sizes(fees@));
    let total_fees = sum_all(&fee_amounts);
    assert forall|k: int| 0 <= k < records@.len() implies keys_of(by_symbol@).contains(
        #[trigger] records@[k].symbol@,
    ) by {
        assert(items@[k].0@ == records@[k].symbol@);
    }
    TradeHistoryStats {
        total_trades: records.len() as u64,
        total_pnl,
        total_fees,
        winning_trades: winning,
        losing_trades: losing,
        largest_win,
        largest_loss,
        pnl_by_symbol: by_symbol,
    }
}


// ---------------------------------------------------------------------------
// Account summaries and paging.

/// The indices of the account positions with a non-zero amount, in order.
pub open spec fn held_indices(ps: Seq<AccountPosition>) -> Seq<int>
    decreases ps.len(),
{
    if ps.len() == 0 {
        Seq::empty()
    } else if decimal_or_zero(ps.last().position_amt@).0 != 0 {
        held_indices(ps.drop_last()).push(ps.len() - 1)
    } else {
        held_indices(ps.drop_last())
    }
}

proof fn lemma_held_step(ps: Seq<AccountPosition>, i: int)
    requires
        0 <= i < ps.len(),
    ensures
        held_indices(ps.take(i + 1)) == if decimal_or_zero(ps[i].position_amt@).0 != 0 {
            held_indices(ps.take(i)).push(i)
        } else {
            held_indices(ps.take(i))
        },
{
    assert(ps.take(i + 1).drop_last() =~= ps.take(i));
    assert(ps.take(i + 1).last() == ps[i]);
}

/// The open positions of an account: those with a non-zero amount, in
/// order, each converted.
pub fn open_positions(positions: &Vec<AccountPosition>, exchange: ExchangeId) -> (r: Vec<Position>)
    ensures
        r@.len() == held_indices(positions@).len(),
        forall|k: int|
            0 <= k < r@.len() ==> binance_position_is(
                positions@[held_indices(positions@)[k]],
                exchange,
                #[trigger] r@[k],
            ),
{
    let mut out: Vec<Position> = Vec::new();
    let mut i: usize = 0;
    assert(positions@.take(0) =~= Seq::<AccountPosition>::empty());
    while i < positions.len()
        invariant
            i <= positions@.len(),
            out@.len() == held_indices(positions@.take(i as int)).len(),
            forall|k: int|
                0 <= k < out@.len() ==> binance_position_is(
                    positions@[held_indices(positions@.take(i as int))[k]],
                    exchange,
                    #[trigger] out@[k],
                ),
        decreases positions@.len() - i,
    {
        proof {
            lemma_held_step(positions@, i as int);
        }
        let amount = parse_decimal(positions[i].position_amt.as_str());
        if !amount.is_zero() {
            out.push(convert_binance_position(&positions[i], exchange));
        }
        i += 1;
    }
    assert(positions@.take(positions@.len() as int) =~= positions@);
    out
}

/// The balances of an account's assets with a positive wallet balance:
/// the available balance is free, the initial margin locked.
pub open spec fn asset_balance_views(assets: Seq<AccountAsset>) -> Seq<(Seq<char>, (int, nat), (int, nat))>
    decreases assets.len(),
{
    if assets.len() == 0 {
        Seq::empty()
    } else {
        let before = asset_balance_views(assets.drop_last());
        let a = assets.last();
        if decimal_or_zero(a.wallet_balance@).0 > 0 {
            before.push(
                (
                    a.asset@,
                    decimal_or_zero(a.available_balance@),
                    decimal_or_zero(a.initial_margin@),
                ),
            )
        } else {
            before
        }
    }
}

/// The balances of an account: each asset with a positive wallet balance,
/// its available balance free and its initial margin locked.
pub fn asset_balances(assets: &Vec<AccountAsset>) -> (r: Vec<Balance>)
    ensures
        balance_views(r@) == asset_balance_views(assets@),
{
    let mut out: Vec<Balance> = Vec::new();
    let mut i: usize = 0;
    assert(assets@.take(0) =~= Seq::<AccountAsset>::empty());
    while i < assets.len()
        invariant
            i <= assets@.len(),
            balance_views(out@) == asset_balance_views(assets@.take(i as int)),
        decreases assets@.len() - i,
    {
        let a = &assets[i];
        proof {
            assert(assets@.take(i as int + 1).drop_last() =~= assets@.take(i as int));
            assert(assets@.take(i as int + 1).last() == assets@[i as int]);
        }
        if parse_decimal(a.wallet_balance.as_str()).is_positive() {
            out.push(
                Balance {
                    asset: a.asset.clone(),
                    free: parse_decimal(a.available_balance.as_str()),
                    locked: parse_decimal(a.initial_margin.as_str()),
                },
            );
            assert(balance_views(out@) =~= asset_balance_views(assets@.take(i as int + 1)));
        }
        i += 1;
    }
    assert(assets@.take(assets@.len() as int) =~= assets@);
    out
}

/// Where the next page of klines starts, after a page whose last candle
/// closed at `last_close`: nothing once that is within a minute of the
/// end.
pub fn next_klines_start(last_close: i64, final_end: i64) -> (r: Option<i64>)
    requires
        final_end >= i64::MIN + 60000,
    ensures
        last_close >= final_end - 60000 ==> r is None,
        last_close < final_end - 60000 ==> r == Some((last_close + 1) as i64),
{
    if last_close >= final_end - 60000 {
        None
    } else {
        Some(last_close + 1)
    }
}

/// Whether more income pages may follow: the records so far fill whole
/// pages of `limit`.
pub fn more_income_pages(count: usize, limit: u32) -> (r: bool)
    requires
        limit > 0,
    ensures
        r == (count % (limit as usize) == 0),
{
    count % (limit as usize) == 0
}

/// The candle at `i` is the first one with its open time.
pub open spec fn first_of_its_time(cs: Seq<Candle>, i: int) -> bool {
    0 <= i < cs.len() && forall|j: int| 0 <= j < i ==> cs[j].open_time != cs[i].open_time
}

/// `c` is the first candle of `cs` with its open time.
pub open spec fn first_in(cs: Seq<Candle>, c: Candle) -> bool {
    exists|i: int| #[trigger] first_of_its_time(cs, i) && c == cs[i]
}

/// Some candle of `r` opens at `t`.
pub open spec fn time_in(r: Seq<Candle>, t: i64) -> bool {
    exists|k: int| 0 <= k < r.len() && #[trigger] r[k].open_time == t
}

/// Open times strictly increase along `r`.
pub open spec fn strictly_by_time(r: Seq<Candle>) -> bool {
    forall|a: int, b: int| 0 <= a < b < r.len() ==> r[a].open_time < r[b].open_time
}

/// `r` holds, ordered by open time, the first candle of `cs` with each
/// open time that occurs in `cs`.
pub open spec fn merged_candles(cs: Seq<Candle>, r: Seq<Candle>) -> bool {
    &&& strictly_by_time(r)
    &&& forall|k: int| 0 <= k < r.len() ==> first_in(cs, #[trigger] r[k])
    &&& forall|i: int| 0 <= i < cs.len() ==> time_in(r, #[trigger] cs[i].open_time)
}

/// The candles of several pages as one series: ordered by open time, and
/// of candles with the same open time the first one received.
pub fn merge_candles(candles: &Vec<Candle>) -> (r: Vec<Candle>)
    ensures
        merged_candles(candles@, r@),
{
    let mut out: Vec<Candle> = Vec::new();
    let mut i: usize = 0;
    while i < candles.len()
        invariant
            i <= candles@.len(),
            merged_candles(candles@.take(i as int), out@),
        decreases candles@.len() - i,
    {
        let c = candles[i];
        let ghost before = out@;
        let ghost pre = candles@.take(i as int);
        let ghost next = candles@.take(i as int + 1);
        assert(next == pre.push(c));
        let mut j: usize = 0;
        while j < out.len() && out[j].open_time < c.open_time
            invariant
                j <= out@.len(),
                out@ == before,
                forall|a: int| 0 <= a < j ==> out@[a].open_time < c.open_time,
            decreases out@.len() - j,
        {
            j += 1;
        }
        if j < out.len() && out[j].open_time == c.open_time {
            proof {
                assert forall|k: int| 0 <= k < out@.len() implies first_in(next, out@[k]) by {
                    assert(first_in(pre, out@[k]));
                    let m = choose|m: int| #[trigger] first_of_its_time(pre, m) && out@[k] == pre[m];
                    assert(next[m] == pre[m]);
                    assert(first_of_its_time(next, m));
                }
                assert forall|m: int| 0 <= m < next.len() implies time_in(out@, next[m].open_time) by {
                    if m < pre.len() {
                        assert(next[m] == pre[m]);
                        assert(time_in(out@, pre[m].open_time));
                    } else {
                        assert(out@[j as int].open_time == next[m].open_time);
                    }
                }
            }
        } else {
            out.insert(j, c);
            proof {
                let after = out@;
                assert(after == before.insert(j as int, c));
                assert forall|a: int, b: int| 0 <= a < b < after.len() implies after[a].open_time
                    < after[b].open_time by {
                    if b < j {
                        assert(after[a] == before[a] && after[b] == before[b]);
                    } else if b == j {
                        assert(after[a] == before[a]);
                    } else if a == j {
                        assert(after[b] == before[b - 1]);
                        if b - 1 > j {
                            assert(before[j as int].open_time < before[b - 1].open_time);
                        }
                    } else if a < j {
                        assert(after[a] == before[a] && after[b] == before[b - 1]);
                    } else {
                        assert(after[a] == before[a - 1] && after[b] == before[b - 1]);
                    }
                }
                assert forall|m: int| 0 <= m < pre.len() implies pre[m].open_time != c.open_time by {
                    assert(time_in(before, pre[m].open_time));
                    let k = choose|k: int| 0 <= k < before.len() && #[trigger] before[k].open_time == pre[m].open_time;
                    if k < j {
                        assert(before[k].open_time < c.open_time);
                    } else {
                        assert(before[j as int].open_time != c.open_time);
                        if k > j {
                            assert(before[j as int].open_time < before[k].open_time);
                        }
                    }
                }
                assert(first_of_its_time(next, i as int));
                assert forall|k: int| 0 <= k < after.len() implies first_in(next, after[k]) by {
                    if k == j {
                        assert(after[k] == next[i as int]);
                    } else {
                        let bk = if k < j { k } else { k - 1 };
                        assert(after[k] == before[bk]);
                        assert(first_in(pre, before[bk]));
                        let m = choose|m: int| #[trigger] first_of_its_time(pre, m) && before[bk] == pre[m];
                        assert(next[m] == pre[m]);
                        assert(first_of_its_time(next, m));
                    }
                }
                assert forall|m: int| 0 <= m < next.len() implies time_in(after, next[m].open_time) by {
                    if m < pre.len() {
                        assert(next[m] == pre[m]);
                        assert(time_in(before, pre[m].open_time));
                        let k = choose|k: int| 0 <= k < before.len() && #[trigger] before[k].open_time == pre[m].open_time;
                        let ak = if k < j { k } else { k + 1 };
                        assert(after[ak] == before[k]);
                    } else {
                        assert(after[j as int] == c);
                    }
                }
            }
        }
        i += 1;
    }
    assert(candles@.take(candles@.len() as int) =~= candles@);
    out
}

/// The parameters of a new order: symbol, side and type, then the position
/// side, time in force, quantity, price, stop price, reduce-only flag
/// ("true" or "false") and client id that are set, in that order.
pub open spec fn create_order_param_views(request: NewOrderRequest) -> Seq<(Seq<char>, Seq<char>)> {
    seq![
        ("symbol"@, request.symbol@),
        ("side"@, request.side@),
        ("type"@, request.order_type@),
    ] + optional_param("positionSide"@, request.position_side) + optional_param(
        "timeInForce"@,
        request.time_in_force,
    ) + optional_param("quantity"@, request.quantity) + optional_param("price"@, request.price)
        + optional_param("stopPrice"@, request.stop_price) + match request.reduce_only {
        Some(b) => seq![("reduceOnly"@, if b { "true"@ } else { "false"@ })],
        None => Seq::empty(),
    } + optional_param("newClientOrderId"@, request.new_client_order_id)
}

/// The parameters a new order is created with.
pub fn create_order_params(request: &NewOrderRequest) -> (r: Vec<(String, String)>)
    ensures
        param_views(r@) == create_order_param_views(*request),
{
    let mut ps: Vec<(String, String)> = Vec::new();
    assert(param_views(ps@) =~= Seq::<(Seq<char>, Seq<char>)>::empty());
    push_param(&mut ps, "symbol", request.symbol.clone());
    push_param(&mut ps, "side", request.side.clone());
    push_param(&mut ps, "type", request.order_type.clone());
    push_optional(&mut ps, "positionSide", &request.position_side);
    push_optional(&mut ps, "timeInForce", &request.time_in_force);
    push_optional(&mut ps, "quantity", &request.quantity);
    push_optional(&mut ps, "price", &request.price);
    push_optional(&mut ps, "stopPrice", &request.stop_price);
    let ghost middle = param_views(ps@);
    match request.reduce_only {
        Some(b) => {
            let flag = if b {
                "true".to_string()
            } else {
                "false".to_string()
            };
            push_param(&mut ps, "reduceOnly", flag);
        },
        None => {},
    }
    proof {
        let flags = match request.reduce_only {
            Some(b) => seq![("reduceOnly"@, if b { "true"@ } else { "false"@ })],
            None => Seq::<(Seq<char>, Seq<char>)>::empty(),
        };
        assert(param_views(ps@) =~= middle + flags);
    }
    push_optional(&mut ps, "newClientOrderId", &request.new_client_order_id);
    assert(param_views(ps@) =~= create_order_param_views(*request));
    ps
}

// ---------------------------------------------------------------------------
// Signed requests.

/// The query text of some parameters: each "name=value", joined by '&'.
pub open spec fn query_of(params: Seq<(Seq<char>, Seq<char>)>) -> Seq<char>
    decreases params.len(),
{
    if params.len() == 0 {
        Seq::empty()
    } else if params.len() == 1 {
        params[0].0 + "="@ + params[0].1
    } else {
        query_of(params.drop_last()) + "&"@ + params.last().0 + "="@ + params.last().1
    }
}

/// The query text of some parameters, as signed: nothing is encoded.
pub fn query_string(params: &Vec<(String, String)>) -> (r: String)
    ensures
        r@ == query_of(param_views(params@)),
{
    let mut query = String::new();
    let mut i: usize = 0;
    proof {
        reveal_strlit("");
        assert(param_views(params@.take(0)) =~= Seq::<(Seq<char>, Seq<char>)>::empty());
    }
    while i < params.len()
        invariant
            i <= params@.len(),
            query@ == query_of(param_views(params@.take(i as int))),
        decreases params@.len() - i,
    {
        let ghost before = query@;
        if i > 0 {
            query.append("&");
        }
        query.append(params[i].0.as_str());
        query.append("=");
        query.append(params[i].1.as_str());
        proof {
            let t = param_views(params@.take(i as int + 1));
            assert(t.drop_last() =~= param_views(params@.take(i as int)));
            assert(t.last() == (params@[i as int].0@, params@[i as int].1@));
            if i == 0 {
                assert(t.len() == 1);
                assert(before =~= Seq::<char>::empty());
            }
            assert(query@ =~= query_of(t));
        }
        i += 1;
    }
    assert(params@.take(params@.len() as int) =~= params@);
    query
}

/// The HMAC-SHA-256 tag of a message under a key.
pub uninterp spec fn hmac_sha256_of(key: Seq<u8>, message: Seq<u8>) -> Seq<u8>;

/// `hmac::Hmac::<sha2::Sha256>`: keyed with `key` (any length is
/// accepted), fed `message`, finalized.
#[verifier::external_body]
fn hmac_sha256(key: &Vec<u8>, message: &Vec<u8>) -> (r: Vec<u8>)
    ensures
        r@ == hmac_sha256_of(key@, message@),
{
    let mut mac = <hmac::Hmac<sha2::Sha256> as hmac::Mac>::new_from_slice(key.as_slice()).unwrap();
    hmac::Mac::update(&mut mac, message.as_slice());
    hmac::Mac::finalize(mac).into_bytes().to_vec()
}

/// The lower-case hex digit of `n` (below 16).
pub open spec fn hex_digit(n: int) -> char {
    if n < 10 {
        ('0' as int + n) as char
    } else {
        ('a' as int + n - 10) as char
    }
}

/// Lower-case hex: two digits per byte, high half first.
pub open spec fn hex_of(bytes: Seq<u8>) -> Seq<char>
    decreases bytes.len(),
{
    if bytes.len() == 0 {
        Seq::empty()
    } else {
        hex_of(bytes.drop_last()) + seq![
            hex_digit(bytes.last() as int / 16),
            hex_digit(bytes.last() as int % 16),
        ]
    }
}

/// The hex digit of `n`, as text.
fn hex_char(n: u8) -> (r: &'static str)
    requires
        n < 16,
    ensures
        r@ == seq![hex_digit(n as int)],
{
    proof {
        reveal_strlit("0");
        reveal_strlit("1");
        reveal_strlit("2");
        reveal_strlit("3");
        reveal_strlit("4");
        reveal_strlit("5");
        reveal_strlit("6");
        reveal_strlit("7");
        reveal_strlit("8");
        reveal_strlit("9");
        reveal_strlit("a");
        reveal_strlit("b");
        reveal_strlit("c");
        reveal_strlit("d");
        reveal_strlit("e");
        reveal_strlit("f");
    }
    match n {
        0 => "0",
        1 => "1",
        2 => "2",
        3 => "3",
        4 => "4",
        5 => "5",
        6 => "6",
        7 => "7",
        8 => "8",
        9 => "9",
        10 => "a",
        11 => "b",
        12 => "c",
        13 => "d",
        14 => "e",
        _ => "f",
    }
}

/// Lower-case hex of some bytes.
pub fn hex_lower(bytes: &Vec<u8>) -> (r: String)
    ensures
        r@ == hex_of(bytes@),
{
    let mut text = String::new();
    let mut i: usize = 0;
    proof {
        reveal_strlit("");
        assert(bytes@.take(0) =~= Seq::<u8>::empty());
    }
    while i < bytes.len()
        invariant
            i <= bytes@.len(),
            text@ == hex_of(bytes@.take(i as int)),
        decreases bytes@.len() - i,
    {
        let b = bytes[i];
        text.append(hex_char(b / 16));
        text.append(hex_char(b % 16));
        proof {
            let t = bytes@.take(i as int + 1);
            assert(t.drop_last() =~= bytes@.take(i as int));
            assert(t.last() == b);
            assert(text@ =~= hex_of(t));
        }
        i += 1;
    }
    assert(bytes@.take(bytes@.len() as int) =~= bytes@);
    text
}

/// The signature of a query: lower-case hex of its HMAC-SHA-256 under the
/// API secret.
pub fn sign_query(secret: &str, query: &str) -> (r: String)
    ensures
        r@ == hex_of(hmac_sha256_of(utf8_of(secret@), utf8_of(query@))),
{
    let key = utf8_bytes(secret);
    let message = utf8_bytes(query);
    hex_lower(&hmac_sha256(&key, &message))
}

/// The parameters of a signed request: the given ones, then the instant
/// and the receive window.
pub open spec fn stamped_params(
    params: Seq<(String, String)>,
    timestamp: u64,
    recv_window: u64,
) -> Seq<(Seq<char>, Seq<char>)> {
    param_views(params) + seq![
        ("timestamp"@, int_text(timestamp as int)),
        ("recvWindow"@, int_text(recv_window as int)),
    ]
}

/// A signed query: the parameters, the instant and the receive window, then
/// "&signature=" and the signature of all that.
pub fn signed_query(params: &Vec<(String, String)>, secret: &str, timestamp: u64, recv_window: u64) -> (r:
    String)
    ensures
        r@ == query_of(stamped_params(params@, timestamp, recv_window)) + "&signature="@ + hex_of(
            hmac_sha256_of(
                utf8_of(secret@),
                utf8_of(query_of(stamped_params(params@, timestamp, recv_window))),
            ),
        ),
{
    let mut stamped: Vec<(String, String)> = Vec::new();
    let mut i: usize = 0;
    while i < params.len()
        invariant
            i <= params@.len(),
            param_views(stamped@) == param_views(params@.take(i as int)),
        decreases params@.len() - i,
    {
        push_param(&mut stamped, params[i].0.as_str(), params[i].1.clone());
        assert(params@.take(i as int + 1) =~= params@.take(i as int).push(params@[i as int]));
        assert(param_views(params@.take(i as int + 1)) =~= param_views(params@.take(i as int)).push(
            (params@[i as int].0@, params@[i as int].1@),
        ));
        i += 1;
    }
    assert(params@.take(params@.len() as int) =~= params@);
    push_param(&mut stamped, "timestamp", u64_text(timestamp));
    push_param(&mut stamped, "recvWindow", u64_text(recv_window));
    assert(param_views(stamped@) =~= stamped_params(params@, timestamp, recv_window));
    let query = query_string(&stamped);
    let signature = sign_query(secret, query.as_str());
    let mut signed = query.clone();
    signed.append("&signature=");
    signed.append(signature.as_str());
    signed
}

/// Whether every row is a list.
pub open spec fn all_lists(rows: Seq<JsonValue>) -> bool {
    forall|i: int| 0 <= i < rows.len() ==> #[trigger] rows[i] is Array
}

/// The rows that are lists of at least twelve fields, in order.
pub open spec fn full_klines(rows: Seq<JsonValue>) -> Seq<Seq<JsonValue>>
    decreases rows.len(),
{
    if rows.len() == 0 {
        Seq::empty()
    } else {
        let rest = full_klines(rows.drop_last());
        match rows.last() {
            JsonValue::Array(k) => if k@.len() >= 12 {
                rest.push(k@)
            } else {
                rest
            },
            _ => rest,
        }
    }
}

/// The candles of a klines response: one for each row with all its
/// fields, in order, the shorter rows skipped; nothing when the body is
/// not a list of lists.
pub fn klines_from_body(body: &str) -> (r: Option<Vec<Candle>>)
    ensures
        match json_parse(body@) {
            Some(JsonValue::Array(rows)) => if all_lists(rows@) {
                r matches Some(cs) && cs@.len() == full_klines(rows@).len() && forall|i: int|
                    0 <= i < cs@.len() ==> kline_read(full_klines(rows@)[i], #[trigger] cs@[i])
            } else {
                r is None
            },
            _ => r is None,
        },
{
    let parsed = parse_json(body);
    let rows = match parsed {
        Some(JsonValue::Array(rows)) => rows,
        _ => {
            return None;
        },
    };
    assert(json_parse(body@) == Some(JsonValue::Array(rows)));
    let mut out: Vec<Candle> = Vec::new();
    let mut i: usize = 0;
    while i < rows.len()
        invariant
            i <= rows@.len(),
            json_parse(body@) == Some(JsonValue::Array(rows)),
            forall|j: int| 0 <= j < i ==> #[trigger] rows@[j] is Array,
            out@.len() == full_klines(rows@.take(i as int)).len(),
            forall|j: int|
                0 <= j < out@.len() ==> kline_read(full_klines(rows@.take(i as int))[j], #[trigger] out@[j]),
        decreases rows@.len() - i,
    {
        proof {
            let t = rows@.take(i as int + 1);
            assert(t.drop_last() =~= rows@.take(i as int));
            assert(t.last() == rows@[i as int]);
        }
        match &rows[i] {
            JsonValue::Array(k) => {
                if k.len() >= 12 {
                    match parse_kline(k) {
                        Ok(c) => {
                            out.push(c);
                        },
                        Err(_) => {},
                    }
                }
            },
            _ => {
                assert(!all_lists(rows@)) by {
                    assert(!(rows@[i as int] is Array));
                }
                return None;
            },
        }
        i += 1;
    }
    assert(rows@.take(rows@.len() as int) =~= rows@);
    Some(out)
}

} // verus!
