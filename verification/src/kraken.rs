//! Kraken Futures: the REST models, request signing, the stream's
//! messages and events, and the conversions between them and the domain
//! entities.  Sending requests and holding connections is done by the
//! application.
use crate::binance::{decimal_or_zero, parse_decimal};
use crate::clock::{duration_from_secs, new_id, now_millis, seconds_duration};
use crate::decimal::{decimal_checked_difference, decimal_from_text, decimal_text, rabs, Dec};
use crate::entities::{
    balance_views, Balance, Candle, ExchangeError, ExchangeId, Order, OrderRequest, OrderSide, OrderSource, OrderStatus,
    OrderType, Position, PositionSide, PositionStatus, TimeInForce,
};
use crate::json::{as_i64, as_str, get, int_of, json_parse, member, parse_json, text_of, JsonValue};
use crate::text::{
    contains_text, has_infix, optional_param, param_views, push_optional, push_param, text_is,
};
use crate::ws_manager::{chrono_millis_in_range, timestamp_to_datetime};
use base64::Engine;
use core::time::Duration;
use hmac::Mac;
use sha2::Digest;
use vstd::prelude::*;
use vstd::string::*;

verus! {

/// A response envelope: its result, data, error and server time.
#[derive(Debug, Clone)]
pub struct KrakenResponse<T> {
    pub result: String,
    pub data: Option<T>,
    pub error: Option<String>,
    pub server_time: Option<String>,
}

/// An error response.
#[derive(Debug, Clone)]
pub struct KrakenError {
    pub result: String,
    pub error: Option<String>,
    pub server_time: Option<String>,
}

/// The accounts response.
#[derive(Debug, Clone)]
pub struct AccountInfo {
    pub accounts: Option<AccountData>,
}

/// The cash and flex (multi-collateral) accounts.
#[derive(Debug, Clone)]
pub struct AccountData {
    pub cash: Option<CashAccount>,
    pub flex: Option<FlexAccount>,
}

/// A cash account: its balance per currency.
#[derive(Debug, Clone)]
pub struct CashAccount {
    pub account_type: String,
    pub balances: Vec<(String, String)>,
}

/// A flex account: its currencies and margin figures.
#[derive(Debug, Clone)]
pub struct FlexAccount {
    pub account_type: String,
    pub currencies: Vec<(String, FlexCurrency)>,
    pub initial_margin: Option<String>,
    pub initial_margin_with_orders: Option<String>,
    pub maintenance_margin: Option<String>,
    pub balance_value: Option<String>,
    pub portfolio_value: Option<String>,
    pub collateral_value: Option<String>,
    pub pnl: Option<String>,
    pub unrealized_funding: Option<String>,
    pub total_unrealized: Option<String>,
    pub total_unrealized_as_margin: Option<String>,
    pub available_margin: Option<String>,
    pub margin_equity: Option<String>,
}

/// One currency of a flex account.
#[derive(Debug, Clone)]
pub struct FlexCurrency {
    pub quantity: Option<String>,
    pub value: Option<String>,
    pub collateral: Option<String>,
    pub available: Option<String>,
}

/// The open positions response.
#[derive(Debug, Clone)]
pub struct OpenPositions {
    pub open_positions: Vec<KrakenPosition>,
}

/// An open position.
#[derive(Debug, Clone)]
pub struct KrakenPosition {
    pub side: String,
    pub symbol: String,
    pub price: String,
    pub fill_time: String,
    pub size: String,
    pub unrealized_funding: Option<String>,
    pub pnl: Option<String>,
}

/// The open orders response.
#[derive(Debug, Clone)]
pub struct OpenOrders {
    pub open_orders: Vec<KrakenOrder>,
}

/// An open order.
#[derive(Debug, Clone)]
pub struct KrakenOrder {
    pub order_id: String,
    pub cli_ord_id: Option<String>,
    pub order_type: String,
    pub symbol: String,
    pub side: String,
    pub quantity: String,
    pub filled: String,
    pub limit_price: Option<String>,
    pub stop_price: Option<String>,
    pub reduce_only: bool,
    pub last_update_time: Option<String>,
    pub status: String,
}

/// The response to a new order.
#[derive(Debug)]
pub struct SendOrderResult {
    pub send_status: SendStatus,
}

/// The status of a sent order.
#[derive(Debug)]
pub struct SendStatus {
    pub order_id: Option<String>,
    pub cli_ord_id: Option<String>,
    pub status: String,
    pub received_time: Option<String>,
    pub order_events: Option<Vec<OrderEvent>>,
}

/// An event of a sent order.
#[derive(Debug)]
pub struct OrderEvent {
    pub execution_id: Option<String>,
    pub price: Option<String>,
    pub amount: Option<String>,
    pub order_prior_edit: Option<JsonValue>,
    pub order_prior_execution: Option<JsonValue>,
    pub event_type: String,
}

/// The response to a cancellation.
#[derive(Debug, Clone)]
pub struct CancelOrderResult {
    pub cancel_status: CancelStatus,
}

/// The status of a cancellation.
#[derive(Debug, Clone)]
pub struct CancelStatus {
    pub order_id: Option<String>,
    pub cli_ord_id: Option<String>,
    pub status: String,
    pub received_time: Option<String>,
}

/// The tickers response.
#[derive(Debug, Clone)]
pub struct TickerInfo {
    pub tickers: Vec<Ticker>,
}

/// A ticker.
#[derive(Debug, Clone)]
pub struct Ticker {
    pub symbol: String,
    pub tag: Option<String>,
    pub pair: Option<String>,
    pub mark_price: Option<String>,
    pub bid: Option<String>,
    pub bid_size: Option<String>,
    pub ask: Option<String>,
    pub ask_size: Option<String>,
    pub vol24h: Option<String>,
    pub open_interest: Option<String>,
    pub last: Option<String>,
    pub last_time: Option<String>,
    pub last_size: Option<String>,
    pub suspended: Option<bool>,
    pub funding_rate: Option<String>,
    pub funding_rate_prediction: Option<String>,
}

/// The order book response.
#[derive(Debug, Clone)]
pub struct Orderbook {
    pub orderbook: OrderbookData,
}

/// Bids and asks, each a price and a size.
#[derive(Debug, Clone)]
pub struct OrderbookData {
    pub bids: Vec<Vec<String>>,
    pub asks: Vec<Vec<String>>,
}

/// The candles response.
#[derive(Debug, Clone)]
pub struct CandlesResponse {
    pub candles: Vec<KrakenCandle>,
}

/// A candle.
#[derive(Debug, Clone)]
pub struct KrakenCandle {
    pub time: i64,
    pub open: String,
    pub high: String,
    pub low: String,
    pub close: String,
    pub volume: String,
}

/// The instruments response.
#[derive(Debug, Clone)]
pub struct Instruments {
    pub instruments: Vec<Instrument>,
}

/// A tradeable instrument.
#[derive(Debug, Clone)]
pub struct Instrument {
    pub symbol: String,
    pub instrument_type: String,
    pub underlying: Option<String>,
    pub tick_size: Option<String>,
    pub contract_size: Option<String>,
    pub tradeable: bool,
    pub margin_levels: Option<Vec<MarginLevel>>,
    pub max_position_size: Option<String>,
    pub opening_date: Option<String>,
    pub funding_rate_coefficient: Option<String>,
    pub max_relative_funding_rate: Option<String>,
}

/// A margin level of an instrument.
#[derive(Debug, Clone)]
pub struct MarginLevel {
    pub contracts: i64,
    pub initial_margin: String,
    pub maintenance_margin: String,
}

/// The fills response.
#[derive(Debug, Clone)]
pub struct Fills {
    pub fills: Vec<Fill>,
}

/// A fill.
#[derive(Debug, Clone)]
pub struct Fill {
    pub fill_id: String,
    pub symbol: String,
    pub side: String,
    pub order_id: String,
    pub size: String,
    pub price: String,
    pub fill_time: String,
    pub fill_type: String,
    pub fee_paid: Option<String>,
    pub fee_currency: Option<String>,
}

/// A new-order request.
#[derive(Debug, Clone)]
pub struct NewOrderRequest {
    pub order_type: String,
    pub symbol: String,
    pub side: String,
    pub size: String,
    pub limit_price: Option<String>,
    pub stop_price: Option<String>,
    pub reduce_only: Option<bool>,
    pub cli_ord_id: Option<String>,
    pub trigger_signal: Option<String>,
}

/// Order types of the API.
#[derive(Debug, Clone, Copy, PartialEq, Eq, Structural)]
pub enum KrakenOrderType {
    Limit,
    Market,
    Stop,
    TakeProfit,
    Ioc,
}

/// Order sides of the API.
#[derive(Debug, Clone, Copy, PartialEq, Eq, Structural)]
pub enum KrakenSide {
    Buy,
    Sell,
}

/// Candle intervals of the API.
#[derive(Debug, Clone, Copy, PartialEq, Eq, Structural)]
pub enum CandleInterval {
    M1,
    M5,
    M15,
    M30,
    H1,
    H4,
    H12,
    D1,
    W1,
}

/// Statistics of a trade history (P&L per symbol as pairs).
#[derive(Debug, Clone)]
pub struct KrakenTradeStats {
    pub total_trades: u64,
    pub total_pnl: Dec,
    pub total_fees: Dec,
    pub winning_trades: u64,
    pub losing_trades: u64,
    pub pnl_by_symbol: Vec<(String, Dec)>,
}impl<T> KrakenResponse<T> {
    /// The response reports success.
    pub fn is_success(&self) -> (r: bool)
        ensures
            r == (self.result@ == "success"@),
    {
        text_is(self.result.as_str(), "success")
    }
}

impl KrakenError {
    /// "Kraken error: {error}", with "Unknown error" when there is none.
    pub fn to_text(&self) -> (r: String)
        ensures
            r@ == "Kraken error: "@ + match self.error {
                Some(e) => e@,
                None => "Unknown error"@,
            },
    {
        let mut text = String::new();
        text.append("Kraken error: ");
        match &self.error {
            Some(e) => text.append(e.as_str()),
            None => text.append("Unknown error"),
        }
        text
    }
}

impl NewOrderRequest {
    /// A market order for `size` of `symbol` on `side`.
    pub fn market(symbol: &str, side: &str, size: Dec) -> (r: Self)
        ensures
            r.order_type@ == "mkt"@,
            r.symbol@ == symbol@,
            r.side@ == side@,
            r.size@ == decimal_text(size.repr()),
            r.limit_price is None,
            r.stop_price is None,
            r.reduce_only is None,
            r.cli_ord_id is None,
            r.trigger_signal is None,
    {
        NewOrderRequest {
            order_type: "mkt".to_string(),
            symbol: symbol.to_string(),
            side: side.to_string(),
            size: size.to_text(),
            limit_price: None,
            stop_price: None,
            reduce_only: None,
            cli_ord_id: None,
            trigger_signal: None,
        }
    }

    /// A limit order for `size` of `symbol` on `side` at `price`.
    pub fn limit(symbol: &str, side: &str, size: Dec, price: Dec) -> (r: Self)
        ensures
            r.order_type@ == "lmt"@,
            r.symbol@ == symbol@,
            r.side@ == side@,
            r.size@ == decimal_text(size.repr()),
            r.limit_price is Some && r.limit_price.unwrap()@ == decimal_text(price.repr()),
            r.stop_price is None,
            r.reduce_only is None,
            r.cli_ord_id is None,
            r.trigger_signal is None,
    {
        NewOrderRequest {
            order_type: "lmt".to_string(),
            symbol: symbol.to_string(),
            side: side.to_string(),
            size: size.to_text(),
            limit_price: Some(price.to_text()),
            stop_price: None,
            reduce_only: None,
            cli_ord_id: None,
            trigger_signal: None,
        }
    }

    /// The same request, reduce-only as given.
    pub fn with_reduce_only(self, reduce_only: bool) -> (r: Self)
        ensures
            r == (NewOrderRequest { reduce_only: Some(reduce_only), ..self }),
    {
        NewOrderRequest { reduce_only: Some(reduce_only), ..self }
    }

    /// The same request with a client order id.
    pub fn with_client_id(self, client_id: &str) -> (r: Self)
        ensures
            r.cli_ord_id is Some && r.cli_ord_id.unwrap()@ == client_id@,
            r == (NewOrderRequest { cli_ord_id: r.cli_ord_id, ..self }),
    {
        NewOrderRequest { cli_ord_id: Some(client_id.to_string()), ..self }
    }
}

/// The API name of an order type.
pub open spec fn kraken_order_type_name(t: KrakenOrderType) -> Seq<char> {
    match t {
        KrakenOrderType::Limit => "lmt"@,
        KrakenOrderType::Market => "mkt"@,
        KrakenOrderType::Stop => "stp"@,
        KrakenOrderType::TakeProfit => "take_profit"@,
        KrakenOrderType::Ioc => "ioc"@,
    }
}

impl KrakenOrderType {
    /// "lmt", "mkt", "stp", "take_profit" or "ioc".
    pub fn as_api_str(&self) -> (r: &'static str)
        ensures
            r@ == kraken_order_type_name(*self),
    {
        match self {
            KrakenOrderType::Limit => "lmt",
            KrakenOrderType::Market => "mkt",
            KrakenOrderType::Stop => "stp",
            KrakenOrderType::TakeProfit => "take_profit",
            KrakenOrderType::Ioc => "ioc",
        }
    }
}

impl KrakenSide {
    /// "buy" or "sell".
    pub fn as_api_str(&self) -> (r: &'static str)
        ensures
            r@ == match *self {
                KrakenSide::Buy => "buy"@,
                KrakenSide::Sell => "sell"@,
            },
    {
        match self {
            KrakenSide::Buy => "buy",
            KrakenSide::Sell => "sell",
        }
    }
}

/// The API name of a candle interval.
pub open spec fn interval_name(i: CandleInterval) -> Seq<char> {
    match i {
        CandleInterval::M1 => "1m"@,
        CandleInterval::M5 => "5m"@,
        CandleInterval::M15 => "15m"@,
        CandleInterval::M30 => "30m"@,
        CandleInterval::H1 => "1h"@,
        CandleInterval::H4 => "4h"@,
        CandleInterval::H12 => "12h"@,
        CandleInterval::D1 => "1d"@,
        CandleInterval::W1 => "1w"@,
    }
}

impl CandleInterval {
    /// "1m", "5m", "15m", "30m", "1h", "4h", "12h", "1d" or "1w".
    pub fn as_api_str(&self) -> (r: &'static str)
        ensures
            r@ == interval_name(*self),
    {
        match self {
            CandleInterval::M1 => "1m",
            CandleInterval::M5 => "5m",
            CandleInterval::M15 => "15m",
            CandleInterval::M30 => "30m",
            CandleInterval::H1 => "1h",
            CandleInterval::H4 => "4h",
            CandleInterval::H12 => "12h",
            CandleInterval::D1 => "1d",
            CandleInterval::W1 => "1w",
        }
    }
}

// ---------------------------------------------------------------------------
// Signing.

/// The SHA-256 digest of some bytes.
pub uninterp spec fn sha256_of(data: Seq<u8>) -> Seq<u8>;

/// The bytes a standard base64 text decodes to, nothing when it is not
/// valid base64.
pub uninterp spec fn base64_decoded(text: Seq<char>) -> Option<Seq<u8>>;

/// The standard base64 text of some bytes.
pub uninterp spec fn base64_text(data: Seq<u8>) -> Seq<char>;

/// The HMAC-SHA-512 tag of a message under a key.
pub uninterp spec fn hmac_sha512_of(key: Seq<u8>, message: Seq<u8>) -> Seq<u8>;

/// The UTF-8 encoding of a character: one byte below 0x80, else a lead
/// byte and six bits per continuation byte.
pub open spec fn char_utf8(c: char) -> Seq<u8> {
    let n = c as int;
    if n < 0x80 {
        seq![n as u8]
    } else if n < 0x800 {
        seq![(0xC0 + n / 64) as u8, (0x80 + n % 64) as u8]
    } else if n < 0x10000 {
        seq![(0xE0 + n / 4096) as u8, (0x80 + (n / 64) % 64) as u8, (0x80 + n % 64) as u8]
    } else {
        seq![
            (0xF0 + n / 262144) as u8,
            (0x80 + (n / 4096) % 64) as u8,
            (0x80 + (n / 64) % 64) as u8,
            (0x80 + n % 64) as u8,
        ]
    }
}

/// The UTF-8 bytes of a text.
pub open spec fn utf8_of(text: Seq<char>) -> Seq<u8>
    decreases text.len(),
{
    if text.len() == 0 {
        Seq::empty()
    } else {
        utf8_of(text.drop_last()) + char_utf8(text.last())
    }
}

/// `str::as_bytes`, copied out: the UTF-8 encoding of the text.
#[verifier::external_body]
pub(crate) fn utf8_bytes(text: &str) -> (r: Vec<u8>)
    ensures
        r@ == utf8_of(text@),
{
    text.as_bytes().to_vec()
}

/// `sha2::Sha256::digest`: a function of the bytes alone.
#[verifier::external_body]
fn sha256(data: &Vec<u8>) -> (r: Vec<u8>)
    ensures
        r@ == sha256_of(data@),
{
    sha2::Sha256::digest(data.as_slice()).to_vec()
}

/// `base64::engine::general_purpose::STANDARD.decode`: the bytes, or
/// nothing when the text is not valid base64.
#[verifier::external_body]
fn base64_decode(text: &str) -> (r: Option<Vec<u8>>)
    ensures
        match r {
            Some(v) => base64_decoded(text@) == Some(v@),
            None => base64_decoded(text@) is None,
        },
{
    base64::engine::general_purpose::STANDARD.decode(text).ok()
}

/// `base64::engine::general_purpose::STANDARD.encode`: padded, so four
/// characters for every three bytes begun.
#[verifier::external_body]
fn base64_encode(data: &Vec<u8>) -> (r: String)
    ensures
        r@ == base64_text(data@),
        r@.len() == 4 * ((data@.len() + 2) / 3),
{
    base64::engine::general_purpose::STANDARD.encode(data.as_slice())
}

/// `hmac::Hmac::<sha2::Sha512>`: keyed with `key` (any length is
/// accepted), fed `message`, finalized: a tag of SHA-512's 64 bytes.
#[verifier::external_body]
fn hmac_sha512(key: &Vec<u8>, message: &Vec<u8>) -> (r: Vec<u8>)
    ensures
        r@ == hmac_sha512_of(key@, message@),
        r@.len() == 64,
{
    let mut mac = <hmac::Hmac<sha2::Sha512> as Mac>::new_from_slice(key.as_slice()).unwrap();
    mac.update(message.as_slice());
    mac.finalize().into_bytes().to_vec()
}

/// The "Authent" signature of a request: base64 of HMAC-SHA-512, keyed by
/// the decoded secret, of SHA-256 of post data, nonce and endpoint path
/// joined.
pub open spec fn authent(secret: Seq<u8>, post_data: Seq<char>, nonce: Seq<char>, path: Seq<char>) -> Seq<char> {
    base64_text(hmac_sha512_of(secret, sha256_of(utf8_of(post_data + nonce + path))))
}

/// Signs a request; the secret must be valid base64.  The signature is 88
/// characters long.
pub fn sign(api_secret: &str, post_data: &str, nonce: &str, endpoint_path: &str) -> (r: String)
    requires
        base64_decoded(api_secret@) is Some,
    ensures
        r@ == authent(base64_decoded(api_secret@).unwrap(), post_data@, nonce@, endpoint_path@),
        r@.len() == 88,
{
    let mut joined = String::new();
    joined.append(post_data);
    joined.append(nonce);
    joined.append(endpoint_path);
    let digest = sha256(&utf8_bytes(joined.as_str()));
    let secret = match base64_decode(api_secret) {
        Some(s) => s,
        None => Vec::new(),
    };
    let tag = hmac_sha512(&secret, &digest);
    base64_encode(&tag)
}

/// Signs a request, or nothing when the secret is not valid base64.
pub fn try_sign(api_secret: &str, post_data: &str, nonce: &str, endpoint_path: &str) -> (r: Option<String>)
    ensures
        match base64_decoded(api_secret@) {
            Some(secret) => r is Some && r.unwrap()@ == authent(
                secret,
                post_data@,
                nonce@,
                endpoint_path@,
            ) && r.unwrap()@.len() == 88,
            None => r is None,
        },
{
    match base64_decode(api_secret) {
        Some(_) => Some(sign(api_secret, post_data, nonce, endpoint_path)),
        None => None,
    }
}

// ---------------------------------------------------------------------------
// Stream.

/// State of the stream connection.
#[derive(Debug, Clone, Copy, PartialEq, Eq, Structural)]
pub enum ConnectionState {
    Disconnected,
    Connecting,
    Connected,
    Authenticated,
    Reconnecting,
    Failed,
}

/// Stream settings.
#[derive(Debug, Clone)]
pub struct KrakenWsConfig {
    pub demo: bool,
    pub connect_timeout: Duration,
    pub max_reconnect_attempts: u32,
    pub initial_backoff: Duration,
    pub max_backoff: Duration,
    pub heartbeat_interval: Duration,
}

impl KrakenWsConfig {
    /// Demo, 30 s to connect, 10 reconnect attempts backing off from 1 s
    /// to 60 s, a heartbeat every 30 s.
    pub fn default() -> (r: Self)
        ensures
            r.demo,
            r.connect_timeout == seconds_duration(30),
            r.max_reconnect_attempts == 10,
            r.initial_backoff == seconds_duration(1),
            r.max_backoff == seconds_duration(60),
            r.heartbeat_interval == seconds_duration(30),
    {
        KrakenWsConfig {
            demo: true,
            connect_timeout: duration_from_secs(30),
            max_reconnect_attempts: 10,
            initial_backoff: duration_from_secs(1),
            max_backoff: duration_from_secs(60),
            heartbeat_interval: duration_from_secs(30),
        }
    }
}

/// The stream address: demo or production.
pub fn stream_url(demo: bool) -> (r: &'static str)
    ensures
        r@ == if demo {
            "wss://demo-futures.kraken.com/ws/v1"@
        } else {
            "wss://futures.kraken.com/ws/v1"@
        },
{
    if demo {
        "wss://demo-futures.kraken.com/ws/v1"
    } else {
        "wss://futures.kraken.com/ws/v1"
    }
}

/// An event of the stream.
#[derive(Debug, Clone)]
pub enum KrakenWsEvent {
    ChallengeReceived,
    Subscribed { feed: String },
    Fills(Vec<KrakenFillEvent>),
    Orders(Vec<KrakenOrderEvent>),
    Positions(Vec<KrakenPositionEvent>),
    Balances(Vec<KrakenBalanceEvent>),
    AccountLog(Vec<KrakenAccountLogEntry>),
    Disconnected { reason: String },
    Error { message: String },
}

#[derive(Debug, Clone)]
pub struct KrakenFillEvent {
    pub fill_id: String,
    pub symbol: String,
    pub side: String,
    pub price: Dec,
    pub size: Dec,
    pub order_id: String,
    pub fill_type: String,
    pub fill_time: i64,
}

#[derive(Debug, Clone)]
pub struct KrakenOrderEvent {
    pub order_id: String,
    pub symbol: String,
    pub side: String,
    pub order_type: String,
    pub quantity: Dec,
    pub filled_quantity: Dec,
    pub limit_price: Option<Dec>,
    pub stop_price: Option<Dec>,
    pub status: String,
    pub timestamp: i64,
}

#[derive(Debug, Clone)]
pub struct KrakenPositionEvent {
    pub symbol: String,
    pub side: String,
    pub size: Dec,
    pub entry_price: Dec,
    pub unrealized_pnl: Dec,
    pub realized_pnl: Dec,
    pub liquidation_threshold: Option<Dec>,
}

#[derive(Debug, Clone)]
pub struct KrakenBalanceEvent {
    pub currency: String,
    pub quantity: Dec,
    pub available: Dec,
}

#[derive(Debug, Clone)]
pub struct KrakenAccountLogEntry {
    pub id: String,
    pub log_type: String,
    pub asset: String,
    pub amount: Dec,
    pub balance: Dec,
    pub timestamp: i64,
}

/// What a stream message asks for: a challenge to answer, an event, or
/// nothing.
#[derive(Debug, Clone)]
pub enum KrakenWsMessage {
    Challenge(String),
    Event(KrakenWsEvent),
    Nothing,
}

/// The text member `key` of `v`.
pub open spec fn text_member(v: JsonValue, key: Seq<char>) -> Option<Seq<char>> {
    text_of(match member(v, key) {
        Some(x) => Some(&x),
        None => None,
    })
}

/// The integer member `key` of `v`.
pub open spec fn int_member(v: JsonValue, key: Seq<char>) -> Option<i64> {
    int_of(match member(v, key) {
        Some(x) => Some(&x),
        None => None,
    })
}

/// The decimal read from the text member `key`, zero when unreadable.
pub open spec fn dec_member(v: JsonValue, key: Seq<char>) -> (int, nat) {
    decimal_or_zero(text_member(v, key).unwrap())
}

/// The decimal of the text member `key`, or `fallback`'s when it has none.
pub open spec fn dec_member_or(v: JsonValue, key: Seq<char>, fallback: Seq<char>) -> (int, nat) {
    match text_member(v, key) {
        Some(s) => decimal_or_zero(s),
        None => decimal_or_zero(fallback),
    }
}

fn text_field(v: &JsonValue, key: &str) -> (r: Option<String>)
    ensures
        match text_member(*v, key@) {
            Some(s) => r is Some && r.unwrap()@ == s,
            None => r is None,
        },
{
    match as_str(get(v, key)) {
        Some(s) => Some(s.to_string()),
        None => None,
    }
}

fn int_field(v: &JsonValue, key: &str) -> (r: Option<i64>)
    ensures
        r == int_member(*v, key@),
{
    as_i64(get(v, key))
}

/// The indices of the items that `ok` keeps, in order.
pub open spec fn kept(items: Seq<JsonValue>, ok: spec_fn(JsonValue) -> bool) -> Seq<int>
    decreases items.len(),
{
    if items.len() == 0 {
        Seq::empty()
    } else if ok(items.last()) {
        kept(items.drop_last(), ok).push(items.len() - 1)
    } else {
        kept(items.drop_last(), ok)
    }
}

pub proof fn lemma_kept_step(items: Seq<JsonValue>, ok: spec_fn(JsonValue) -> bool, i: int)
    requires
        0 <= i < items.len(),
    ensures
        kept(items.take(i + 1), ok) == if ok(items[i]) {
            kept(items.take(i), ok).push(i)
        } else {
            kept(items.take(i), ok)
        },
        forall|k: int|
            0 <= k < kept(items.take(i), ok).len() ==> 0 <= #[trigger] kept(items.take(i), ok)[k]
                < i,
    decreases i,
{
    assert(items.take(i + 1).drop_last() =~= items.take(i));
    assert(items.take(i + 1).last() == items[i]);
    if i > 0 {
        lemma_kept_step(items, ok, i - 1);
    } else {
        assert(items.take(0) =~= Seq::<JsonValue>::empty());
    }
}

/// A fill item has all its fields.
pub open spec fn fill_ok(f: JsonValue) -> bool {
    &&& text_member(f, "fill_id"@) is Some
    &&& text_member(f, "instrument"@) is Some
    &&& text_member(f, "side"@) is Some
    &&& text_member(f, "price"@) is Some
    &&& text_member(f, "size"@) is Some
    &&& text_member(f, "order_id"@) is Some
    &&& text_member(f, "fillType"@) is Some
    &&& int_member(f, "time"@) is Some
}

pub open spec fn fill_read(f: JsonValue, e: KrakenFillEvent) -> bool {
    &&& e.fill_id@ == text_member(f, "fill_id"@).unwrap()
    &&& e.symbol@ == text_member(f, "instrument"@).unwrap()
    &&& e.side@ == text_member(f, "side"@).unwrap()
    &&& e.price.repr() == dec_member(f, "price"@)
    &&& e.size.repr() == dec_member(f, "size"@)
    &&& e.order_id@ == text_member(f, "order_id"@).unwrap()
    &&& e.fill_type@ == text_member(f, "fillType"@).unwrap()
    &&& e.fill_time == int_member(f, "time"@).unwrap()
}

fn read_fill(f: &JsonValue) -> (r: Option<KrakenFillEvent>)
    ensures
        fill_ok(*f) ==> (r is Some && fill_read(*f, r.unwrap())),
        !fill_ok(*f) ==> r is None,
{
    let fill_id = text_field(f, "fill_id")?;
    let symbol = text_field(f, "instrument")?;
    let side = text_field(f, "side")?;
    let price = text_field(f, "price")?;
    let size = text_field(f, "size")?;
    let order_id = text_field(f, "order_id")?;
    let fill_type = text_field(f, "fillType")?;
    let fill_time = int_field(f, "time")?;
    Some(
        KrakenFillEvent {
            fill_id,
            symbol,
            side,
            price: parse_decimal(price.as_str()),
            size: parse_decimal(size.as_str()),
            order_id,
            fill_type,
            fill_time,
        },
    )
}

/// An order item has all its required fields ("qty" and "filled" must be
/// present; when not texts they read as zero).
pub open spec fn order_ok(o: JsonValue) -> bool {
    &&& text_member(o, "order_id"@) is Some
    &&& text_member(o, "instrument"@) is Some
    &&& text_member(o, "side"@) is Some
    &&& text_member(o, "orderType"@) is Some
    &&& member(o, "qty"@) is Some
    &&& member(o, "filled"@) is Some
    &&& text_member(o, "status"@) is Some
    &&& int_member(o, "lastUpdateTimestamp"@) is Some
}

pub open spec fn opt_dec_member(v: JsonValue, key: Seq<char>, d: Option<Dec>) -> bool {
    match text_member(v, key) {
        Some(s) => d is Some && d.unwrap().repr() == decimal_or_zero(s),
        None => d is None,
    }
}

pub open spec fn order_read(o: JsonValue, e: KrakenOrderEvent) -> bool {
    &&& e.order_id@ == text_member(o, "order_id"@).unwrap()
    &&& e.symbol@ == text_member(o, "instrument"@).unwrap()
    &&& e.side@ == text_member(o, "side"@).unwrap()
    &&& e.order_type@ == text_member(o, "orderType"@).unwrap()
    &&& e.quantity.repr() == dec_member_or(o, "qty"@, "0"@)
    &&& e.filled_quantity.repr() == dec_member_or(o, "filled"@, "0"@)
    &&& opt_dec_member(o, "limitPrice"@, e.limit_price)
    &&& opt_dec_member(o, "stopPrice"@, e.stop_price)
    &&& e.status@ == text_member(o, "status"@).unwrap()
    &&& e.timestamp == int_member(o, "lastUpdateTimestamp"@).unwrap()
}

fn decimal_field_or(v: &JsonValue, key: &str, fallback: &str) -> (r: Dec)
    ensures
        r.repr() == dec_member_or(*v, key@, fallback@),
{
    match as_str(get(v, key)) {
        Some(s) => parse_decimal(s),
        None => parse_decimal(fallback),
    }
}

fn optional_decimal_field(v: &JsonValue, key: &str) -> (r: Option<Dec>)
    ensures
        opt_dec_member(*v, key@, r),
{
    match as_str(get(v, key)) {
        Some(s) => Some(parse_decimal(s)),
        None => None,
    }
}

fn read_order_event(o: &JsonValue) -> (r: Option<KrakenOrderEvent>)
    ensures
        order_ok(*o) ==> (r is Some && order_read(*o, r.unwrap())),
        !order_ok(*o) ==> r is None,
{
    let order_id = text_field(o, "order_id")?;
    let symbol = text_field(o, "instrument")?;
    let side = text_field(o, "side")?;
    let order_type = text_field(o, "orderType")?;
    get(o, "qty")?;
    let quantity = decimal_field_or(o, "qty", "0");
    get(o, "filled")?;
    let filled_quantity = decimal_field_or(o, "filled", "0");
    let limit_price = optional_decimal_field(o, "limitPrice");
    let stop_price = optional_decimal_field(o, "stopPrice");
    let status = text_field(o, "status")?;
    let timestamp = int_field(o, "lastUpdateTimestamp")?;
    Some(
        KrakenOrderEvent {
            order_id,
            symbol,
            side,
            order_type,
            quantity,
            filled_quantity,
            limit_price,
            stop_price,
            status,
            timestamp,
        },
    )
}

pub open spec fn position_ok(p: JsonValue) -> bool {
    &&& text_member(p, "instrument"@) is Some
    &&& text_member(p, "side"@) is Some
    &&& text_member(p, "size"@) is Some
    &&& text_member(p, "price"@) is Some
}

pub open spec fn position_read(p: JsonValue, e: KrakenPositionEvent) -> bool {
    &&& e.symbol@ == text_member(p, "instrument"@).unwrap()
    &&& e.side@ == text_member(p, "side"@).unwrap()
    &&& e.size.repr() == dec_member(p, "size"@)
    &&& e.entry_price.repr() == dec_member(p, "price"@)
    &&& e.unrealized_pnl.repr() == dec_member_or(p, "unrealizedPnl"@, "0"@)
    &&& e.realized_pnl.repr() == dec_member_or(p, "realizedPnl"@, "0"@)
    &&& opt_dec_member(p, "liquidationThreshold"@, e.liquidation_threshold)
}

fn read_position_event(p: &JsonValue) -> (r: Option<KrakenPositionEvent>)
    ensures
        position_ok(*p) ==> (r is Some && position_read(*p, r.unwrap())),
        !position_ok(*p) ==> r is None,
{
    let symbol = text_field(p, "instrument")?;
    let side = text_field(p, "side")?;
    let size = text_field(p, "size")?;
    let price = text_field(p, "price")?;
    Some(
        KrakenPositionEvent {
            symbol,
            side,
            size: parse_decimal(size.as_str()),
            entry_price: parse_decimal(price.as_str()),
            unrealized_pnl: decimal_field_or(p, "unrealizedPnl", "0"),
            realized_pnl: decimal_field_or(p, "realizedPnl", "0"),
            liquidation_threshold: optional_decimal_field(p, "liquidationThreshold"),
        },
    )
}

pub open spec fn log_ok(l: JsonValue) -> bool {
    &&& text_member(l, "id"@) is Some
    &&& text_member(l, "info"@) is Some
    &&& text_member(l, "asset"@) is Some
    &&& text_member(l, "amount"@) is Some
}

pub open spec fn log_read(l: JsonValue, e: KrakenAccountLogEntry) -> bool {
    &&& e.id@ == text_member(l, "id"@).unwrap()
    &&& e.log_type@ == text_member(l, "info"@).unwrap()
    &&& e.asset@ == text_member(l, "asset"@).unwrap()
    &&& e.amount.repr() == dec_member(l, "amount"@)
    &&& e.balance.repr() == dec_member_or(l, "new_balance"@, "0"@)
    &&& e.timestamp == match int_member(l, "booking_uid"@) {
        Some(t) => t,
        None => 0,
    }
}

fn read_log_entry(l: &JsonValue) -> (r: Option<KrakenAccountLogEntry>)
    ensures
        log_ok(*l) ==> (r is Some && log_read(*l, r.unwrap())),
        !log_ok(*l) ==> r is None,
{
    let id = text_field(l, "id")?;
    let log_type = text_field(l, "info")?;
    let asset = text_field(l, "asset")?;
    let amount = text_field(l, "amount")?;
    Some(
        KrakenAccountLogEntry {
            id,
            log_type,
            asset,
            amount: parse_decimal(amount.as_str()),
            balance: decimal_field_or(l, "new_balance", "0"),
            timestamp: match int_field(l, "booking_uid") {
                Some(t) => t,
                None => 0,
            },
        },
    )
}

/// The array member `key` of `v`.
pub open spec fn array_member(v: JsonValue, key: Seq<char>) -> Option<Seq<JsonValue>> {
    match member(v, key) {
        Some(JsonValue::Array(items)) => Some(items@),
        _ => None,
    }
}

fn array_field<'a>(v: &'a JsonValue, key: &str) -> (r: Option<&'a Vec<JsonValue>>)
    ensures
        match array_member(*v, key@) {
            Some(items) => r is Some && r.unwrap()@ == items,
            None => r is None,
        },
{
    match get(v, key) {
        Some(JsonValue::Array(items)) => Some(items),
        _ => None,
    }
}

/// What decoding the fills of a message gives.
pub open spec fn fills_decoded(value: JsonValue, r: Option<KrakenWsEvent>) -> bool {
    match array_member(value, "fills"@) {
        Some(items) => {
            let ks = kept(items, |f: JsonValue| fill_ok(f));
            if ks.len() == 0 {
                r is None
            } else {
                r matches Some(KrakenWsEvent::Fills(es)) && es@.len() == ks.len() && forall|
                    k: int,
                | 0 <= k < ks.len() ==> fill_read(items[ks[k]], #[trigger] es@[k])
            }
        },
        None => r is None,
    }
}

/// The fills of a "fills" message: those items with all their fields, in
/// order; nothing when there is no array or none qualifies.
pub fn parse_fills(value: &JsonValue) -> (r: Option<KrakenWsEvent>)
    ensures
        fills_decoded(*value, r),
{
    let items = array_field(value, "fills")?;
    let ghost ok = |f: JsonValue| fill_ok(f);
    let mut out: Vec<KrakenFillEvent> = Vec::new();
    let mut i: usize = 0;
    assert(items@.take(0) =~= Seq::<JsonValue>::empty());
    while i < items.len()
        invariant
            i <= items@.len(),
            ok == (|f: JsonValue| fill_ok(f)),
            out@.len() == kept(items@.take(i as int), ok).len(),
            forall|k: int|
                0 <= k < out@.len() ==> fill_read(
                    items@[kept(items@.take(i as int), ok)[k]],
                    #[trigger] out@[k],
                ),
        decreases items@.len() - i,
    {
        proof {
            lemma_kept_step(items@, ok, i as int);
        }
        match read_fill(&items[i]) {
            Some(e) => {
                out.push(e);
            },
            None => {},
        }
        i += 1;
    }
    assert(items@.take(items@.len() as int) =~= items@);
    if out.len() == 0 {
        None
    } else {
        Some(KrakenWsEvent::Fills(out))
    }
}

/// What decoding the orders of a message gives.
pub open spec fn orders_decoded(value: JsonValue, r: Option<KrakenWsEvent>) -> bool {
    match array_member(value, "orders"@) {
        Some(items) => {
            let ks = kept(items, |o: JsonValue| order_ok(o));
            if ks.len() == 0 {
                r is None
            } else {
                r matches Some(KrakenWsEvent::Orders(es)) && es@.len() == ks.len() && forall|
                    k: int,
                | 0 <= k < ks.len() ==> order_read(items[ks[k]], #[trigger] es@[k])
            }
        },
        None => r is None,
    }
}

/// The orders of an "open_orders" message.
pub fn parse_orders(value: &JsonValue) -> (r: Option<KrakenWsEvent>)
    ensures
        orders_decoded(*value, r),
{
    let items = array_field(value, "orders")?;
    let ghost ok = |o: JsonValue| order_ok(o);
    let mut out: Vec<KrakenOrderEvent> = Vec::new();
    let mut i: usize = 0;
    assert(items@.take(0) =~= Seq::<JsonValue>::empty());
    while i < items.len()
        invariant
            i <= items@.len(),
            ok == (|o: JsonValue| order_ok(o)),
            out@.len() == kept(items@.take(i as int), ok).len(),
            forall|k: int|
                0 <= k < out@.len() ==> order_read(
                    items@[kept(items@.take(i as int), ok)[k]],
                    #[trigger] out@[k],
                ),
        decreases items@.len() - i,
    {
        proof {
            lemma_kept_step(items@, ok, i as int);
        }
        match read_order_event(&items[i]) {
            Some(e) => {
                out.push(e);
            },
            None => {},
        }
        i += 1;
    }
    assert(items@.take(items@.len() as int) =~= items@);
    if out.len() == 0 {
        None
    } else {
        Some(KrakenWsEvent::Orders(out))
    }
}

/// What decoding the positions of a message gives.
pub open spec fn positions_decoded(value: JsonValue, r: Option<KrakenWsEvent>) -> bool {
    match array_member(value, "positions"@) {
        Some(items) => {
            let ks = kept(items, |p: JsonValue| position_ok(p));
            if ks.len() == 0 {
                r is None
            } else {
                r matches Some(KrakenWsEvent::Positions(es)) && es@.len() == ks.len()
                    && forall|k: int|
                    0 <= k < ks.len() ==> position_read(items[ks[k]], #[trigger] es@[k])
            }
        },
        None => r is None,
    }
}

/// The positions of an "open_positions" message.
pub fn parse_positions(value: &JsonValue) -> (r: Option<KrakenWsEvent>)
    ensures
        positions_decoded(*value, r),
{
    let items = array_field(value, "positions")?;
    let ghost ok = |p: JsonValue| position_ok(p);
    let mut out: Vec<KrakenPositionEvent> = Vec::new();
    let mut i: usize = 0;
    assert(items@.take(0) =~= Seq::<JsonValue>::empty());
    while i < items.len()
        invariant
            i <= items@.len(),
            ok == (|p: JsonValue| position_ok(p)),
            out@.len() == kept(items@.take(i as int), ok).len(),
            forall|k: int|
                0 <= k < out@.len() ==> position_read(
                    items@[kept(items@.take(i as int), ok)[k]],
                    #[trigger] out@[k],
                ),
        decreases items@.len() - i,
    {
        proof {
            lemma_kept_step(items@, ok, i as int);
        }
        match read_position_event(&items[i]) {
            Some(e) => {
                out.push(e);
            },
            None => {},
        }
        i += 1;
    }
    assert(items@.take(items@.len() as int) =~= items@);
    if out.len() == 0 {
        None
    } else {
        Some(KrakenWsEvent::Positions(out))
    }
}

/// What decoding the logs of a message gives.
pub open spec fn log_decoded(value: JsonValue, r: Option<KrakenWsEvent>) -> bool {
    match array_member(value, "logs"@) {
        Some(items) => {
            let ks = kept(items, |l: JsonValue| log_ok(l));
            if ks.len() == 0 {
                r is None
            } else {
                r matches Some(KrakenWsEvent::AccountLog(es)) && es@.len() == ks.len()
                    && forall|k: int|
                    0 <= k < ks.len() ==> log_read(items[ks[k]], #[trigger] es@[k])
            }
        },
        None => r is None,
    }
}

/// The entries of an "account_log" message.
pub fn parse_account_log(value: &JsonValue) -> (r: Option<KrakenWsEvent>)
    ensures
        log_decoded(*value, r),
{
    let items = array_field(value, "logs")?;
    let ghost ok = |l: JsonValue| log_ok(l);
    let mut out: Vec<KrakenAccountLogEntry> = Vec::new();
    let mut i: usize = 0;
    assert(items@.take(0) =~= Seq::<JsonValue>::empty());
    while i < items.len()
        invariant
            i <= items@.len(),
            ok == (|l: JsonValue| log_ok(l)),
            out@.len() == kept(items@.take(i as int), ok).len(),
            forall|k: int|
                0 <= k < out@.len() ==> log_read(
                    items@[kept(items@.take(i as int), ok)[k]],
                    #[trigger] out@[k],
                ),
        decreases items@.len() - i,
    {
        proof {
            lemma_kept_step(items@, ok, i as int);
        }
        match read_log_entry(&items[i]) {
            Some(e) => {
                out.push(e);
            },
            None => {},
        }
        i += 1;
    }
    assert(items@.take(items@.len() as int) =~= items@);
    if out.len() == 0 {
        None
    } else {
        Some(KrakenWsEvent::AccountLog(out))
    }
}

/// The members of the currencies object of a "balances" message.
pub open spec fn currency_members(value: JsonValue) -> Option<Seq<(String, JsonValue)>> {
    match member(value, "flex_futures"@) {
        Some(flex) => match member(flex, "currencies"@) {
            Some(JsonValue::Object(ms)) => Some(ms@),
            _ => Some(Seq::empty()),
        },
        None => None,
    }
}

/// The members whose value is an object.
pub open spec fn object_members(ms: Seq<(String, JsonValue)>) -> Seq<int>
    decreases ms.len(),
{
    if ms.len() == 0 {
        Seq::empty()
    } else if ms.last().1 is Object {
        object_members(ms.drop_last()).push(ms.len() - 1)
    } else {
        object_members(ms.drop_last())
    }
}

pub open spec fn balance_read(m: (String, JsonValue), e: KrakenBalanceEvent) -> bool {
    &&& e.currency == m.0
    &&& e.quantity.repr() == match text_member(m.1, "quantity"@) {
        Some(s) => decimal_or_zero(s),
        None => (0int, 0nat),
    }
    &&& e.available.repr() == match text_member(m.1, "available"@) {
        Some(s) => decimal_or_zero(s),
        None => (0int, 0nat),
    }
}

fn decimal_field_or_zero(v: &JsonValue, key: &str) -> (r: Dec)
    ensures
        r.repr() == match text_member(*v, key@) {
            Some(s) => decimal_or_zero(s),
            None => (0int, 0nat),
        },
{
    match as_str(get(v, key)) {
        Some(s) => parse_decimal(s),
        None => Dec::zero(),
    }
}

/// What decoding the balances of a message gives.
pub open spec fn balances_decoded(value: JsonValue, r: Option<KrakenWsEvent>) -> bool {
    match currency_members(value) {
        Some(ms) => {
            let ks = object_members(ms);
            if ks.len() == 0 {
                r is None
            } else {
                r matches Some(KrakenWsEvent::Balances(es)) && es@.len() == ks.len()
                    && forall|k: int|
                    0 <= k < ks.len() ==> balance_read(ms[ks[k]], #[trigger] es@[k])
            }
        },
        None => r is None,
    }
}

/// The balances of a "balances" message: one per currency whose data is
/// an object, in the order the members come; nothing when there is no
/// "flex_futures" member or no such currency.
pub fn parse_balances(value: &JsonValue) -> (r: Option<KrakenWsEvent>)
    ensures
        balances_decoded(*value, r),
{
    let flex = get(value, "flex_futures")?;
    let mut out: Vec<KrakenBalanceEvent> = Vec::new();
    match get(flex, "currencies") {
        Some(JsonValue::Object(ms)) => {
            let mut i: usize = 0;
            assert(ms@.take(0) =~= Seq::<(String, JsonValue)>::empty());
            while i < ms.len()
                invariant
                    i <= ms@.len(),
                    out@.len() == object_members(ms@.take(i as int)).len(),
                    forall|k: int|
                        0 <= k < object_members(ms@.take(i as int)).len() ==> 0
                            <= #[trigger] object_members(ms@.take(i as int))[k] < i,
                    forall|k: int|
                        0 <= k < out@.len() ==> balance_read(
                            ms@[object_members(ms@.take(i as int))[k]],
                            #[trigger] out@[k],
                        ),
                decreases ms@.len() - i,
            {
                assert(ms@.take(i as int + 1).drop_last() =~= ms@.take(i as int));
                assert(ms@.take(i as int + 1).last() == ms@[i as int]);
                let data = &ms[i].1;
                match data {
                    JsonValue::Object(_) => {
                        out.push(
                            KrakenBalanceEvent {
                                currency: ms[i].0.clone(),
                                quantity: decimal_field_or_zero(data, "quantity"),
                                available: decimal_field_or_zero(data, "available"),
                            },
                        );
                    },
                    _ => {},
                }
                i += 1;
            }
            assert(ms@.take(ms@.len() as int) =~= ms@);
        },
        _ => {},
    }
    if out.len() == 0 {
        None
    } else {
        Some(KrakenWsEvent::Balances(out))
    }
}

/// An outcome of decoding: the event, or nothing.
pub open spec fn outcome(r: KrakenWsMessage, d: Option<KrakenWsEvent>) -> bool {
    match d {
        Some(ev) => r == KrakenWsMessage::Event(ev),
        None => r is Nothing,
    }
}

/// What a message's feed decodes to: fills, orders (also their
/// snapshot), positions, balances and the account log (also its
/// snapshot); any other feed, or none, gives nothing.
pub open spec fn feed_decoded(value: JsonValue, r: KrakenWsMessage) -> bool {
    match text_member(value, "feed"@) {
        Some(f) => if f == "fills"@ {
            exists|d: Option<KrakenWsEvent>| #[trigger] fills_decoded(value, d) && outcome(r, d)
        } else if f == "open_orders"@ || f == "open_orders_snapshot"@ {
            exists|d: Option<KrakenWsEvent>| #[trigger] orders_decoded(value, d) && outcome(r, d)
        } else if f == "open_positions"@ {
            exists|d: Option<KrakenWsEvent>| #[trigger] positions_decoded(value, d) && outcome(r, d)
        } else if f == "balances"@ {
            exists|d: Option<KrakenWsEvent>| #[trigger] balances_decoded(value, d) && outcome(r, d)
        } else if f == "account_log"@ || f == "account_log_snapshot"@ {
            exists|d: Option<KrakenWsEvent>| #[trigger] log_decoded(value, d) && outcome(r, d)
        } else {
            r is Nothing
        },
        None => r is Nothing,
    }
}

/// A heartbeat is due once the time since the last one, in milliseconds,
/// has reached the heartbeat interval.
pub fn needs_heartbeat(elapsed_ms: u128, interval_ms: u128) -> (r: bool)
    ensures
        r == (elapsed_ms >= interval_ms),
{
    elapsed_ms >= interval_ms
}

/// Decodes a stream message from its text.
pub fn parse_message(text: &str) -> (r: KrakenWsMessage)
    ensures
        match json_parse(text@) {
            None => r is Nothing,
            Some(value) => {
                let event = text_member(value, "event"@);
                if event == Some("challenge"@) && text_member(value, "message"@) is Some {
                    r matches KrakenWsMessage::Challenge(c) && c@ == text_member(
                        value,
                        "message"@,
                    ).unwrap()
                } else if event == Some("subscribed"@) {
                    r matches KrakenWsMessage::Event(KrakenWsEvent::Subscribed { feed: f }) && f@
                        == match text_member(value, "feed"@) {
                        Some(x) => x,
                        None => "unknown"@,
                    }
                } else if event == Some("error"@) {
                    r matches KrakenWsMessage::Event(KrakenWsEvent::Error { message }) && message@
                        == match text_member(value, "message"@) {
                        Some(x) => x,
                        None => "Unknown error"@,
                    }
                } else if event == Some("pong"@) {
                    r is Nothing
                } else {
                    feed_decoded(value, r)
                }
            },
        },
{
    let value = match parse_json(text) {
        Some(v) => v,
        None => {
            return KrakenWsMessage::Nothing;
        },
    };
    proof {
        reveal_strlit("challenge");
        reveal_strlit("subscribed");
        reveal_strlit("error");
        reveal_strlit("pong");
        assert("subscribed"@.len() == 10);
        assert("challenge"@.len() == 9);
        assert("error"@.len() == 5);
        assert("pong"@.len() == 4);
        assert("challenge"@ != "subscribed"@);
        assert("error"@ != "subscribed"@);
        assert("pong"@ != "subscribed"@);
        assert("challenge"@ != "error"@);
        assert("challenge"@ != "pong"@);
        assert("error"@ != "pong"@);
    }
    match text_field(&value, "event") {
        Some(event) => {
            let e = event.as_str();
            if text_is(e, "challenge") {
                match text_field(&value, "message") {
                    Some(challenge) => {
                        return KrakenWsMessage::Challenge(challenge);
                    },
                    None => {},
                }
            } else if text_is(e, "subscribed") {
                let feed = match text_field(&value, "feed") {
                    Some(f) => f,
                    None => "unknown".to_string(),
                };
                return KrakenWsMessage::Event(KrakenWsEvent::Subscribed { feed });
            } else if text_is(e, "error") {
                let message = match text_field(&value, "message") {
                    Some(m) => m,
                    None => "Unknown error".to_string(),
                };
                return KrakenWsMessage::Event(KrakenWsEvent::Error { message });
            } else if text_is(e, "pong") {
                return KrakenWsMessage::Nothing;
            }
        },
        None => {},
    }
    let decoded = match text_field(&value, "feed") {
        Some(feed) => {
            let f = feed.as_str();
            if text_is(f, "fills") {
                parse_fills(&value)
            } else if text_is(f, "open_orders") || text_is(f, "open_orders_snapshot") {
                parse_orders(&value)
            } else if text_is(f, "open_positions") {
                parse_positions(&value)
            } else if text_is(f, "balances") {
                parse_balances(&value)
            } else if text_is(f, "account_log") || text_is(f, "account_log_snapshot") {
                parse_account_log(&value)
            } else {
                None
            }
        },
        None => None,
    };
    let r = match decoded {
        Some(event) => KrakenWsMessage::Event(event),
        None => KrakenWsMessage::Nothing,
    };
    assert(outcome(r, decoded));
    r
}

// ---------------------------------------------------------------------------
// Client conversions.

/// The exchange a client trades on: the demo environment counts as paper
/// trading.
pub fn exchange_id(is_demo: bool) -> (r: ExchangeId)
    ensures
        r == if is_demo {
            ExchangeId::Paper
        } else {
            ExchangeId::KrakenFutures
        },
{
    if is_demo {
        ExchangeId::Paper
    } else {
        ExchangeId::KrakenFutures
    }
}

/// The API base address: demo or production.
pub fn base_url(is_demo: bool) -> (r: String)
    ensures
        r@ == if is_demo {
            "https://demo-futures.kraken.com"@
        } else {
            "https://futures.kraken.com"@
        },
{
    if is_demo {
        "https://demo-futures.kraken.com".to_string()
    } else {
        "https://futures.kraken.com".to_string()
    }
}

/// The path of an endpoint under the API, as it is signed.
pub fn endpoint_path(endpoint: &str) -> (r: String)
    ensures
        r@ == "/derivatives/api/v3"@ + endpoint@,
{
    let mut path = "/derivatives/api/v3".to_string();
    path.append(endpoint);
    path
}

/// The full address of an endpoint.
pub fn endpoint_url(base_url: &str, endpoint: &str) -> (r: String)
    ensures
        r@ == base_url@ + "/derivatives/api/v3"@ + endpoint@,
{
    let mut url = base_url.to_string();
    url.append("/derivatives/api/v3");
    url.append(endpoint);
    url
}

/// The API order type a domain order type is sent as.
pub open spec fn api_order_type(t: OrderType) -> Seq<char> {
    match t {
        OrderType::Market => "mkt"@,
        OrderType::Limit => "lmt"@,
        OrderType::StopLoss | OrderType::StopLossLimit => "stp"@,
        OrderType::TakeProfit | OrderType::TakeProfitLimit => "take_profit"@,
        OrderType::TrailingStop => "stp"@,
    }
}

/// The new-order request for a domain order request.
pub fn new_order_request(request: &OrderRequest) -> (r: NewOrderRequest)
    ensures
        r.order_type@ == api_order_type(request.order_type),
        r.symbol == request.symbol,
        r.side@ == match request.side {
            OrderSide::Buy => "buy"@,
            OrderSide::Sell => "sell"@,
        },
        r.size@ == decimal_text(request.quantity.repr()),
        match request.price {
            Some(p) => r.limit_price is Some && r.limit_price.unwrap()@ == decimal_text(p.repr()),
            None => r.limit_price is None,
        },
        match request.stop_price {
            Some(p) => r.stop_price is Some && r.stop_price.unwrap()@ == decimal_text(p.repr()),
            None => r.stop_price is None,
        },
        r.reduce_only == Some(request.reduce_only),
        r.cli_ord_id is None,
        r.trigger_signal is None,
{
    NewOrderRequest {
        order_type: match request.order_type {
            OrderType::Market => "mkt".to_string(),
            OrderType::Limit => "lmt".to_string(),
            OrderType::StopLoss | OrderType::StopLossLimit => "stp".to_string(),
            OrderType::TakeProfit | OrderType::TakeProfitLimit => "take_profit".to_string(),
            OrderType::TrailingStop => "stp".to_string(),
        },
        symbol: request.symbol.clone(),
        side: match request.side {
            OrderSide::Buy => "buy".to_string(),
            OrderSide::Sell => "sell".to_string(),
        },
        size: request.quantity.to_text(),
        limit_price: match request.price {
            Some(p) => Some(p.to_text()),
            None => None,
        },
        stop_price: match request.stop_price {
            Some(p) => Some(p.to_text()),
            None => None,
        },
        reduce_only: Some(request.reduce_only),
        cli_ord_id: None,
        trigger_signal: None,
    }
}

/// The message of an error response, "Unknown error" when it has none.
pub open spec fn error_message(error: KrakenError) -> Seq<char> {
    match error.error {
        Some(e) => e@,
        None => "Unknown error"@,
    }
}

/// The domain error for an error response.
pub open spec fn kraken_error_is(error: KrakenError, r: ExchangeError) -> bool {
    let m = error_message(error);
    if has_infix(m, "Insufficient"@) {
        r matches ExchangeError::InsufficientBalance { asset, required, available } && asset@
            == ""@ && required@ == ""@ && available@ == ""@
    } else if has_infix(m, "Invalid"@) && has_infix(m, "quantity"@) {
        r matches ExchangeError::InvalidQuantity { symbol, reason } && symbol@ == ""@ && reason@
            == m
    } else if has_infix(m, "nonceDuplicate"@) || has_infix(m, "nonceBelowThreshold"@) {
        r matches ExchangeError::ApiError { exchange, code, message } && exchange@ == "kraken"@
            && code == -1 && message@ == "Erro de nonce - tente novamente"@
    } else {
        r matches ExchangeError::ApiError { exchange, code, message } && exchange@ == "kraken"@
            && code == 0 && message@ == m
    }
}

/// Maps an error response to a domain error: insufficient balance,
/// invalid quantity, a nonce to retry, else a plain API error.
pub fn map_kraken_error(error: &KrakenError) -> (r: ExchangeError)
    ensures
        kraken_error_is(*error, r),
{
    let m: &str = match &error.error {
        Some(e) => e.as_str(),
        None => "Unknown error",
    };
    if contains_text(m, "Insufficient") {
        ExchangeError::InsufficientBalance {
            asset: "".to_string(),
            required: "".to_string(),
            available: "".to_string(),
        }
    } else if contains_text(m, "Invalid") && contains_text(m, "quantity") {
        ExchangeError::InvalidQuantity { symbol: "".to_string(), reason: m.to_string() }
    } else if contains_text(m, "nonceDuplicate") || contains_text(m, "nonceBelowThreshold") {
        ExchangeError::ApiError {
            exchange: "kraken".to_string(),
            code: -1,
            message: "Erro de nonce - tente novamente".to_string(),
        }
    } else {
        ExchangeError::ApiError { exchange: "kraken".to_string(), code: 0, message: m.to_string() }
    }
}

/// The domain candle for an exchange candle: unreadable numbers count as
/// zero, and its time (or now, when chrono cannot hold it) opens and
/// closes it.
pub fn convert_candle(kc: &KrakenCandle) -> (r: Candle)
    ensures
        r.open.repr() == decimal_or_zero(kc.open@),
        r.high.repr() == decimal_or_zero(kc.high@),
        r.low.repr() == decimal_or_zero(kc.low@),
        r.close.repr() == decimal_or_zero(kc.close@),
        r.volume.repr() == decimal_or_zero(kc.volume@),
        r.quote_volume is None,
        r.trade_count is None,
        chrono_millis_in_range(kc.time) ==> r.open_time == kc.time && r.close_time == kc.time,
{
    Candle {
        open: parse_decimal(kc.open.as_str()),
        high: parse_decimal(kc.high.as_str()),
        low: parse_decimal(kc.low.as_str()),
        close: parse_decimal(kc.close.as_str()),
        volume: parse_decimal(kc.volume.as_str()),
        quote_volume: None,
        trade_count: None,
        open_time: timestamp_to_datetime(kc.time),
        close_time: timestamp_to_datetime(kc.time),
    }
}

/// The decimal an optional text holds, when it holds a readable one.
pub open spec fn optional_decimal(s: Option<String>) -> Option<(int, nat)> {
    match s {
        Some(t) => decimal_from_text(t@),
        None => None,
    }
}

fn read_optional_decimal(s: &Option<String>) -> (r: Option<Dec>)
    ensures
        match optional_decimal(*s) {
            Some(d) => r is Some && r.unwrap().repr() == d,
            None => r is None,
        },
{
    match s {
        Some(t) => Dec::parse(t.as_str()),
        None => None,
    }
}

/// The domain status an API order status names (unknown ones pending).
pub open spec fn kraken_status_of(s: Seq<char>) -> OrderStatus {
    if s == "untouched"@ {
        OrderStatus::Submitted
    } else if s == "partiallyFilled"@ {
        OrderStatus::PartiallyFilled
    } else if s == "filled"@ {
        OrderStatus::Filled
    } else if s == "cancelled"@ {
        OrderStatus::Cancelled
    } else {
        OrderStatus::Pending
    }
}

/// The domain type an API order type names (unknown ones, and "ioc",
/// market).
pub open spec fn kraken_type_of(s: Seq<char>) -> OrderType {
    if s == "lmt"@ {
        OrderType::Limit
    } else if s == "stp"@ {
        OrderType::StopLoss
    } else if s == "take_profit"@ {
        OrderType::TakeProfit
    } else {
        OrderType::Market
    }
}

/// The domain order for an open order, with a fresh id, stamped now.
pub fn convert_kraken_order(ko: &KrakenOrder, exchange: ExchangeId) -> (r: Order)
    ensures
        r.client_order_id@ == match ko.cli_ord_id {
            Some(c) => c@,
            None => ""@,
        },
        r.exchange_order_id == Some(ko.order_id),
        r.exchange == exchange,
        r.symbol == ko.symbol,
        r.side == if ko.side@ == "buy"@ {
            OrderSide::Buy
        } else {
            OrderSide::Sell
        },
        r.order_type == kraken_type_of(ko.order_type@),
        r.quantity.repr() == decimal_or_zero(ko.quantity@),
        match optional_decimal(ko.limit_price) {
            Some(d) => r.price is Some && r.price.unwrap().repr() == d,
            None => r.price is None,
        },
        match optional_decimal(ko.stop_price) {
            Some(d) => r.stop_price is Some && r.stop_price.unwrap().repr() == d,
            None => r.stop_price is None,
        },
        r.stop_loss is None,
        r.take_profit is None,
        r.time_in_force == TimeInForce::GTC,
        r.status == kraken_status_of(ko.status@),
        r.filled_quantity.repr() == decimal_or_zero(ko.filled@),
        r.average_fill_price is None,
        r.source matches OrderSource::Manual { nota } && nota is None,
        r.error_message is None,
        r.submitted_at == Some(r.created_at),
        r.filled_at is None,
        r.updated_at == r.created_at,
{
    let st = ko.status.as_str();
    let status = if text_is(st, "untouched") {
        OrderStatus::Submitted
    } else if text_is(st, "partiallyFilled") {
        OrderStatus::PartiallyFilled
    } else if text_is(st, "filled") {
        OrderStatus::Filled
    } else if text_is(st, "cancelled") {
        OrderStatus::Cancelled
    } else {
        OrderStatus::Pending
    };
    let side = if text_is(ko.side.as_str(), "buy") {
        OrderSide::Buy
    } else {
        OrderSide::Sell
    };
    let t = ko.order_type.as_str();
    let order_type = if text_is(t, "lmt") {
        OrderType::Limit
    } else if text_is(t, "stp") {
        OrderType::StopLoss
    } else if text_is(t, "take_profit") {
        OrderType::TakeProfit
    } else {
        OrderType::Market
    };
    let now = now_millis();
    Order {
        id: new_id(),
        client_order_id: match &ko.cli_ord_id {
            Some(c) => c.clone(),
            None => {
                proof {
                    reveal_strlit("");
                }
                String::new()
            },
        },
        exchange_order_id: Some(ko.order_id.clone()),
        exchange,
        symbol: ko.symbol.clone(),
        side,
        order_type,
        quantity: parse_decimal(ko.quantity.as_str()),
        price: read_optional_decimal(&ko.limit_price),
        stop_price: read_optional_decimal(&ko.stop_price),
        stop_loss: None,
        take_profit: None,
        time_in_force: TimeInForce::GTC,
        status,
        filled_quantity: parse_decimal(ko.filled.as_str()),
        average_fill_price: None,
        source: OrderSource::Manual { nota: None },
        error_message: None,
        created_at: now,
        submitted_at: Some(now),
        filled_at: None,
        updated_at: now,
    }
}

/// The domain position for an open position, with fresh ids, stamped now:
/// long when the side is "long", else short; the quantity is the size's
/// magnitude; the P&L is zero when missing or unreadable.
pub fn convert_kraken_position(kp: &KrakenPosition, exchange: ExchangeId) -> (r: Position)
    ensures
        r.exchange == exchange,
        r.symbol == kp.symbol,
        r.side == if kp.side@ == "long"@ {
            PositionSide::Long
        } else {
            PositionSide::Short
        },
        r.quantity.repr() == rabs(decimal_or_zero(kp.size@)),
        r.entry_price.repr() == decimal_or_zero(kp.price@),
        r.current_price.repr() == decimal_or_zero(kp.price@),
        r.leverage == 1,
        r.margin.v() == 0,
        r.unrealized_pnl.repr() == match optional_decimal(kp.pnl) {
            Some(d) => d,
            None => (0int, 0nat),
        },
        r.unrealized_pnl_pct.v() == 0,
        r.realized_pnl.v() == 0,
        r.stop_loss_order_id is None,
        r.stop_loss_price is None,
        r.take_profit_order_id is None,
        r.take_profit_price is None,
        r.status == PositionStatus::Open,
        r.liquidation_price is None,
        r.closed_at is None,
        r.updated_at == r.opened_at,
{
    let side = if text_is(kp.side.as_str(), "long") {
        PositionSide::Long
    } else {
        PositionSide::Short
    };
    let size = parse_decimal(kp.size.as_str());
    let entry = parse_decimal(kp.price.as_str());
    let pnl = match read_optional_decimal(&kp.pnl) {
        Some(p) => p,
        None => Dec::zero(),
    };
    let now = now_millis();
    Position {
        id: new_id(),
        exchange,
        symbol: kp.symbol.clone(),
        side,
        quantity: size.abs(),
        entry_price: entry,
        current_price: entry,
        leverage: 1,
        margin: Dec::zero(),
        unrealized_pnl: pnl,
        unrealized_pnl_pct: Dec::zero(),
        realized_pnl: Dec::zero(),
        stop_loss_order_id: None,
        stop_loss_price: None,
        take_profit_order_id: None,
        take_profit_price: None,
        entry_order_id: new_id(),
        status: PositionStatus::Open,
        liquidation_price: None,
        opened_at: now,
        closed_at: None,
        updated_at: now,
    }
}

// ---------------------------------------------------------------------------
// Balances of an account.

/// An optional amount text read as a decimal, zero when missing or
/// unreadable.
pub open spec fn amount_or_zero(s: Option<String>) -> (int, nat) {
    match s {
        Some(t) => decimal_or_zero(t@),
        None => (0int, 0nat),
    }
}

/// A flex currency with a positive quantity counts; what is not available
/// of it is locked.
pub open spec fn flex_balances(cs: Seq<(String, FlexCurrency)>) -> Seq<(Seq<char>, (int, nat), (int, nat))>
    decreases cs.len(),
{
    if cs.len() == 0 {
        Seq::empty()
    } else {
        let before = flex_balances(cs.drop_last());
        let c = cs.last();
        let q = amount_or_zero(c.1.quantity);
        let a = amount_or_zero(c.1.available);
        if q.0 > 0 {
            before.push((c.0@, a, decimal_checked_difference(q, a).unwrap()))
        } else {
            before
        }
    }
}

/// No flex currency that counts overflows when its locked amount is
/// computed.
pub open spec fn flex_fits(cs: Seq<(String, FlexCurrency)>) -> bool {
    forall|i: int|
        0 <= i < cs.len() && amount_or_zero(#[trigger] cs[i].1.quantity).0 > 0
            ==> decimal_checked_difference(
            amount_or_zero(cs[i].1.quantity),
            amount_or_zero(cs[i].1.available),
        ) is Some
}

/// Some balance is of `asset`.
pub open spec fn has_asset(bs: Seq<(Seq<char>, (int, nat), (int, nat))>, asset: Seq<char>) -> bool {
    exists|k: int| 0 <= k < bs.len() && bs[k].0 == asset
}

/// Each cash balance that is positive counts, all free, unless its asset
/// already has a balance.
pub open spec fn cash_balances(
    start: Seq<(Seq<char>, (int, nat), (int, nat))>,
    bs: Seq<(String, String)>,
) -> Seq<(Seq<char>, (int, nat), (int, nat))>
    decreases bs.len(),
{
    if bs.len() == 0 {
        start
    } else {
        let before = cash_balances(start, bs.drop_last());
        let b = bs.last();
        let amount = decimal_or_zero(b.1@);
        if amount.0 > 0 && !has_asset(before, b.0@) {
            before.push((b.0@, amount, (0int, 0nat)))
        } else {
            before
        }
    }
}

/// The balances of an account: those of its flex account, then those of
/// its cash account.
pub open spec fn account_balance_views(account: AccountData) -> Seq<(Seq<char>, (int, nat), (int, nat))> {
    let flex = match account.flex {
        Some(f) => flex_balances(f.currencies@),
        None => Seq::empty(),
    };
    match account.cash {
        Some(c) => cash_balances(flex, c.balances@),
        None => flex,
    }
}

/// The locked amounts of an account's flex currencies can be computed.
pub open spec fn account_fits(account: AccountData) -> bool {
    match account.flex {
        Some(f) => flex_fits(f.currencies@),
        None => true,
    }
}

fn amount_of(s: &Option<String>) -> (r: Dec)
    ensures
        r.repr() == amount_or_zero(*s),
{
    match s {
        Some(t) => parse_decimal(t.as_str()),
        None => Dec::zero(),
    }
}

fn holds_asset(out: &Vec<Balance>, asset: &str) -> (r: bool)
    ensures
        r == has_asset(balance_views(out@), asset@),
{
    let mut i: usize = 0;
    while i < out.len()
        invariant
            i <= out@.len(),
            forall|k: int| 0 <= k < i ==> out@[k].asset@ != asset@,
        decreases out@.len() - i,
    {
        if text_is(out[i].asset.as_str(), asset) {
            assert(balance_views(out@)[i as int].0 == asset@);
            return true;
        }
        i += 1;
    }
    false
}

/// The balances of an account, as the exchange reports them: each flex
/// currency with a positive quantity (what is not available is locked),
/// then each positive cash balance of an asset not yet listed, all free.
/// Amounts that cannot be read count as zero.
pub fn account_balances(account: &AccountData) -> (r: Vec<Balance>)
    requires
        account_fits(*account),
    ensures
        balance_views(r@) == account_balance_views(*account),
{
    let mut out: Vec<Balance> = Vec::new();
    match &account.flex {
        Some(flex) => {
            let cs = &flex.currencies;
            let mut i: usize = 0;
            assert(cs@.take(0) =~= Seq::<(String, FlexCurrency)>::empty());
            while i < cs.len()
                invariant
                    i <= cs@.len(),
                    flex_fits(cs@),
                    balance_views(out@) == flex_balances(cs@.take(i as int)),
                decreases cs@.len() - i,
            {
                let quantity = amount_of(&cs[i].1.quantity);
                let available = amount_of(&cs[i].1.available);
                proof {
                    assert(cs@.take(i as int + 1).drop_last() =~= cs@.take(i as int));
                    assert(cs@.take(i as int + 1).last() == cs@[i as int]);
                }
                if quantity.is_positive() {
                    let locked = match quantity.checked_sub(available) {
                        Some(d) => d,
                        None => {
                            assert(false);
                            Dec::zero()
                        },
                    };
                    out.push(Balance { asset: cs[i].0.clone(), free: available, locked });
                    assert(balance_views(out@) =~= flex_balances(cs@.take(i as int + 1)));
                }
                i += 1;
            }
            assert(cs@.take(cs@.len() as int) =~= cs@);
        },
        None => {
            assert(balance_views(out@) =~= Seq::<(Seq<char>, (int, nat), (int, nat))>::empty());
        },
    }
    let ghost flex_views = balance_views(out@);
    match &account.cash {
        Some(cash) => {
            let bs = &cash.balances;
            let mut j: usize = 0;
            assert(bs@.take(0) =~= Seq::<(String, String)>::empty());
            while j < bs.len()
                invariant
                    j <= bs@.len(),
                    balance_views(out@) == cash_balances(flex_views, bs@.take(j as int)),
                decreases bs@.len() - j,
            {
                let amount = parse_decimal(bs[j].1.as_str());
                proof {
                    assert(bs@.take(j as int + 1).drop_last() =~= bs@.take(j as int));
                    assert(bs@.take(j as int + 1).last() == bs@[j as int]);
                }
                if amount.is_positive() && !holds_asset(&out, bs[j].0.as_str()) {
                    out.push(Balance { asset: bs[j].0.clone(), free: amount, locked: Dec::zero() });
                    assert(balance_views(out@) =~= cash_balances(flex_views, bs@.take(j as int + 1)));
                }
                j += 1;
            }
            assert(bs@.take(bs@.len() as int) =~= bs@);
        },
        None => {},
    }
    out
}

fn flex_fits_check(cs: &Vec<(String, FlexCurrency)>) -> (r: bool)
    ensures
        r == flex_fits(cs@),
{
    let mut i: usize = 0;
    while i < cs.len()
        invariant
            i <= cs@.len(),
            forall|k: int|
                0 <= k < i && amount_or_zero(#[trigger] cs@[k].1.quantity).0 > 0
                    ==> decimal_checked_difference(
                    amount_or_zero(cs@[k].1.quantity),
                    amount_or_zero(cs@[k].1.available),
                ) is Some,
        decreases cs@.len() - i,
    {
        let quantity = amount_of(&cs[i].1.quantity);
        if quantity.is_positive() {
            let available = amount_of(&cs[i].1.available);
            if quantity.checked_sub(available).is_none() {
                return false;
            }
        }
        i += 1;
    }
    true
}

/// The balances of an account, or nothing when the locked amount of a flex
/// currency overflows (where the exchange client would stop).
pub fn checked_account_balances(account: &AccountData) -> (r: Option<Vec<Balance>>)
    ensures
        account_fits(*account) ==> (r matches Some(bs) && balance_views(bs@)
            == account_balance_views(*account)),
        !account_fits(*account) ==> r is None,
{
    let fits = match &account.flex {
        Some(flex) => flex_fits_check(&flex.currencies),
        None => true,
    };
    if fits {
        Some(account_balances(account))
    } else {
        None
    }
}

// ---------------------------------------------------------------------------
// Signed requests.

/// A byte that percent-encoding leaves as it is: an ASCII letter or digit,
/// '-', '.', '_' or '~'.
pub open spec fn url_safe(b: u8) -> bool {
    ||| 48 <= b <= 57
    ||| 65 <= b <= 90
    ||| 97 <= b <= 122
    ||| b == 45 || b == 46 || b == 95 || b == 126
}

/// An upper-case hexadecimal digit.
pub open spec fn upper_hex(d: int) -> char {
    if d < 10 {
        (48 + d) as char
    } else {
        (55 + d) as char
    }
}

/// Bytes percent-encoded: each safe byte as its character, every other
/// byte as '%' and two upper-case hexadecimal digits.
pub open spec fn percent_encoded(bytes: Seq<u8>) -> Seq<char>
    decreases bytes.len(),
{
    if bytes.len() == 0 {
        Seq::empty()
    } else {
        let b = bytes.last();
        percent_encoded(bytes.drop_last()) + if url_safe(b) {
            seq![b as char]
        } else {
            seq!['%', upper_hex(b as int / 16), upper_hex(b as int % 16)]
        }
    }
}

/// The text `urlencoding::encode` gives for a text: its UTF-8 bytes
/// percent-encoded.
pub open spec fn url_encoded(text: Seq<char>) -> Seq<char> {
    percent_encoded(utf8_of(text))
}

/// `urlencoding::encode`: percent-encodes the UTF-8 bytes of a text,
/// keeping ASCII letters, digits, '-', '.', '_' and '~', writing any other
/// byte as '%' and two upper-case hexadecimal digits.
#[verifier::external_body]
fn url_encode(text: &str) -> (r: String)
    ensures
        r@ == url_encoded(text@),
{
    urlencoding::encode(text).into_owned()
}

/// The form body of some parameters: each "name=value", the value
/// percent-encoded, joined by '&'.
pub open spec fn form_of(params: Seq<(String, String)>) -> Seq<char>
    decreases params.len(),
{
    if params.len() == 0 {
        Seq::empty()
    } else if params.len() == 1 {
        params[0].0@ + "="@ + url_encoded(params[0].1@)
    } else {
        form_of(params.drop_last()) + "&"@ + params.last().0@ + "="@ + url_encoded(params.last().1@)
    }
}

/// The form body of some parameters.
pub fn form_body(params: &Vec<(String, String)>) -> (r: String)
    ensures
        r@ == form_of(params@),
{
    let mut body = String::new();
    let mut i: usize = 0;
    proof {
        reveal_strlit("");
    }
    assert(params@.take(0) =~= Seq::<(String, String)>::empty());
    while i < params.len()
        invariant
            i <= params@.len(),
            body@ == form_of(params@.take(i as int)),
        decreases params@.len() - i,
    {
        let ghost before = body@;
        if i > 0 {
            body.append("&");
        }
        body.append(params[i].0.as_str());
        body.append("=");
        body.append(url_encode(params[i].1.as_str()).as_str());
        proof {
            let t = params@.take(i as int + 1);
            assert(t.drop_last() =~= params@.take(i as int));
            assert(t.last() == params@[i as int]);
            if i == 0 {
                assert(t.len() == 1);
                assert(t[0] == params@[0]);
                assert(before =~= Seq::<char>::empty());
                assert(body@ =~= form_of(t));
            } else {
                assert(body@ =~= form_of(t));
            }
        }
        i += 1;
    }
    assert(params@.take(params@.len() as int) =~= params@);
    body
}

/// The parameters of a new order: type, symbol, side and size, then the
/// limit price, stop price, reduce-only flag ("true" or "false"), client
/// id and trigger signal that are set, in that order.
pub open spec fn order_param_views(request: NewOrderRequest) -> Seq<(Seq<char>, Seq<char>)> {
    seq![
        ("orderType"@, request.order_type@),
        ("symbol"@, request.symbol@),
        ("side"@, request.side@),
        ("size"@, request.size@),
    ] + optional_param("limitPrice"@, request.limit_price) + optional_param(
        "stopPrice"@,
        request.stop_price,
    ) + match request.reduce_only {
        Some(b) => seq![("reduceOnly"@, if b { "true"@ } else { "false"@ })],
        None => Seq::empty(),
    } + optional_param("cliOrdId"@, request.cli_ord_id) + optional_param(
        "triggerSignal"@,
        request.trigger_signal,
    )
}

/// The parameters a new order is sent with.
pub fn order_params(request: &NewOrderRequest) -> (r: Vec<(String, String)>)
    ensures
        param_views(r@) == order_param_views(*request),
{
    let mut ps: Vec<(String, String)> = Vec::new();
    assert(param_views(ps@) =~= Seq::<(Seq<char>, Seq<char>)>::empty());
    push_param(&mut ps, "orderType", request.order_type.clone());
    push_param(&mut ps, "symbol", request.symbol.clone());
    push_param(&mut ps, "side", request.side.clone());
    push_param(&mut ps, "size", request.size.clone());
    let ghost head = param_views(ps@);
    push_optional(&mut ps, "limitPrice", &request.limit_price);
    push_optional(&mut ps, "stopPrice", &request.stop_price);
    let ghost middle = param_views(ps@);
    match request.reduce_only {
        Some(b) => {
            let flag = if b {
                "true".to_string()
            } else {
                "false".to_string()
            };
            push_param(&mut ps, "reduceOnly", flag);
        },
        None => {},
    }
    proof {
        let flags = match request.reduce_only {
            Some(b) => seq![("reduceOnly"@, if b { "true"@ } else { "false"@ })],
            None => Seq::<(Seq<char>, Seq<char>)>::empty(),
        };
        assert(param_views(ps@) =~= middle + flags);
    }
    push_optional(&mut ps, "cliOrdId", &request.cli_ord_id);
    push_optional(&mut ps, "triggerSignal", &request.trigger_signal);
    assert(param_views(ps@) =~= order_param_views(*request));
    ps
}

/// The "Authent" of a signed request to `endpoint` with these parameters
/// and nonce; the secret must be valid base64.
pub fn request_authent(
    api_secret: &str,
    params: &Vec<(String, String)>,
    nonce: &str,
    endpoint: &str,
) -> (r: String)
    requires
        base64_decoded(api_secret@) is Some,
    ensures
        r@ == authent(
            base64_decoded(api_secret@).unwrap(),
            form_of(params@),
            nonce@,
            "/derivatives/api/v3"@ + endpoint@,
        ),
{
    let body = form_body(params);
    let path = endpoint_path(endpoint);
    sign(api_secret, body.as_str(), nonce, path.as_str())
}

/// The "Authent" of a signed request, or nothing when the secret is not
/// valid base64.
pub fn try_request_authent(
    api_secret: &str,
    params: &Vec<(String, String)>,
    nonce: &str,
    endpoint: &str,
) -> (r: Option<String>)
    ensures
        match base64_decoded(api_secret@) {
            Some(secret) => r is Some && r.unwrap()@ == authent(
                secret,
                form_of(params@),
                nonce@,
                "/derivatives/api/v3"@ + endpoint@,
            ),
            None => r is None,
        },
{
    match base64_decode(api_secret) {
        Some(_) => Some(request_authent(api_secret, params, nonce, endpoint)),
        None => None,
    }
}

/// The first ticker of `symbol`, by its place among the tickers.
pub fn find_ticker(tickers: &Vec<Ticker>, symbol: &str) -> (r: Option<usize>)
    ensures
        match r {
            Some(i) => i < tickers@.len() && tickers@[i as int].symbol@ == symbol@ && forall|k: int|
                0 <= k < i ==> #[trigger] tickers@[k].symbol@ != symbol@,
            None => forall|k: int| 0 <= k < tickers@.len() ==> #[trigger] tickers@[k].symbol@ != symbol@,
        },
{
    let mut i: usize = 0;
    while i < tickers.len()
        invariant
            i <= tickers@.len(),
            forall|k: int| 0 <= k < i ==> #[trigger] tickers@[k].symbol@ != symbol@,
        decreases tickers@.len() - i,
    {
        if text_is(tickers[i].symbol.as_str(), symbol) {
            return Some(i);
        }
        i += 1;
    }
    None
}

} // verus!
