//! Stored positions and orders: the texts a repository keeps for each
//! field, and the conversions from a stored row back to the entity.  A row
//! that cannot be read gives the message of the first field that fails.
use crate::clock::{
    instant_error_text, instant_from_text, parse_instant, parse_uuid, uuid_error_text,
    uuid_text_from,
};
use crate::decimal::{decimal_error_text, decimal_from_text, Dec};
use crate::entities::{
    ExchangeId, Order, OrderSide, OrderSource, OrderStatus, OrderType, Position, PositionSide,
    PositionStatus, TimeInForce,
};
use vstd::prelude::*;
use crate::text::{sole_at, sole_index, text_is};
use vstd::string::*;

verus! {

// ---------------------------------------------------------------------------
// Stored texts of the enumerations.

/// The stored text of an exchange.
pub open spec fn exchange_text(id: ExchangeId) -> Seq<char> {
    match id {
        ExchangeId::BinanceFutures => "binance_futures"@,
        ExchangeId::BinanceSpot => "binance_spot"@,
        ExchangeId::KrakenFutures => "kraken_futures"@,
        ExchangeId::Paper => "paper"@,
        ExchangeId::Okx => "okx"@,
        ExchangeId::Bybit => "bybit"@,
    }
}

/// The exchange a stored text names.
pub open spec fn exchange_of(s: Seq<char>) -> Option<ExchangeId> {
    if s == "binance_futures"@ {
        Some(ExchangeId::BinanceFutures)
    } else if s == "binance_spot"@ {
        Some(ExchangeId::BinanceSpot)
    } else if s == "kraken_futures"@ {
        Some(ExchangeId::KrakenFutures)
    } else if s == "paper"@ {
        Some(ExchangeId::Paper)
    } else if s == "okx"@ {
        Some(ExchangeId::Okx)
    } else if s == "bybit"@ {
        Some(ExchangeId::Bybit)
    } else {
        None
    }
}

/// The stored text of an exchange.
pub fn exchange_id_to_string(id: ExchangeId) -> (r: String)
    ensures
        r@ == exchange_text(id),
{
    match id {
        ExchangeId::BinanceFutures => "binance_futures".to_string(),
        ExchangeId::BinanceSpot => "binance_spot".to_string(),
        ExchangeId::KrakenFutures => "kraken_futures".to_string(),
        ExchangeId::Paper => "paper".to_string(),
        ExchangeId::Okx => "okx".to_string(),
        ExchangeId::Bybit => "bybit".to_string(),
    }
}

/// Reads an exchange from its stored text.
pub fn parse_exchange_id(s: &str) -> (r: Result<ExchangeId, String>)
    ensures
        match exchange_of(s@) {
            Some(id) => r == Ok::<ExchangeId, String>(id),
            None => r matches Err(e) && e@ == "Unknown exchange: "@ + s@,
        },
{
    if text_is(s, "binance_futures") {
        Ok(ExchangeId::BinanceFutures)
    } else if text_is(s, "binance_spot") {
        Ok(ExchangeId::BinanceSpot)
    } else if text_is(s, "kraken_futures") {
        Ok(ExchangeId::KrakenFutures)
    } else if text_is(s, "paper") {
        Ok(ExchangeId::Paper)
    } else if text_is(s, "okx") {
        Ok(ExchangeId::Okx)
    } else if text_is(s, "bybit") {
        Ok(ExchangeId::Bybit)
    } else {
        let mut e = "Unknown exchange: ".to_string();
        e.append(s);
        Err(e)
    }
}

/// The position side a stored text names.
pub open spec fn position_side_of(s: Seq<char>) -> Option<PositionSide> {
    if s == "long"@ {
        Some(PositionSide::Long)
    } else if s == "short"@ {
        Some(PositionSide::Short)
    } else {
        None
    }
}

/// Reads a position side from its stored text.
pub fn parse_position_side(s: &str) -> (r: Result<PositionSide, String>)
    ensures
        match position_side_of(s@) {
            Some(x) => r == Ok::<PositionSide, String>(x),
            None => r matches Err(e) && e@ == "Invalid position side: "@ + s@,
        },
{
    if text_is(s, "long") {
        Ok(PositionSide::Long)
    } else if text_is(s, "short") {
        Ok(PositionSide::Short)
    } else {
        let mut e = "Invalid position side: ".to_string();
        e.append(s);
        Err(e)
    }
}

/// The stored text of a position status.
pub open spec fn position_status_text(status: PositionStatus) -> Seq<char> {
    match status {
        PositionStatus::Open => "open"@,
        PositionStatus::Closed => "closed"@,
        PositionStatus::Liquidated => "liquidated"@,
    }
}

/// The position status a stored text names.
pub open spec fn position_status_of(s: Seq<char>) -> Option<PositionStatus> {
    if s == "open"@ {
        Some(PositionStatus::Open)
    } else if s == "closed"@ {
        Some(PositionStatus::Closed)
    } else if s == "liquidated"@ {
        Some(PositionStatus::Liquidated)
    } else {
        None
    }
}

/// The stored text of a position status.
pub fn position_status_to_string(status: PositionStatus) -> (r: String)
    ensures
        r@ == position_status_text(status),
{
    match status {
        PositionStatus::Open => "open".to_string(),
        PositionStatus::Closed => "closed".to_string(),
        PositionStatus::Liquidated => "liquidated".to_string(),
    }
}

/// Reads a position status from its stored text.
pub fn parse_position_status(s: &str) -> (r: Result<PositionStatus, String>)
    ensures
        match position_status_of(s@) {
            Some(x) => r == Ok::<PositionStatus, String>(x),
            None => r matches Err(e) && e@ == "Invalid position status: "@ + s@,
        },
{
    if text_is(s, "open") {
        Ok(PositionStatus::Open)
    } else if text_is(s, "closed") {
        Ok(PositionStatus::Closed)
    } else if text_is(s, "liquidated") {
        Ok(PositionStatus::Liquidated)
    } else {
        let mut e = "Invalid position status: ".to_string();
        e.append(s);
        Err(e)
    }
}

/// The order side a stored text names.
pub open spec fn order_side_of(s: Seq<char>) -> Option<OrderSide> {
    if s == "buy"@ {
        Some(OrderSide::Buy)
    } else if s == "sell"@ {
        Some(OrderSide::Sell)
    } else {
        None
    }
}

/// Reads an order side from its stored text.
pub fn parse_order_side(s: &str) -> (r: Result<OrderSide, String>)
    ensures
        match order_side_of(s@) {
            Some(x) => r == Ok::<OrderSide, String>(x),
            None => r matches Err(e) && e@ == "Invalid order side: "@ + s@,
        },
{
    if text_is(s, "buy") {
        Ok(OrderSide::Buy)
    } else if text_is(s, "sell") {
        Ok(OrderSide::Sell)
    } else {
        let mut e = "Invalid order side: ".to_string();
        e.append(s);
        Err(e)
    }
}

/// The stored text of an order type.
pub open spec fn order_type_text(t: OrderType) -> Seq<char> {
    match t {
        OrderType::Market => "market"@,
        OrderType::Limit => "limit"@,
        OrderType::StopLoss => "stop_loss"@,
        OrderType::StopLossLimit => "stop_loss_limit"@,
        OrderType::TakeProfit => "take_profit"@,
        OrderType::TakeProfitLimit => "take_profit_limit"@,
        OrderType::TrailingStop => "trailing_stop"@,
    }
}

/// The order type a stored text names (with or without underscores).
pub open spec fn stored_order_type_of(s: Seq<char>) -> Option<OrderType> {
    if s == "market"@ {
        Some(OrderType::Market)
    } else if s == "limit"@ {
        Some(OrderType::Limit)
    } else if s == "stop_loss"@ || s == "stoploss"@ {
        Some(OrderType::StopLoss)
    } else if s == "stop_loss_limit"@ || s == "stoplosslimit"@ {
        Some(OrderType::StopLossLimit)
    } else if s == "take_profit"@ || s == "takeprofit"@ {
        Some(OrderType::TakeProfit)
    } else if s == "take_profit_limit"@ || s == "takeprofitlimit"@ {
        Some(OrderType::TakeProfitLimit)
    } else if s == "trailing_stop"@ || s == "trailingstop"@ {
        Some(OrderType::TrailingStop)
    } else {
        None
    }
}

/// The stored text of an order type.
pub fn order_type_to_string(t: OrderType) -> (r: String)
    ensures
        r@ == order_type_text(t),
{
    match t {
        OrderType::Market => "market".to_string(),
        OrderType::Limit => "limit".to_string(),
        OrderType::StopLoss => "stop_loss".to_string(),
        OrderType::StopLossLimit => "stop_loss_limit".to_string(),
        OrderType::TakeProfit => "take_profit".to_string(),
        OrderType::TakeProfitLimit => "take_profit_limit".to_string(),
        OrderType::TrailingStop => "trailing_stop".to_string(),
    }
}

/// Reads an order type from its stored text.
pub fn parse_order_type(s: &str) -> (r: Result<OrderType, String>)
    ensures
        match stored_order_type_of(s@) {
            Some(x) => r == Ok::<OrderType, String>(x),
            None => r matches Err(e) && e@ == "Invalid order type: "@ + s@,
        },
{
    if text_is(s, "market") {
        Ok(OrderType::Market)
    } else if text_is(s, "limit") {
        Ok(OrderType::Limit)
    } else if text_is(s, "stop_loss") || text_is(s, "stoploss") {
        Ok(OrderType::StopLoss)
    } else if text_is(s, "stop_loss_limit") || text_is(s, "stoplosslimit") {
        Ok(OrderType::StopLossLimit)
    } else if text_is(s, "take_profit") || text_is(s, "takeprofit") {
        Ok(OrderType::TakeProfit)
    } else if text_is(s, "take_profit_limit") || text_is(s, "takeprofitlimit") {
        Ok(OrderType::TakeProfitLimit)
    } else if text_is(s, "trailing_stop") || text_is(s, "trailingstop") {
        Ok(OrderType::TrailingStop)
    } else {
        let mut e = "Invalid order type: ".to_string();
        e.append(s);
        Err(e)
    }
}

/// The time in force a stored text names.
pub open spec fn time_in_force_of(s: Seq<char>) -> Option<TimeInForce> {
    if s == "GTC"@ {
        Some(TimeInForce::GTC)
    } else if s == "IOC"@ {
        Some(TimeInForce::IOC)
    } else if s == "FOK"@ {
        Some(TimeInForce::FOK)
    } else if s == "GTD"@ {
        Some(TimeInForce::GTD)
    } else {
        None
    }
}

/// Reads a time in force from its stored text.
pub fn parse_time_in_force(s: &str) -> (r: Result<TimeInForce, String>)
    ensures
        match time_in_force_of(s@) {
            Some(x) => r == Ok::<TimeInForce, String>(x),
            None => r matches Err(e) && e@ == "Invalid time in force: "@ + s@,
        },
{
    if text_is(s, "GTC") {
        Ok(TimeInForce::GTC)
    } else if text_is(s, "IOC") {
        Ok(TimeInForce::IOC)
    } else if text_is(s, "FOK") {
        Ok(TimeInForce::FOK)
    } else if text_is(s, "GTD") {
        Ok(TimeInForce::GTD)
    } else {
        let mut e = "Invalid time in force: ".to_string();
        e.append(s);
        Err(e)
    }
}

/// The stored text of an order status.
pub open spec fn order_status_text(status: OrderStatus) -> Seq<char> {
    match status {
        OrderStatus::Pending => "pending"@,
        OrderStatus::Submitted => "submitted"@,
        OrderStatus::PartiallyFilled => "partially_filled"@,
        OrderStatus::Filled => "filled"@,
        OrderStatus::Cancelled => "cancelled"@,
        OrderStatus::Rejected => "rejected"@,
        OrderStatus::Expired => "expired"@,
        OrderStatus::Failed => "failed"@,
    }
}

/// The order status a stored text names.
pub open spec fn order_status_of(s: Seq<char>) -> Option<OrderStatus> {
    if s == "pending"@ {
        Some(OrderStatus::Pending)
    } else if s == "submitted"@ {
        Some(OrderStatus::Submitted)
    } else if s == "partially_filled"@ || s == "partiallyfilled"@ {
        Some(OrderStatus::PartiallyFilled)
    } else if s == "filled"@ {
        Some(OrderStatus::Filled)
    } else if s == "cancelled"@ {
        Some(OrderStatus::Cancelled)
    } else if s == "rejected"@ {
        Some(OrderStatus::Rejected)
    } else if s == "expired"@ {
        Some(OrderStatus::Expired)
    } else if s == "failed"@ {
        Some(OrderStatus::Failed)
    } else {
        None
    }
}

/// The stored text of an order status.
pub fn order_status_to_string(status: OrderStatus) -> (r: String)
    ensures
        r@ == order_status_text(status),
{
    match status {
        OrderStatus::Pending => "pending".to_string(),
        OrderStatus::Submitted => "submitted".to_string(),
        OrderStatus::PartiallyFilled => "partially_filled".to_string(),
        OrderStatus::Filled => "filled".to_string(),
        OrderStatus::Cancelled => "cancelled".to_string(),
        OrderStatus::Rejected => "rejected".to_string(),
        OrderStatus::Expired => "expired".to_string(),
        OrderStatus::Failed => "failed".to_string(),
    }
}

/// Reads an order status from its stored text.
pub fn parse_order_status(s: &str) -> (r: Result<OrderStatus, String>)
    ensures
        match order_status_of(s@) {
            Some(x) => r == Ok::<OrderStatus, String>(x),
            None => r matches Err(e) && e@ == "Invalid order status: "@ + s@,
        },
{
    if text_is(s, "pending") {
        Ok(OrderStatus::Pending)
    } else if text_is(s, "submitted") {
        Ok(OrderStatus::Submitted)
    } else if text_is(s, "partially_filled") || text_is(s, "partiallyfilled") {
        Ok(OrderStatus::PartiallyFilled)
    } else if text_is(s, "filled") {
        Ok(OrderStatus::Filled)
    } else if text_is(s, "cancelled") {
        Ok(OrderStatus::Cancelled)
    } else if text_is(s, "rejected") {
        Ok(OrderStatus::Rejected)
    } else if text_is(s, "expired") {
        Ok(OrderStatus::Expired)
    } else if text_is(s, "failed") {
        Ok(OrderStatus::Failed)
    } else {
        let mut e = "Invalid order status: ".to_string();
        e.append(s);
        Err(e)
    }
}

// ---------------------------------------------------------------------------
// What is stored reads back.

/// The stored text of every exchange reads back as that exchange.
pub proof fn law_exchange_text_round_trip(id: ExchangeId)
    ensures
        exchange_of(exchange_text(id)) == Some(id),
{
    reveal_strlit("binance_futures");
    reveal_strlit("binance_spot");
    reveal_strlit("kraken_futures");
    reveal_strlit("paper");
    reveal_strlit("okx");
    reveal_strlit("bybit");
    assert("binance_futures"@.len() == 15);
    assert("binance_spot"@.len() == 12);
    assert("kraken_futures"@.len() == 14);
    assert("paper"@.len() == 5);
    assert("okx"@.len() == 3);
    assert("bybit"@.len() == 5);
    assert("bybit"@[0] != "paper"@[0]);
}

/// The stored text of every position status reads back as that status.
pub proof fn law_position_status_text_round_trip(status: PositionStatus)
    ensures
        position_status_of(position_status_text(status)) == Some(status),
{
    reveal_strlit("open");
    reveal_strlit("closed");
    reveal_strlit("liquidated");
    assert("open"@.len() == 4);
    assert("closed"@.len() == 6);
    assert("liquidated"@.len() == 10);
}

/// The stored text of every order type reads back as that type.
pub proof fn law_order_type_text_round_trip(t: OrderType)
    ensures
        stored_order_type_of(order_type_text(t)) == Some(t),
{
    reveal_strlit("market");
    reveal_strlit("limit");
    reveal_strlit("stop_loss");
    reveal_strlit("stoploss");
    reveal_strlit("stop_loss_limit");
    reveal_strlit("stoplosslimit");
    reveal_strlit("take_profit");
    reveal_strlit("takeprofit");
    reveal_strlit("take_profit_limit");
    reveal_strlit("takeprofitlimit");
    reveal_strlit("trailing_stop");
    assert("market"@.len() == 6);
    assert("limit"@.len() == 5);
    assert("stop_loss"@.len() == 9);
    assert("stoploss"@.len() == 8);
    assert("stop_loss_limit"@.len() == 15);
    assert("stoplosslimit"@.len() == 13);
    assert("take_profit"@.len() == 11);
    assert("takeprofit"@.len() == 10);
    assert("take_profit_limit"@.len() == 17);
    assert("takeprofitlimit"@.len() == 15);
    assert("trailing_stop"@.len() == 13);
    assert("trailing_stop"@[0] != "stoplosslimit"@[0]);
}

/// The stored text of every order status reads back as that status.
pub proof fn law_order_status_text_round_trip(status: OrderStatus)
    ensures
        order_status_of(order_status_text(status)) == Some(status),
{
    reveal_strlit("pending");
    reveal_strlit("submitted");
    reveal_strlit("partially_filled");
    reveal_strlit("partiallyfilled");
    reveal_strlit("filled");
    reveal_strlit("cancelled");
    reveal_strlit("rejected");
    reveal_strlit("expired");
    reveal_strlit("failed");
    assert("pending"@.len() == 7);
    assert("submitted"@.len() == 9);
    assert("partially_filled"@.len() == 16);
    assert("partiallyfilled"@.len() == 15);
    assert("filled"@.len() == 6);
    assert("cancelled"@.len() == 9);
    assert("rejected"@.len() == 8);
    assert("expired"@.len() == 7);
    assert("failed"@.len() == 6);
    assert("cancelled"@[0] != "submitted"@[0]);
    assert("expired"@[0] != "pending"@[0]);
    assert("failed"@[1] != "filled"@[1]);
}

// ---------------------------------------------------------------------------
// Reading fields.

/// The error of the first failing read, if any.
pub open spec fn or_else(first: Option<Seq<char>>, rest: Option<Seq<char>>) -> Option<Seq<char>> {
    if first is Some {
        first
    } else {
        rest
    }
}

/// The message when a text is not a UUID.
pub open spec fn uuid_err(text: Seq<char>, label: Seq<char>) -> Option<Seq<char>> {
    match uuid_text_from(text) {
        Some(_) => None,
        None => Some(label + uuid_error_text(text)),
    }
}

/// The message when an optional text is present but not a UUID.
pub open spec fn opt_uuid_err(text: Option<String>, label: Seq<char>) -> Option<Seq<char>> {
    match text {
        Some(t) => uuid_err(t@, label),
        None => None,
    }
}

/// The message when a text is not a decimal.
pub open spec fn dec_err(text: Seq<char>, label: Seq<char>) -> Option<Seq<char>> {
    match decimal_from_text(text) {
        Some(_) => None,
        None => Some(label + decimal_error_text(text)),
    }
}

/// The message when an optional text is present but not a decimal.
pub open spec fn opt_dec_err(text: Option<String>, label: Seq<char>) -> Option<Seq<char>> {
    match text {
        Some(t) => dec_err(t@, label),
        None => None,
    }
}

/// The message when a text is not an instant.
pub open spec fn instant_err(text: Seq<char>, label: Seq<char>) -> Option<Seq<char>> {
    match instant_from_text(text) {
        Some(_) => None,
        None => Some(label + instant_error_text(text)),
    }
}

/// The message when an optional text is present but not an instant.
pub open spec fn opt_instant_err(text: Option<String>, label: Seq<char>) -> Option<Seq<char>> {
    match text {
        Some(t) => instant_err(t@, label),
        None => None,
    }
}

/// The message when a text does not name an enumeration's value.
pub open spec fn name_err<T>(read: Option<T>, label: Seq<char>, text: Seq<char>) -> Option<Seq<char>> {
    match read {
        Some(_) => None,
        None => Some(label + text),
    }
}

/// An optional text read as a UUID.
pub open spec fn opt_uuid_is(text: Option<String>, r: Option<String>) -> bool {
    match text {
        Some(t) => r is Some && uuid_text_from(t@) == Some(r.unwrap()@),
        None => r is None,
    }
}

/// An optional text read as a decimal.
pub open spec fn opt_dec_is(text: Option<String>, r: Option<Dec>) -> bool {
    match text {
        Some(t) => r is Some && decimal_from_text(t@) == Some(r.unwrap().repr()),
        None => r is None,
    }
}

/// An optional text read as an instant.
pub open spec fn opt_instant_is(text: Option<String>, r: Option<i64>) -> bool {
    match text {
        Some(t) => r is Some && instant_from_text(t@) == Some(r.unwrap()),
        None => r is None,
    }
}

pub(crate) fn with_label(label: &str, e: String) -> (r: String)
    ensures
        r@ == label@ + e@,
{
    let mut m = label.to_string();
    m.append(e.as_str());
    m
}

pub(crate) fn read_uuid(text: &str, label: &str) -> (r: Result<String, String>)
    ensures
        match uuid_err(text@, label@) {
            Some(m) => r matches Err(e) && e@ == m,
            None => r matches Ok(u) && uuid_text_from(text@) == Some(u@),
        },
{
    match parse_uuid(text) {
        Ok(u) => Ok(u),
        Err(e) => Err(with_label(label, e)),
    }
}

pub(crate) fn read_opt_uuid(text: &Option<String>, label: &str) -> (r: Result<Option<String>, String>)
    ensures
        match opt_uuid_err(*text, label@) {
            Some(m) => r matches Err(e) && e@ == m,
            None => r matches Ok(u) && opt_uuid_is(*text, u),
        },
{
    match text {
        Some(t) => match read_uuid(t.as_str(), label) {
            Ok(u) => Ok(Some(u)),
            Err(e) => Err(e),
        },
        None => Ok(None),
    }
}

pub(crate) fn read_dec(text: &str, label: &str) -> (r: Result<Dec, String>)
    ensures
        match dec_err(text@, label@) {
            Some(m) => r matches Err(e) && e@ == m,
            None => r matches Ok(d) && decimal_from_text(text@) == Some(d.repr()),
        },
{
    match Dec::parse_or_error(text) {
        Ok(d) => Ok(d),
        Err(e) => Err(with_label(label, e)),
    }
}

pub(crate) fn read_opt_dec(text: &Option<String>, label: &str) -> (r: Result<Option<Dec>, String>)
    ensures
        match opt_dec_err(*text, label@) {
            Some(m) => r matches Err(e) && e@ == m,
            None => r matches Ok(d) && opt_dec_is(*text, d),
        },
{
    match text {
        Some(t) => match read_dec(t.as_str(), label) {
            Ok(d) => Ok(Some(d)),
            Err(e) => Err(e),
        },
        None => Ok(None),
    }
}

pub(crate) fn read_instant(text: &str, label: &str) -> (r: Result<i64, String>)
    ensures
        match instant_err(text@, label@) {
            Some(m) => r matches Err(e) && e@ == m,
            None => r matches Ok(t) && instant_from_text(text@) == Some(t),
        },
{
    match parse_instant(text) {
        Ok(t) => Ok(t),
        Err(e) => Err(with_label(label, e)),
    }
}

pub(crate) fn read_opt_instant(text: &Option<String>, label: &str) -> (r: Result<Option<i64>, String>)
    ensures
        match opt_instant_err(*text, label@) {
            Some(m) => r matches Err(e) && e@ == m,
            None => r matches Ok(t) && opt_instant_is(*text, t),
        },
{
    match text {
        Some(t) => match read_instant(t.as_str(), label) {
            Ok(v) => Ok(Some(v)),
            Err(e) => Err(e),
        },
        None => Ok(None),
    }
}

// ---------------------------------------------------------------------------
// Stored positions.

/// A position as the `positions` table stores it.
#[derive(Debug, Clone)]
pub struct PositionRecord {
    pub id: String,
    pub exchange: String,
    pub symbol: String,
    pub side: String,
    pub quantity: String,
    pub entry_price: String,
    pub current_price: String,
    pub leverage: i64,
    pub margin: String,
    pub unrealized_pnl: String,
    pub unrealized_pnl_pct: String,
    pub realized_pnl: String,
    pub stop_loss_order_id: Option<String>,
    pub stop_loss_price: Option<String>,
    pub take_profit_order_id: Option<String>,
    pub take_profit_price: Option<String>,
    pub entry_order_id: String,
    pub status: String,
    pub liquidation_price: Option<String>,
    pub opened_at: String,
    pub closed_at: Option<String>,
    pub updated_at: String,
}

/// The message of the first field of a stored position that cannot be
/// read, in the order of the fields.
pub open spec fn position_record_error(row: PositionRecord) -> Option<Seq<char>> {
    or_else(uuid_err(row.id@, "Invalid position id: "@),
    or_else(name_err(exchange_of(row.exchange@), "Unknown exchange: "@, row.exchange@),
    or_else(name_err(position_side_of(row.side@), "Invalid position side: "@, row.side@),
    or_else(dec_err(row.quantity@, "Invalid quantity: "@),
    or_else(dec_err(row.entry_price@, "Invalid entry price: "@),
    or_else(dec_err(row.current_price@, "Invalid current price: "@),
    or_else(dec_err(row.margin@, "Invalid margin: "@),
    or_else(dec_err(row.unrealized_pnl@, "Invalid unrealized pnl: "@),
    or_else(dec_err(row.unrealized_pnl_pct@, "Invalid unrealized pnl pct: "@),
    or_else(dec_err(row.realized_pnl@, "Invalid realized pnl: "@),
    or_else(opt_uuid_err(row.stop_loss_order_id, "Invalid order id: "@),
    or_else(opt_dec_err(row.stop_loss_price, "Invalid stop loss price: "@),
    or_else(opt_uuid_err(row.take_profit_order_id, "Invalid order id: "@),
    or_else(opt_dec_err(row.take_profit_price, "Invalid take profit price: "@),
    or_else(uuid_err(row.entry_order_id@, "Invalid order id: "@),
    or_else(name_err(position_status_of(row.status@), "Invalid position status: "@, row.status@),
    or_else(opt_dec_err(row.liquidation_price, "Invalid liquidation price: "@),
    or_else(instant_err(row.opened_at@, "Invalid opened_at: "@),
    or_else(opt_instant_err(row.closed_at, "Invalid closed_at: "@),
    instant_err(row.updated_at@, "Invalid updated_at: "@))))))))))))))))))))
}

/// A position holds what its stored row says.
pub open spec fn position_read(row: PositionRecord, p: Position) -> bool {
    &&& uuid_text_from(row.id@) == Some(p.id@)
    &&& exchange_of(row.exchange@) == Some(p.exchange)
    &&& p.symbol == row.symbol
    &&& position_side_of(row.side@) == Some(p.side)
    &&& decimal_from_text(row.quantity@) == Some(p.quantity.repr())
    &&& decimal_from_text(row.entry_price@) == Some(p.entry_price.repr())
    &&& decimal_from_text(row.current_price@) == Some(p.current_price.repr())
    &&& p.leverage == row.leverage as u32
    &&& decimal_from_text(row.margin@) == Some(p.margin.repr())
    &&& decimal_from_text(row.unrealized_pnl@) == Some(p.unrealized_pnl.repr())
    &&& decimal_from_text(row.unrealized_pnl_pct@) == Some(p.unrealized_pnl_pct.repr())
    &&& decimal_from_text(row.realized_pnl@) == Some(p.realized_pnl.repr())
    &&& opt_uuid_is(row.stop_loss_order_id, p.stop_loss_order_id)
    &&& opt_dec_is(row.stop_loss_price, p.stop_loss_price)
    &&& opt_uuid_is(row.take_profit_order_id, p.take_profit_order_id)
    &&& opt_dec_is(row.take_profit_price, p.take_profit_price)
    &&& uuid_text_from(row.entry_order_id@) == Some(p.entry_order_id@)
    &&& position_status_of(row.status@) == Some(p.status)
    &&& opt_dec_is(row.liquidation_price, p.liquidation_price)
    &&& instant_from_text(row.opened_at@) == Some(p.opened_at)
    &&& opt_instant_is(row.closed_at, p.closed_at)
    &&& instant_from_text(row.updated_at@) == Some(p.updated_at)
}

/// Reads a position back from its stored row: the message of the first
/// field that cannot be read, or the position.
pub fn position_from_record(row: PositionRecord) -> (r: Result<Position, String>)
    ensures
        match position_record_error(row) {
            Some(m) => r matches Err(e) && e@ == m,
            None => r matches Ok(p) && position_read(row, p),
        },
{
    let id = match read_uuid(row.id.as_str(), "Invalid position id: ") {
        Ok(v) => v,
        Err(e) => return Err(e),
    };
    let exchange = match parse_exchange_id(row.exchange.as_str()) {
        Ok(v) => v,
        Err(e) => return Err(e),
    };
    let side = match parse_position_side(row.side.as_str()) {
        Ok(v) => v,
        Err(e) => return Err(e),
    };
    let quantity = match read_dec(row.quantity.as_str(), "Invalid quantity: ") {
        Ok(v) => v,
        Err(e) => return Err(e),
    };
    let entry_price = match read_dec(row.entry_price.as_str(), "Invalid entry price: ") {
        Ok(v) => v,
        Err(e) => return Err(e),
    };
    let current_price = match read_dec(row.current_price.as_str(), "Invalid current price: ") {
        Ok(v) => v,
        Err(e) => return Err(e),
    };
    let margin = match read_dec(row.margin.as_str(), "Invalid margin: ") {
        Ok(v) => v,
        Err(e) => return Err(e),
    };
    let unrealized_pnl = match read_dec(row.unrealized_pnl.as_str(), "Invalid unrealized pnl: ") {
        Ok(v) => v,
        Err(e) => return Err(e),
    };
    let unrealized_pnl_pct = match read_dec(
        row.unrealized_pnl_pct.as_str(),
        "Invalid unrealized pnl pct: ",
    ) {
        Ok(v) => v,
        Err(e) => return Err(e),
    };
    let realized_pnl = match read_dec(row.realized_pnl.as_str(), "Invalid realized pnl: ") {
        Ok(v) => v,
        Err(e) => return Err(e),
    };
    let stop_loss_order_id = match read_opt_uuid(&row.stop_loss_order_id, "Invalid order id: ") {
        Ok(v) => v,
        Err(e) => return Err(e),
    };
    let stop_loss_price = match read_opt_dec(&row.stop_loss_price, "Invalid stop loss price: ") {
        Ok(v) => v,
        Err(e) => return Err(e),
    };
    let take_profit_order_id = match read_opt_uuid(&row.take_profit_order_id, "Invalid order id: ") {
        Ok(v) => v,
        Err(e) => return Err(e),
    };
    let take_profit_price = match read_opt_dec(
        &row.take_profit_price,
        "Invalid take profit price: ",
    ) {
        Ok(v) => v,
        Err(e) => return Err(e),
    };
    let entry_order_id = match read_uuid(row.entry_order_id.as_str(), "Invalid order id: ") {
        Ok(v) => v,
        Err(e) => return Err(e),
    };
    let status = match parse_position_status(row.status.as_str()) {
        Ok(v) => v,
        Err(e) => return Err(e),
    };
    let liquidation_price = match read_opt_dec(
        &row.liquidation_price,
        "Invalid liquidation price: ",
    ) {
        Ok(v) => v,
        Err(e) => return Err(e),
    };
    let opened_at = match read_instant(row.opened_at.as_str(), "Invalid opened_at: ") {
        Ok(v) => v,
        Err(e) => return Err(e),
    };
    let closed_at = match read_opt_instant(&row.closed_at, "Invalid closed_at: ") {
        Ok(v) => v,
        Err(e) => return Err(e),
    };
    let updated_at = match read_instant(row.updated_at.as_str(), "Invalid updated_at: ") {
        Ok(v) => v,
        Err(e) => return Err(e),
    };
    Ok(
        Position {
            id,
            exchange,
            symbol: row.symbol,
            side,
            quantity,
            entry_price,
            current_price,
            leverage: #[verifier::truncate] (row.leverage as u32),
            margin,
            unrealized_pnl,
            unrealized_pnl_pct,
            realized_pnl,
            stop_loss_order_id,
            stop_loss_price,
            take_profit_order_id,
            take_profit_price,
            entry_order_id,
            status,
            liquidation_price,
            opened_at,
            closed_at,
            updated_at,
        },
    )
}

// ---------------------------------------------------------------------------
// Stored orders.

/// The two parts of a text split at its only '|', when it has exactly one.
pub open spec fn pipe_parts(d: Seq<char>) -> Option<(Seq<char>, Seq<char>)> {
    if exists|k: int| sole_at(d, '|', k) {
        let k = choose|k: int| sole_at(d, '|', k);
        Some((d.take(k), d.skip(k + 1)))
    } else {
        None
    }
}

/// The message when a stored order source cannot be read.
pub open spec fn source_error(source_type: Seq<char>, data: Option<Seq<char>>) -> Option<Seq<char>> {
    if source_type == "signal"@ {
        match data {
            None => Some("Signal source requires data"@),
            Some(d) => match pipe_parts(d) {
                None => Some("Invalid signal source data format"@),
                Some(parts) => uuid_err(parts.0, "Invalid signal_id: "@),
            },
        }
    } else if source_type == "manual"@ {
        None
    } else if source_type == "stop_loss"@ {
        match data {
            None => Some("StopLoss source requires position_id"@),
            Some(d) => uuid_err(d, "Invalid position_id: "@),
        }
    } else if source_type == "take_profit"@ {
        match data {
            None => Some("TakeProfit source requires position_id"@),
            Some(d) => uuid_err(d, "Invalid position_id: "@),
        }
    } else {
        Some("Invalid source type: "@ + source_type)
    }
}

/// The order source a readable stored source gives.
pub open spec fn source_read(source_type: Seq<char>, data: Option<Seq<char>>, src: OrderSource) -> bool {
    if source_type == "signal"@ {
        let parts = pipe_parts(data.unwrap()).unwrap();
        src matches OrderSource::Signal { signal_id, strategy_id } && uuid_text_from(parts.0) == Some(
            signal_id@,
        ) && strategy_id@ == parts.1
    } else if source_type == "manual"@ {
        src matches OrderSource::Manual { nota } && match data {
            Some(d) => nota is Some && nota.unwrap()@ == d,
            None => nota is None,
        }
    } else if source_type == "stop_loss"@ {
        src matches OrderSource::StopLoss { position_id } && uuid_text_from(data.unwrap()) == Some(
            position_id@,
        )
    } else {
        src matches OrderSource::TakeProfit { position_id } && uuid_text_from(data.unwrap()) == Some(
            position_id@,
        )
    }
}

/// Reads an order source from its stored type and data: a signal (its id
/// and strategy joined by '|'), a manual order (its note), or the position
/// a stop loss or take profit protects.
pub fn parse_order_source(source_type: &str, source_data: Option<&str>) -> (r: Result<
    OrderSource,
    String,
>)
    ensures
        ({
            let data = match source_data {
                Some(d) => Some(d@),
                None => None,
            };
            match source_error(source_type@, data) {
                Some(m) => r matches Err(e) && e@ == m,
                None => r matches Ok(src) && source_read(source_type@, data, src),
            }
        }),
{
    if text_is(source_type, "signal") {
        let data = match source_data {
            Some(d) => d,
            None => return Err("Signal source requires data".to_string()),
        };
        let k = match sole_index(data, '|') {
            Some(k) => k,
            None => return Err("Invalid signal source data format".to_string()),
        };
        proof {
            assert(sole_at(data@, '|', k as int));
            let c = choose|j: int| sole_at(data@, '|', j);
            assert(c == k);
        }
        let n = data.unicode_len();
        let first = data.substring_char(0, k);
        let second = data.substring_char(k + 1, n);
        assert(first@ =~= data@.take(k as int));
        assert(second@ =~= data@.skip(k + 1));
        let signal_id = match read_uuid(first, "Invalid signal_id: ") {
            Ok(u) => u,
            Err(e) => return Err(e),
        };
        Ok(OrderSource::Signal { signal_id, strategy_id: second.to_string() })
    } else if text_is(source_type, "manual") {
        Ok(
            OrderSource::Manual {
                nota: match source_data {
                    Some(d) => Some(d.to_string()),
                    None => None,
                },
            },
        )
    } else if text_is(source_type, "stop_loss") {
        let data = match source_data {
            Some(d) => d,
            None => return Err("StopLoss source requires position_id".to_string()),
        };
        match read_uuid(data, "Invalid position_id: ") {
            Ok(position_id) => Ok(OrderSource::StopLoss { position_id }),
            Err(e) => Err(e),
        }
    } else if text_is(source_type, "take_profit") {
        let data = match source_data {
            Some(d) => d,
            None => return Err("TakeProfit source requires position_id".to_string()),
        };
        match read_uuid(data, "Invalid position_id: ") {
            Ok(position_id) => Ok(OrderSource::TakeProfit { position_id }),
            Err(e) => Err(e),
        }
    } else {
        let mut e = "Invalid source type: ".to_string();
        e.append(source_type);
        Err(e)
    }
}

/// An order as the `orders` table stores it.
#[derive(Debug, Clone)]
pub struct OrderRecord {
    pub id: String,
    pub client_order_id: String,
    pub exchange_order_id: Option<String>,
    pub exchange: String,
    pub symbol: String,
    pub side: String,
    pub order_type: String,
    pub quantity: String,
    pub price: Option<String>,
    pub stop_price: Option<String>,
    pub stop_loss: Option<String>,
    pub take_profit: Option<String>,
    pub time_in_force: String,
    pub status: String,
    pub filled_quantity: String,
    pub average_fill_price: Option<String>,
    pub source_type: String,
    pub source_data: Option<String>,
    pub error_message: Option<String>,
    pub created_at: String,
    pub submitted_at: Option<String>,
    pub filled_at: Option<String>,
    pub updated_at: String,
}

/// The text of an optional string.
pub open spec fn opt_view(o: Option<String>) -> Option<Seq<char>> {
    match o {
        Some(s) => Some(s@),
        None => None,
    }
}

/// The message of the first of the identifying fields of a stored order
/// that cannot be read.
pub open spec fn order_head_error(row: OrderRecord) -> Option<Seq<char>> {
    or_else(uuid_err(row.id@, "Invalid order id: "@),
    or_else(name_err(exchange_of(row.exchange@), "Unknown exchange: "@, row.exchange@),
    or_else(name_err(order_side_of(row.side@), "Invalid order side: "@, row.side@),
    name_err(stored_order_type_of(row.order_type@), "Invalid order type: "@, row.order_type@))))
}

/// The message of the first of the amounts and states of a stored order
/// that cannot be read.
pub open spec fn order_body_error(row: OrderRecord) -> Option<Seq<char>> {
    or_else(dec_err(row.quantity@, "Invalid quantity: "@),
    or_else(opt_dec_err(row.price, "Invalid price: "@),
    or_else(opt_dec_err(row.stop_price, "Invalid stop price: "@),
    or_else(opt_dec_err(row.stop_loss, "Invalid stop loss: "@),
    or_else(opt_dec_err(row.take_profit, "Invalid take profit: "@),
    or_else(name_err(time_in_force_of(row.time_in_force@), "Invalid time in force: "@, row.time_in_force@),
    or_else(name_err(order_status_of(row.status@), "Invalid order status: "@, row.status@),
    or_else(dec_err(row.filled_quantity@, "Invalid filled quantity: "@),
    opt_dec_err(row.average_fill_price, "Invalid average fill price: "@)))))))))
}

/// The message of the first of the source and instants of a stored order
/// that cannot be read.
pub open spec fn order_tail_error(row: OrderRecord) -> Option<Seq<char>> {
    or_else(source_error(row.source_type@, opt_view(row.source_data)),
    or_else(instant_err(row.created_at@, "Invalid created_at: "@),
    or_else(opt_instant_err(row.submitted_at, "Invalid submitted_at: "@),
    or_else(opt_instant_err(row.filled_at, "Invalid filled_at: "@),
    instant_err(row.updated_at@, "Invalid updated_at: "@)))))
}

/// The message of the first field of a stored order that cannot be read,
/// in the order of the fields.
pub open spec fn order_record_error(row: OrderRecord) -> Option<Seq<char>> {
    or_else(order_head_error(row), or_else(order_body_error(row), order_tail_error(row)))
}

/// An order holds what its stored row says.
pub open spec fn order_read(row: OrderRecord, o: Order) -> bool {
    &&& uuid_text_from(row.id@) == Some(o.id@)
    &&& o.client_order_id == row.client_order_id
    &&& o.exchange_order_id == row.exchange_order_id
    &&& exchange_of(row.exchange@) == Some(o.exchange)
    &&& o.symbol == row.symbol
    &&& order_side_of(row.side@) == Some(o.side)
    &&& stored_order_type_of(row.order_type@) == Some(o.order_type)
    &&& decimal_from_text(row.quantity@) == Some(o.quantity.repr())
    &&& opt_dec_is(row.price, o.price)
    &&& opt_dec_is(row.stop_price, o.stop_price)
    &&& opt_dec_is(row.stop_loss, o.stop_loss)
    &&& opt_dec_is(row.take_profit, o.take_profit)
    &&& time_in_force_of(row.time_in_force@) == Some(o.time_in_force)
    &&& order_status_of(row.status@) == Some(o.status)
    &&& decimal_from_text(row.filled_quantity@) == Some(o.filled_quantity.repr())
    &&& opt_dec_is(row.average_fill_price, o.average_fill_price)
    &&& source_read(row.source_type@, opt_view(row.source_data), o.source)
    &&& o.error_message == row.error_message
    &&& instant_from_text(row.created_at@) == Some(o.created_at)
    &&& opt_instant_is(row.submitted_at, o.submitted_at)
    &&& opt_instant_is(row.filled_at, o.filled_at)
    &&& instant_from_text(row.updated_at@) == Some(o.updated_at)
}

/// Reads an order back from its stored row: the message of the first
/// field that cannot be read, or the order.
pub fn order_from_record(row: OrderRecord) -> (r: Result<Order, String>)
    ensures
        match order_record_error(row) {
            Some(m) => r matches Err(e) && e@ == m,
            None => r matches Ok(o) && order_read(row, o),
        },
{
    let id = match read_uuid(row.id.as_str(), "Invalid order id: ") {
        Ok(v) => v,
        Err(e) => return Err(e),
    };
    let exchange = match parse_exchange_id(row.exchange.as_str()) {
        Ok(v) => v,
        Err(e) => return Err(e),
    };
    let side = match parse_order_side(row.side.as_str()) {
        Ok(v) => v,
        Err(e) => return Err(e),
    };
    let order_type = match parse_order_type(row.order_type.as_str()) {
        Ok(v) => v,
        Err(e) => return Err(e),
    };
    let quantity = match read_dec(row.quantity.as_str(), "Invalid quantity: ") {
        Ok(v) => v,
        Err(e) => return Err(e),
    };
    let price = match read_opt_dec(&row.price, "Invalid price: ") {
        Ok(v) => v,
        Err(e) => return Err(e),
    };
    let stop_price = match read_opt_dec(&row.stop_price, "Invalid stop price: ") {
        Ok(v) => v,
        Err(e) => return Err(e),
    };
    let stop_loss = match read_opt_dec(&row.stop_loss, "Invalid stop loss: ") {
        Ok(v) => v,
        Err(e) => return Err(e),
    };
    let take_profit = match read_opt_dec(&row.take_profit, "Invalid take profit: ") {
        Ok(v) => v,
        Err(e) => return Err(e),
    };
    let time_in_force = match parse_time_in_force(row.time_in_force.as_str()) {
        Ok(v) => v,
        Err(e) => return Err(e),
    };
    let status = match parse_order_status(row.status.as_str()) {
        Ok(v) => v,
        Err(e) => return Err(e),
    };
    let filled_quantity = match read_dec(row.filled_quantity.as_str(), "Invalid filled quantity: ") {
        Ok(v) => v,
        Err(e) => return Err(e),
    };
    let average_fill_price = match read_opt_dec(
        &row.average_fill_price,
        "Invalid average fill price: ",
    ) {
        Ok(v) => v,
        Err(e) => return Err(e),
    };
    let data: Option<&str> = match &row.source_data {
        Some(d) => Some(d.as_str()),
        None => None,
    };
    let source = match parse_order_source(row.source_type.as_str(), data) {
        Ok(v) => v,
        Err(e) => return Err(e),
    };
    let created_at = match read_instant(row.created_at.as_str(), "Invalid created_at: ") {
        Ok(v) => v,
        Err(e) => return Err(e),
    };
    let submitted_at = match read_opt_instant(&row.submitted_at, "Invalid submitted_at: ") {
        Ok(v) => v,
        Err(e) => return Err(e),
    };
    let filled_at = match read_opt_instant(&row.filled_at, "Invalid filled_at: ") {
        Ok(v) => v,
        Err(e) => return Err(e),
    };
    let updated_at = match read_instant(row.updated_at.as_str(), "Invalid updated_at: ") {
        Ok(v) => v,
        Err(e) => return Err(e),
    };
    Ok(
        Order {
            id,
            client_order_id: row.client_order_id,
            exchange_order_id: row.exchange_order_id,
            exchange,
            symbol: row.symbol,
            side,
            order_type,
            quantity,
            price,
            stop_price,
            stop_loss,
            take_profit,
            time_in_force,
            status,
            filled_quantity,
            average_fill_price,
            source,
            error_message: row.error_message,
            created_at,
            submitted_at,
            filled_at,
            updated_at,
        },
    )
}

/// The stored type and data of an order source: a signal as its id and
/// strategy joined by '|', a manual order with its note, a stop loss or
/// take profit with its position.
pub open spec fn source_texts(src: OrderSource) -> (Seq<char>, Option<Seq<char>>) {
    match src {
        OrderSource::Signal { signal_id, strategy_id } => (
            "signal"@,
            Some(signal_id@ + "|"@ + strategy_id@),
        ),
        OrderSource::Manual { nota } => ("manual"@, opt_view(nota)),
        OrderSource::StopLoss { position_id } => ("stop_loss"@, Some(position_id@)),
        OrderSource::TakeProfit { position_id } => ("take_profit"@, Some(position_id@)),
    }
}

/// The stored type and data of an order source.
pub fn order_source_to_strings(source: &OrderSource) -> (r: (String, Option<String>))
    ensures
        r.0@ == source_texts(*source).0,
        opt_view(r.1) == source_texts(*source).1,
{
    match source {
        OrderSource::Signal { signal_id, strategy_id } => {
            let mut data = signal_id.clone();
            data.append("|");
            data.append(strategy_id.as_str());
            ("signal".to_string(), Some(data))
        },
        OrderSource::Manual { nota } => ("manual".to_string(), match nota {
            Some(n) => Some(n.clone()),
            None => None,
        }),
        OrderSource::StopLoss { position_id } => (
            "stop_loss".to_string(),
            Some(position_id.clone()),
        ),
        OrderSource::TakeProfit { position_id } => (
            "take_profit".to_string(),
            Some(position_id.clone()),
        ),
    }
}

/// A text holds no '|'.
pub open spec fn no_pipe(s: Seq<char>) -> bool {
    forall|i: int| 0 <= i < s.len() ==> s[i] != '|'
}

/// An identifier is stored in the hyphenated form uuid writes.
pub open spec fn canonical_uuid(s: Seq<char>) -> bool {
    uuid_text_from(s) == Some(s)
}

/// Sources worth storing: identifiers in uuid's hyphenated form, and no
/// '|' in a signal's id or strategy.
pub open spec fn storable_source(src: OrderSource) -> bool {
    match src {
        OrderSource::Signal { signal_id, strategy_id } => canonical_uuid(signal_id@) && no_pipe(
            signal_id@,
        ) && no_pipe(strategy_id@),
        OrderSource::Manual { .. } => true,
        OrderSource::StopLoss { position_id } => canonical_uuid(position_id@),
        OrderSource::TakeProfit { position_id } => canonical_uuid(position_id@),
    }
}

/// Two order sources are the same kind with the same texts.
pub open spec fn same_source(a: OrderSource, b: OrderSource) -> bool {
    match (a, b) {
        (
            OrderSource::Signal { signal_id: s1, strategy_id: t1 },
            OrderSource::Signal { signal_id: s2, strategy_id: t2 },
        ) => s1@ == s2@ && t1@ == t2@,
        (OrderSource::Manual { nota: n1 }, OrderSource::Manual { nota: n2 }) => opt_view(n1)
            == opt_view(n2),
        (OrderSource::StopLoss { position_id: p1 }, OrderSource::StopLoss { position_id: p2 }) => p1@
            == p2@,
        (
            OrderSource::TakeProfit { position_id: p1 },
            OrderSource::TakeProfit { position_id: p2 },
        ) => p1@ == p2@,
        _ => false,
    }
}

/// What is stored of an order source reads back as that source.
pub proof fn law_order_source_round_trip(src: OrderSource)
    requires
        storable_source(src),
    ensures
        source_error(source_texts(src).0, source_texts(src).1) is None,
        forall|other: OrderSource|
            source_read(source_texts(src).0, source_texts(src).1, other) ==> same_source(other, src),
{
    reveal_strlit("signal");
    reveal_strlit("manual");
    reveal_strlit("stop_loss");
    reveal_strlit("take_profit");
    reveal_strlit("|");
    assert("signal"@.len() == 6);
    assert("manual"@.len() == 6);
    assert("stop_loss"@.len() == 9);
    assert("take_profit"@.len() == 11);
    assert("signal"@[0] != "manual"@[0]);
    match src {
        OrderSource::Signal { signal_id, strategy_id } => {
            let d = signal_id@ + "|"@ + strategy_id@;
            let k = signal_id@.len() as int;
            assert(d[k] == '|');
            assert forall|j: int| 0 <= j < d.len() && j != k implies d[j] != '|' by {
                if j < k {
                    assert(d[j] == signal_id@[j]);
                } else {
                    assert(d[j] == strategy_id@[j - k - 1]);
                }
            }
            assert(sole_at(d, '|', k));
            let c = choose|m: int| sole_at(d, '|', m);
            assert(c == k);
            assert(d.take(k) =~= signal_id@);
            assert(d.skip(k + 1) =~= strategy_id@);
            assert forall|other: OrderSource|
                source_read(source_texts(src).0, source_texts(src).1, other) implies same_source(
                other,
                src,
            ) by {
                if let OrderSource::Signal { signal_id: a, strategy_id: b } = other {
                    assert(a@ == signal_id@);
                    assert(b@ == strategy_id@);
                }
            }
        },
        OrderSource::Manual { nota } => {
            assert forall|other: OrderSource|
                source_read(source_texts(src).0, source_texts(src).1, other) implies same_source(
                other,
                src,
            ) by {
                if let OrderSource::Manual { nota: n } = other {
                    match nota {
                        Some(x) => {
                            assert(n.unwrap()@ == x@);
                        },
                        None => {},
                    }
                }
            }
        },
        OrderSource::StopLoss { position_id } => {
            assert forall|other: OrderSource|
                source_read(source_texts(src).0, source_texts(src).1, other) implies same_source(
                other,
                src,
            ) by {
                if let OrderSource::StopLoss { position_id: p } = other {
                    assert(p@ == position_id@);
                }
            }
        },
        OrderSource::TakeProfit { position_id } => {
            assert forall|other: OrderSource|
                source_read(source_texts(src).0, source_texts(src).1, other) implies same_source(
                other,
                src,
            ) by {
                if let OrderSource::TakeProfit { position_id: p } = other {
                    assert(p@ == position_id@);
                }
            }
        },
    }
}

/// The stored text of a position side.
pub fn position_side_to_string(side: PositionSide) -> (r: String)
    ensures
        position_side_of(r@) == Some(side),
{
    proof {
        reveal_strlit("long");
        reveal_strlit("short");
        assert("long"@.len() == 4);
        assert("short"@.len() == 5);
    }
    match side {
        PositionSide::Long => "long".to_string(),
        PositionSide::Short => "short".to_string(),
    }
}

/// The stored text of an order side.
pub fn order_side_to_string(side: OrderSide) -> (r: String)
    ensures
        order_side_of(r@) == Some(side),
{
    proof {
        reveal_strlit("buy");
        reveal_strlit("sell");
        assert("buy"@.len() == 3);
        assert("sell"@.len() == 4);
    }
    match side {
        OrderSide::Buy => "buy".to_string(),
        OrderSide::Sell => "sell".to_string(),
    }
}

/// The stored text of a time in force.
pub fn time_in_force_to_string(t: TimeInForce) -> (r: String)
    ensures
        time_in_force_of(r@) == Some(t),
{
    proof {
        reveal_strlit("GTC");
        reveal_strlit("IOC");
        reveal_strlit("FOK");
        reveal_strlit("GTD");
        assert("GTC"@[0] != "IOC"@[0]);
        assert("GTC"@[0] != "FOK"@[0]);
        assert("IOC"@[0] != "FOK"@[0]);
        assert("GTD"@[2] != "GTC"@[2]);
        assert("GTD"@[0] != "IOC"@[0]);
        assert("GTD"@[0] != "FOK"@[0]);
    }
    match t {
        TimeInForce::GTC => "GTC".to_string(),
        TimeInForce::IOC => "IOC".to_string(),
        TimeInForce::FOK => "FOK".to_string(),
        TimeInForce::GTD => "GTD".to_string(),
    }
}

} // verus!
