//! The decisions of the stream manager: what each Binance or Kraken stream
//! event becomes as normalized events, and how it moves the connection
//! state.  The application runs the streams, hands each event here and
//! forwards what comes back.
use crate::binance::{BalanceUpdate, BinanceWsEvent, OrderUpdateEvent as BinanceOrderUpdate, PositionUpdate};
use crate::clock::now_millis;
use crate::decimal::{rabs, Dec};
use crate::kraken::{
    KrakenAccountLogEntry, KrakenBalanceEvent, KrakenFillEvent, KrakenOrderEvent,
    KrakenPositionEvent, KrakenWsEvent,
};
use crate::text::{i64_text, int_text, lower_of, text_is, to_lower, to_upper, upper_of};
use crate::ws_manager::{
    chrono_millis_in_range, timestamp_to_datetime, AccountLogEvent, AccountLogType,
    BalanceUpdateEvent, ConnectionStateEvent, ErrorEvent, Exchange, NormalizedEvent, OrderSide,
    OrderStatus, OrderUpdateEvent, PositionSide, PositionUpdateEvent, TradeEvent,
    WsConnectionState,
};
use vstd::prelude::*;
use vstd::string::*;

verus! {

/// The instant an event was stamped with, when chrono can hold it.
pub open spec fn stamped(t: i64, timestamp: i64) -> bool {
    chrono_millis_in_range(t) ==> timestamp == t
}

/// A connection-state event of `exchange`, stamped now.
pub fn connection_event(
    exchange: Exchange,
    state: WsConnectionState,
    reason: Option<String>,
) -> (r: NormalizedEvent)
    ensures
        r matches NormalizedEvent::ConnectionStateChanged(e) && e.exchange == exchange && e.state
            == state && e.reason == reason,
{
    NormalizedEvent::ConnectionStateChanged(
        ConnectionStateEvent { exchange, state, reason, timestamp: now_millis() },
    )
}

/// An error event of `exchange`, without a code, stamped now.
pub fn error_event(exchange: Exchange, message: String, recoverable: bool) -> (r: NormalizedEvent)
    ensures
        r matches NormalizedEvent::Error(e) && e.exchange == exchange && e.message == message
            && e.code is None && e.recoverable == recoverable,
{
    NormalizedEvent::Error(
        ErrorEvent { exchange, message, code: None, recoverable, timestamp: now_millis() },
    )
}

// ---------------------------------------------------------------------------
// Binance.

/// A Binance balance change as a normalized event.
pub open spec fn binance_balance_is(b: BalanceUpdate, t: i64, e: NormalizedEvent) -> bool {
    e matches NormalizedEvent::BalanceUpdate(x) && x.exchange == Exchange::Binance && x.asset
        == b.asset && x.total == b.wallet_balance && x.available == b.cross_wallet_balance
        && x.change == Some(b.balance_change) && stamped(t, x.timestamp)
}

/// The side of a Binance position ("LONG", "SHORT", else both).
pub open spec fn binance_position_side(s: Seq<char>) -> PositionSide {
    if s == "LONG"@ {
        PositionSide::Long
    } else if s == "SHORT"@ {
        PositionSide::Short
    } else {
        PositionSide::Both
    }
}

/// A Binance position change as a normalized event.
pub open spec fn binance_position_is(p: PositionUpdate, t: i64, e: NormalizedEvent) -> bool {
    e matches NormalizedEvent::PositionUpdate(x) && x.exchange == Exchange::Binance && x.symbol
        == p.symbol && x.side == binance_position_side(p.position_side@) && x.size.repr() == rabs(
        p.position_amount.repr(),
    ) && x.entry_price == p.entry_price && x.unrealized_pnl == p.unrealized_pnl && stamped(
        t,
        x.timestamp,
    )
}

/// The status of a Binance order (unknown ones new).
pub open spec fn binance_order_status(s: Seq<char>) -> OrderStatus {
    if s == "PARTIALLY_FILLED"@ {
        OrderStatus::PartiallyFilled
    } else if s == "FILLED"@ {
        OrderStatus::Filled
    } else if s == "CANCELED"@ {
        OrderStatus::Canceled
    } else if s == "REJECTED"@ {
        OrderStatus::Rejected
    } else if s == "EXPIRED"@ {
        OrderStatus::Expired
    } else {
        OrderStatus::New
    }
}

/// The side of an order named "BUY" (else sell).
pub open spec fn buy_or_sell(s: Seq<char>) -> OrderSide {
    if s == "BUY"@ {
        OrderSide::Buy
    } else {
        OrderSide::Sell
    }
}

/// A Binance order update as a normalized order event.
pub open spec fn binance_order_is(u: BinanceOrderUpdate, e: NormalizedEvent) -> bool {
    e matches NormalizedEvent::OrderUpdate(x) && x.exchange == Exchange::Binance && x.symbol
        == u.symbol && x.order_id@ == int_text(u.order_id as int) && x.client_order_id == Some(
        u.client_order_id,
    ) && x.side == buy_or_sell(u.side@) && x.order_type == u.order_type && x.status
        == binance_order_status(u.order_status@) && x.quantity == u.original_quantity
        && x.filled_quantity == u.cumulative_filled_quantity && x.avg_price == u.average_price
        && stamped(u.event_time, x.timestamp)
}

/// A Binance order update that executed a trade.
pub open spec fn binance_traded(u: BinanceOrderUpdate) -> bool {
    u.execution_type@ == "TRADE"@ && u.last_filled_quantity.v() > 0
}

/// The trade of a Binance order update as a normalized event.
pub open spec fn binance_trade_is(u: BinanceOrderUpdate, e: NormalizedEvent) -> bool {
    e matches NormalizedEvent::TradeExecuted(x) && x.exchange == Exchange::Binance && x.trade_id@
        == int_text(u.trade_id as int) && x.symbol == u.symbol && x.order_id@ == int_text(
        u.order_id as int,
    ) && x.side == buy_or_sell(u.side@) && x.price == u.last_filled_price && x.quantity
        == u.last_filled_quantity && x.commission == u.commission && x.commission_asset@ == match u.commission_asset {
        Some(a) => a@,
        None => "USDT"@,
    } && x.realized_pnl == (if u.realized_profit.v() != 0 {
        Some(u.realized_profit)
    } else {
        None
    }) && stamped(u.order_trade_time, x.timestamp)
}

/// A connection event of `exchange` into `state` for `reason`.
pub open spec fn connection_is(
    e: NormalizedEvent,
    exchange: Exchange,
    state: WsConnectionState,
    reason: Option<Seq<char>>,
) -> bool {
    e matches NormalizedEvent::ConnectionStateChanged(x) && x.exchange == exchange && x.state
        == state && match reason {
        Some(r) => x.reason is Some && x.reason.unwrap()@ == r,
        None => x.reason is None,
    }
}

/// A recoverable error event of `exchange` with `message`.
pub open spec fn error_is(e: NormalizedEvent, exchange: Exchange, message: String) -> bool {
    e matches NormalizedEvent::Error(x) && x.exchange == exchange && x.message == message
        && x.code is None && x.recoverable
}

/// The events and state a Binance stream event gives.
pub open spec fn binance_normalized(
    event: BinanceWsEvent,
    state: WsConnectionState,
    out: Seq<NormalizedEvent>,
    next: WsConnectionState,
) -> bool {
    match event {
        BinanceWsEvent::AccountUpdate(u) => {
            let nb = u.balances@.len();
            &&& next == state
            &&& out.len() == nb + u.positions@.len()
            &&& forall|k: int| 0 <= k < nb ==> binance_balance_is(u.balances@[k], u.event_time, #[trigger] out[k])
            &&& forall|k: int|
                0 <= k < u.positions@.len() ==> binance_position_is(
                    u.positions@[k],
                    u.event_time,
                    #[trigger] out[nb + k],
                )
        },
        BinanceWsEvent::OrderUpdate(u) => {
            &&& next == state
            &&& out.len() == if binance_traded(u) {
                2int
            } else {
                1int
            }
            &&& binance_order_is(u, out[0])
            &&& binance_traded(u) ==> binance_trade_is(u, out[1])
        },
        BinanceWsEvent::ListenKeyExpired => {
            &&& next == WsConnectionState::Disconnected
            &&& out.len() == 1
            &&& connection_is(
                out[0],
                Exchange::Binance,
                WsConnectionState::Disconnected,
                Some("Listen key expired"@),
            )
        },
        BinanceWsEvent::Disconnected { reason } => {
            &&& next == WsConnectionState::Disconnected
            &&& out.len() == 1
            &&& connection_is(out[0], Exchange::Binance, WsConnectionState::Disconnected, Some(reason@))
        },
        BinanceWsEvent::Error { message } => {
            &&& next == state
            &&& out.len() == 1
            &&& error_is(out[0], Exchange::Binance, message)
        },
        _ => next == state && out.len() == 0,
    }
}

fn binance_side(s: &str) -> (r: OrderSide)
    ensures
        r == buy_or_sell(s@),
{
    if text_is(s, "BUY") {
        OrderSide::Buy
    } else {
        OrderSide::Sell
    }
}

/// Normalizes a Binance stream event: an account update gives its balance
/// changes then its position changes, all stamped with its event time; an
/// order update gives the order, and its trade when it executed one; an
/// expired listen key or a disconnection disconnects; an error is reported
/// as recoverable; anything else gives nothing.
pub fn normalize_binance_event(event: BinanceWsEvent, state: WsConnectionState) -> (r: (
    Vec<NormalizedEvent>,
    WsConnectionState,
))
    ensures
        binance_normalized(event, state, r.0@, r.1),
{
    let mut out: Vec<NormalizedEvent> = Vec::new();
    match event {
        BinanceWsEvent::AccountUpdate(update) => {
            let timestamp = timestamp_to_datetime(update.event_time);
            let mut i: usize = 0;
            while i < update.balances.len()
                invariant
                    i <= update.balances@.len(),
                    out@.len() == i,
                    stamped(update.event_time, timestamp),
                    forall|k: int|
                        0 <= k < i ==> binance_balance_is(
                            update.balances@[k],
                            update.event_time,
                            #[trigger] out@[k],
                        ),
                decreases update.balances@.len() - i,
            {
                let b = &update.balances[i];
                out.push(
                    NormalizedEvent::BalanceUpdate(
                        BalanceUpdateEvent {
                            exchange: Exchange::Binance,
                            asset: b.asset.clone(),
                            total: b.wallet_balance,
                            available: b.cross_wallet_balance,
                            change: Some(b.balance_change),
                            timestamp,
                        },
                    ),
                );
                i += 1;
            }
            let nb = update.balances.len();
            let mut j: usize = 0;
            while j < update.positions.len()
                invariant
                    j <= update.positions@.len(),
                    nb == update.balances@.len(),
                    out@.len() == nb + j,
                    stamped(update.event_time, timestamp),
                    forall|k: int|
                        0 <= k < nb ==> binance_balance_is(
                            update.balances@[k],
                            update.event_time,
                            #[trigger] out@[k],
                        ),
                    forall|k: int|
                        0 <= k < j ==> binance_position_is(
                            update.positions@[k],
                            update.event_time,
                            #[trigger] out@[nb + k],
                        ),
                decreases update.positions@.len() - j,
            {
                let p = &update.positions[j];
                let ps = p.position_side.as_str();
                let side = if text_is(ps, "LONG") {
                    PositionSide::Long
                } else if text_is(ps, "SHORT") {
                    PositionSide::Short
                } else {
                    PositionSide::Both
                };
                out.push(
                    NormalizedEvent::PositionUpdate(
                        PositionUpdateEvent {
                            exchange: Exchange::Binance,
                            symbol: p.symbol.clone(),
                            side,
                            size: p.position_amount.abs(),
                            entry_price: p.entry_price,
                            unrealized_pnl: p.unrealized_pnl,
                            timestamp,
                        },
                    ),
                );
                j += 1;
            }
            (out, state)
        },
        BinanceWsEvent::OrderUpdate(update) => {
            let side = binance_side(update.side.as_str());
            let st = update.order_status.as_str();
            let status = if text_is(st, "NEW") {
                OrderStatus::New
            } else if text_is(st, "PARTIALLY_FILLED") {
                OrderStatus::PartiallyFilled
            } else if text_is(st, "FILLED") {
                OrderStatus::Filled
            } else if text_is(st, "CANCELED") {
                OrderStatus::Canceled
            } else if text_is(st, "REJECTED") {
                OrderStatus::Rejected
            } else if text_is(st, "EXPIRED") {
                OrderStatus::Expired
            } else {
                OrderStatus::New
            };
            proof {
                reveal_strlit("NEW");
                reveal_strlit("PARTIALLY_FILLED");
                reveal_strlit("FILLED");
                reveal_strlit("CANCELED");
                reveal_strlit("REJECTED");
                reveal_strlit("EXPIRED");
                assert("NEW"@.len() == 3);
                assert("PARTIALLY_FILLED"@.len() == 16);
                assert("FILLED"@.len() == 6);
                assert("CANCELED"@.len() == 8);
                assert("REJECTED"@.len() == 8);
                assert("EXPIRED"@.len() == 7);
                assert("CANCELED"@[0] != "REJECTED"@[0]);
            }
            out.push(
                NormalizedEvent::OrderUpdate(
                    OrderUpdateEvent {
                        exchange: Exchange::Binance,
                        symbol: update.symbol.clone(),
                        order_id: i64_text(update.order_id),
                        client_order_id: Some(update.client_order_id.clone()),
                        side,
                        order_type: update.order_type.clone(),
                        status,
                        quantity: update.original_quantity,
                        filled_quantity: update.cumulative_filled_quantity,
                        avg_price: update.average_price,
                        timestamp: timestamp_to_datetime(update.event_time),
                    },
                ),
            );
            if text_is(update.execution_type.as_str(), "TRADE")
                && update.last_filled_quantity.is_positive() {
                let commission_asset = match &update.commission_asset {
                    Some(a) => a.clone(),
                    None => "USDT".to_string(),
                };
                let realized_pnl = if !update.realized_profit.is_zero() {
                    Some(update.realized_profit)
                } else {
                    None
                };
                out.push(
                    NormalizedEvent::TradeExecuted(
                        TradeEvent {
                            exchange: Exchange::Binance,
                            trade_id: i64_text(update.trade_id),
                            symbol: update.symbol.clone(),
                            order_id: i64_text(update.order_id),
                            side,
                            price: update.last_filled_price,
                            quantity: update.last_filled_quantity,
                            commission: update.commission,
                            commission_asset,
                            realized_pnl,
                            timestamp: timestamp_to_datetime(update.order_trade_time),
                        },
                    ),
                );
            }
            (out, state)
        },
        BinanceWsEvent::ListenKeyExpired => {
            out.push(
                connection_event(
                    Exchange::Binance,
                    WsConnectionState::Disconnected,
                    Some("Listen key expired".to_string()),
                ),
            );
            (out, WsConnectionState::Disconnected)
        },
        BinanceWsEvent::Disconnected { reason } => {
            out.push(
                connection_event(Exchange::Binance, WsConnectionState::Disconnected, Some(reason)),
            );
            (out, WsConnectionState::Disconnected)
        },
        BinanceWsEvent::Error { message } => {
            out.push(error_event(Exchange::Binance, message, true));
            (out, state)
        },
        _ => (out, state),
    }
}

// ---------------------------------------------------------------------------
// Kraken.

/// The side of a Kraken order or fill: "BUY" in any case, else sell.
pub open spec fn kraken_side(s: Seq<char>) -> OrderSide {
    if upper_of(s) == "BUY"@ {
        OrderSide::Buy
    } else {
        OrderSide::Sell
    }
}

/// A Kraken fill as a normalized trade: no commission reported, in USD.
pub open spec fn kraken_trade_is(f: KrakenFillEvent, e: NormalizedEvent) -> bool {
    e matches NormalizedEvent::TradeExecuted(x) && x.exchange == Exchange::Kraken && x.trade_id
        == f.fill_id && x.symbol == f.symbol && x.order_id == f.order_id && x.side == kraken_side(
        f.side@,
    ) && x.price == f.price && x.quantity == f.size && x.commission.v() == 0
        && x.commission_asset@ == "USD"@ && x.realized_pnl is None && stamped(
        f.fill_time,
        x.timestamp,
    )
}

/// The status of a Kraken order, by its lower-case name (unknown ones new).
pub open spec fn kraken_order_status(lower: Seq<char>) -> OrderStatus {
    if lower == "open"@ || lower == "untouched"@ {
        OrderStatus::New
    } else if lower == "partiallyfilled"@ {
        OrderStatus::PartiallyFilled
    } else if lower == "filled"@ {
        OrderStatus::Filled
    } else if lower == "cancelled"@ {
        OrderStatus::Canceled
    } else {
        OrderStatus::New
    }
}

/// A Kraken order as a normalized order event: its limit price stands as
/// the average price (zero without one).
pub open spec fn kraken_order_is(o: KrakenOrderEvent, e: NormalizedEvent) -> bool {
    e matches NormalizedEvent::OrderUpdate(x) && x.exchange == Exchange::Kraken && x.symbol
        == o.symbol && x.order_id == o.order_id && x.client_order_id is None && x.side
        == kraken_side(o.side@) && x.order_type == o.order_type && x.status == kraken_order_status(
        lower_of(o.status@),
    ) && x.quantity == o.quantity && x.filled_quantity == o.filled_quantity && match o.limit_price {
        Some(p) => x.avg_price == p,
        None => x.avg_price.v() == 0,
    } && stamped(o.timestamp, x.timestamp)
}

/// The side of a Kraken position: "LONG" or "SHORT" in any case, else
/// both.
pub open spec fn kraken_position_side(s: Seq<char>) -> PositionSide {
    if upper_of(s) == "LONG"@ {
        PositionSide::Long
    } else if upper_of(s) == "SHORT"@ {
        PositionSide::Short
    } else {
        PositionSide::Both
    }
}

/// A Kraken position as a normalized position event, stamped now.
pub open spec fn kraken_position_is(p: KrakenPositionEvent, e: NormalizedEvent) -> bool {
    e matches NormalizedEvent::PositionUpdate(x) && x.exchange == Exchange::Kraken && x.symbol
        == p.symbol && x.side == kraken_position_side(p.side@) && x.size.repr() == rabs(
        p.size.repr(),
    ) && x.entry_price == p.entry_price && x.unrealized_pnl == p.unrealized_pnl
}

/// A Kraken balance as a normalized balance event, stamped now.
pub open spec fn kraken_balance_is(b: KrakenBalanceEvent, e: NormalizedEvent) -> bool {
    e matches NormalizedEvent::BalanceUpdate(x) && x.exchange == Exchange::Kraken && x.asset
        == b.currency && x.total == b.quantity && x.available == b.available && x.change is None
}

/// The kind of a Kraken account-log entry, by its lower-case name.
pub open spec fn log_type_is(lower: Seq<char>, t: AccountLogType) -> bool {
    if lower == "deposit"@ {
        t == AccountLogType::Deposit
    } else if lower == "withdrawal"@ {
        t == AccountLogType::Withdrawal
    } else if lower == "funding"@ || lower == "funding fee"@ {
        t == AccountLogType::FundingFee
    } else if lower == "trade"@ || lower == "commission"@ {
        t == AccountLogType::Commission
    } else if lower == "realized pnl"@ || lower == "pnl"@ {
        t == AccountLogType::RealizedPnL
    } else if lower == "transfer"@ {
        t == AccountLogType::Transfer
    } else {
        t matches AccountLogType::Other(o) && o@ == lower
    }
}

/// A Kraken account-log entry as a normalized event: its raw kind stands
/// as the description.
pub open spec fn kraken_log_is(l: KrakenAccountLogEntry, e: NormalizedEvent) -> bool {
    e matches NormalizedEvent::AccountLogEntry(x) && x.exchange == Exchange::Kraken && log_type_is(
        lower_of(l.log_type@),
        x.log_type,
    ) && x.asset == l.asset && x.amount == l.amount && x.balance == Some(l.balance)
        && x.description == Some(l.log_type) && stamped(l.timestamp, x.timestamp)
}

/// The events and state a Kraken stream event gives.
pub open spec fn kraken_normalized(
    event: KrakenWsEvent,
    state: WsConnectionState,
    out: Seq<NormalizedEvent>,
    next: WsConnectionState,
) -> bool {
    match event {
        KrakenWsEvent::Subscribed { feed } => if feed@ == "fills"@ {
            &&& next == WsConnectionState::Authenticated
            &&& out.len() == 1
            &&& connection_is(out[0], Exchange::Kraken, WsConnectionState::Authenticated, None)
        } else {
            next == state && out.len() == 0
        },
        KrakenWsEvent::Fills(fs) => {
            &&& next == state
            &&& out.len() == fs@.len()
            &&& forall|k: int| 0 <= k < fs@.len() ==> kraken_trade_is(fs@[k], #[trigger] out[k])
        },
        KrakenWsEvent::Orders(os) => {
            &&& next == state
            &&& out.len() == os@.len()
            &&& forall|k: int| 0 <= k < os@.len() ==> kraken_order_is(os@[k], #[trigger] out[k])
        },
        KrakenWsEvent::Positions(ps) => {
            &&& next == state
            &&& out.len() == ps@.len()
            &&& forall|k: int| 0 <= k < ps@.len() ==> kraken_position_is(ps@[k], #[trigger] out[k])
        },
        KrakenWsEvent::Balances(bs) => {
            &&& next == state
            &&& out.len() == bs@.len()
            &&& forall|k: int| 0 <= k < bs@.len() ==> kraken_balance_is(bs@[k], #[trigger] out[k])
        },
        KrakenWsEvent::AccountLog(ls) => {
            &&& next == state
            &&& out.len() == ls@.len()
            &&& forall|k: int| 0 <= k < ls@.len() ==> kraken_log_is(ls@[k], #[trigger] out[k])
        },
        KrakenWsEvent::Disconnected { reason } => {
            &&& next == WsConnectionState::Disconnected
            &&& out.len() == 1
            &&& connection_is(out[0], Exchange::Kraken, WsConnectionState::Disconnected, Some(reason@))
        },
        KrakenWsEvent::Error { message } => {
            &&& next == state
            &&& out.len() == 1
            &&& error_is(out[0], Exchange::Kraken, message)
        },
        KrakenWsEvent::ChallengeReceived => next == state && out.len() == 0,
    }
}

fn kraken_order_side(s: &str) -> (r: OrderSide)
    ensures
        r == kraken_side(s@),
{
    let up = to_upper(s);
    if text_is(up.as_str(), "BUY") {
        OrderSide::Buy
    } else {
        OrderSide::Sell
    }
}

fn kraken_status(s: &str) -> (r: OrderStatus)
    ensures
        r == kraken_order_status(lower_of(s@)),
{
    let low = to_lower(s);
    let l = low.as_str();
    if text_is(l, "open") || text_is(l, "untouched") {
        OrderStatus::New
    } else if text_is(l, "partiallyfilled") {
        OrderStatus::PartiallyFilled
    } else if text_is(l, "filled") {
        OrderStatus::Filled
    } else if text_is(l, "cancelled") {
        OrderStatus::Canceled
    } else {
        OrderStatus::New
    }
}

fn kraken_log_type(s: &str) -> (r: AccountLogType)
    ensures
        log_type_is(lower_of(s@), r),
{
    let low = to_lower(s);
    let l = low.as_str();
    if text_is(l, "deposit") {
        AccountLogType::Deposit
    } else if text_is(l, "withdrawal") {
        AccountLogType::Withdrawal
    } else if text_is(l, "funding") || text_is(l, "funding fee") {
        AccountLogType::FundingFee
    } else if text_is(l, "trade") || text_is(l, "commission") {
        AccountLogType::Commission
    } else if text_is(l, "realized pnl") || text_is(l, "pnl") {
        AccountLogType::RealizedPnL
    } else if text_is(l, "transfer") {
        AccountLogType::Transfer
    } else {
        AccountLogType::Other(low)
    }
}

/// Normalizes a Kraken stream event: the "fills" subscription
/// authenticates; fills, orders, positions, balances and account-log
/// entries give one event each, in order; a disconnection disconnects; an
/// error is reported as recoverable; anything else gives nothing.
pub fn normalize_kraken_event(event: KrakenWsEvent, state: WsConnectionState) -> (r: (
    Vec<NormalizedEvent>,
    WsConnectionState,
))
    ensures
        kraken_normalized(event, state, r.0@, r.1),
{
    let mut out: Vec<NormalizedEvent> = Vec::new();
    match event {
        KrakenWsEvent::Subscribed { feed } => {
            if text_is(feed.as_str(), "fills") {
                out.push(connection_event(Exchange::Kraken, WsConnectionState::Authenticated, None));
                (out, WsConnectionState::Authenticated)
            } else {
                (out, state)
            }
        },
        KrakenWsEvent::Fills(fills) => {
            let mut i: usize = 0;
            while i < fills.len()
                invariant
                    i <= fills@.len(),
                    out@.len() == i,
                    forall|k: int| 0 <= k < i ==> kraken_trade_is(fills@[k], #[trigger] out@[k]),
                decreases fills@.len() - i,
            {
                let f = &fills[i];
                proof {
                    reveal_strlit("USD");
                }
                out.push(
                    NormalizedEvent::TradeExecuted(
                        TradeEvent {
                            exchange: Exchange::Kraken,
                            trade_id: f.fill_id.clone(),
                            symbol: f.symbol.clone(),
                            order_id: f.order_id.clone(),
                            side: kraken_order_side(f.side.as_str()),
                            price: f.price,
                            quantity: f.size,
                            commission: Dec::zero(),
                            commission_asset: "USD".to_string(),
                            realized_pnl: None,
                            timestamp: timestamp_to_datetime(f.fill_time),
                        },
                    ),
                );
                i += 1;
            }
            (out, state)
        },
        KrakenWsEvent::Orders(orders) => {
            let mut i: usize = 0;
            while i < orders.len()
                invariant
                    i <= orders@.len(),
                    out@.len() == i,
                    forall|k: int| 0 <= k < i ==> kraken_order_is(orders@[k], #[trigger] out@[k]),
                decreases orders@.len() - i,
            {
                let o = &orders[i];
                let avg_price = match o.limit_price {
                    Some(p) => p,
                    None => Dec::zero(),
                };
                out.push(
                    NormalizedEvent::OrderUpdate(
                        OrderUpdateEvent {
                            exchange: Exchange::Kraken,
                            symbol: o.symbol.clone(),
                            order_id: o.order_id.clone(),
                            client_order_id: None,
                            side: kraken_order_side(o.side.as_str()),
                            order_type: o.order_type.clone(),
                            status: kraken_status(o.status.as_str()),
                            quantity: o.quantity,
                            filled_quantity: o.filled_quantity,
                            avg_price,
                            timestamp: timestamp_to_datetime(o.timestamp),
                        },
                    ),
                );
                i += 1;
            }
            (out, state)
        },
        KrakenWsEvent::Positions(positions) => {
            let mut i: usize = 0;
            while i < positions.len()
                invariant
                    i <= positions@.len(),
                    out@.len() == i,
                    forall|k: int|
                        0 <= k < i ==> kraken_position_is(positions@[k], #[trigger] out@[k]),
                decreases positions@.len() - i,
            {
                let p = &positions[i];
                let up = to_upper(p.side.as_str());
                let side = if text_is(up.as_str(), "LONG") {
                    PositionSide::Long
                } else if text_is(up.as_str(), "SHORT") {
                    PositionSide::Short
                } else {
                    PositionSide::Both
                };
                out.push(
                    NormalizedEvent::PositionUpdate(
                        PositionUpdateEvent {
                            exchange: Exchange::Kraken,
                            symbol: p.symbol.clone(),
                            side,
                            size: p.size.abs(),
                            entry_price: p.entry_price,
                            unrealized_pnl: p.unrealized_pnl,
                            timestamp: now_millis(),
                        },
                    ),
                );
                i += 1;
            }
            (out, state)
        },
        KrakenWsEvent::Balances(balances) => {
            let mut i: usize = 0;
            while i < balances.len()
                invariant
                    i <= balances@.len(),
                    out@.len() == i,
                    forall|k: int|
                        0 <= k < i ==> kraken_balance_is(balances@[k], #[trigger] out@[k]),
                decreases balances@.len() - i,
            {
                let b = &balances[i];
                out.push(
                    NormalizedEvent::BalanceUpdate(
                        BalanceUpdateEvent {
                            exchange: Exchange::Kraken,
                            asset: b.currency.clone(),
                            total: b.quantity,
                            available: b.available,
                            change: None,
                            timestamp: now_millis(),
                        },
                    ),
                );
                i += 1;
            }
            (out, state)
        },
        KrakenWsEvent::AccountLog(entries) => {
            let mut i: usize = 0;
            while i < entries.len()
                invariant
                    i <= entries@.len(),
                    out@.len() == i,
                    forall|k: int| 0 <= k < i ==> kraken_log_is(entries@[k], #[trigger] out@[k]),
                decreases entries@.len() - i,
            {
                let l = &entries[i];
                out.push(
                    NormalizedEvent::AccountLogEntry(
                        AccountLogEvent {
                            exchange: Exchange::Kraken,
                            log_type: kraken_log_type(l.log_type.as_str()),
                            asset: l.asset.clone(),
                            amount: l.amount,
                            balance: Some(l.balance),
                            description: Some(l.log_type.clone()),
                            timestamp: timestamp_to_datetime(l.timestamp),
                        },
                    ),
                );
                i += 1;
            }
            (out, state)
        },
        KrakenWsEvent::Disconnected { reason } => {
            out.push(
                connection_event(Exchange::Kraken, WsConnectionState::Disconnected, Some(reason)),
            );
            (out, WsConnectionState::Disconnected)
        },
        KrakenWsEvent::Error { message } => {
            out.push(error_event(Exchange::Kraken, message, true));
            (out, state)
        },
        KrakenWsEvent::ChallengeReceived => (out, state),
    }
}

} // verus!
