//! Domain entities shared by the trading components: orders, positions,
//! trades, signals, balances and candles.  Instants are milliseconds since
//! the Unix epoch; identifiers are texts.
use crate::clock::{new_id, now_millis};
use crate::decimal::{decimal_quotient, div_ok, mul_ok, rint, rmul, rsub, sub_ok, Dec};
use vstd::prelude::*;

verus! {

/// An exchange the system trades on.
#[derive(Clone, Copy, Debug, PartialEq, Eq, Structural)]
pub enum ExchangeId {
    BinanceFutures,
    BinanceSpot,
    KrakenFutures,
    Paper,
    Okx,
    Bybit,
}

/// Buy or sell.
#[derive(Clone, Copy, Debug, PartialEq, Eq, Structural)]
pub enum OrderSide {
    Buy,
    Sell,
}

/// Kind of order.
#[derive(Clone, Copy, Debug, PartialEq, Eq, Structural)]
pub enum OrderType {
    Market,
    Limit,
    StopLoss,
    StopLossLimit,
    TakeProfit,
    TakeProfitLimit,
    TrailingStop,
}

/// How long an order stays in force.
#[derive(Clone, Copy, Debug, PartialEq, Eq, Structural)]
pub enum TimeInForce {
    GTC,
    IOC,
    FOK,
    GTD,
}

/// Lifecycle of an order.
#[derive(Clone, Copy, Debug, PartialEq, Eq, Structural)]
pub enum OrderStatus {
    Pending,
    Submitted,
    PartiallyFilled,
    Filled,
    Cancelled,
    Rejected,
    Expired,
    Failed,
}

/// Long or short.
#[derive(Clone, Copy, Debug, PartialEq, Eq, Structural)]
pub enum PositionSide {
    Long,
    Short,
}

/// Lifecycle of a position.
#[derive(Clone, Copy, Debug, PartialEq, Eq, Structural)]
pub enum PositionStatus {
    Open,
    Closed,
    Liquidated,
}

/// Direction a signal suggests.
#[derive(Clone, Copy, Debug, PartialEq, Eq, Structural)]
pub enum TradeDirection {
    Long,
    Short,
}

/// How strong a signal is.
#[derive(Clone, Copy, Debug, PartialEq, Eq, Structural)]
pub enum SignalStrength {
    Strong,
    Moderate,
    Weak,
}

/// Where a signal stands.
#[derive(Clone, Copy, Debug, PartialEq, Eq, Structural)]
pub enum SignalStatus {
    Active,
    AwaitingConfirmation,
    Confirmed,
    Executed,
    Expired,
    Cancelled,
}

/// Why a trade was closed.
#[derive(Clone, Debug)]
pub enum TradeCloseReason {
    StopLoss,
    TakeProfit,
    TrailingStop,
    Liquidation,
    Signal,
    Manual { nota: Option<String> },
}

/// What created an order.
#[derive(Clone, Debug)]
pub enum OrderSource {
    Signal { signal_id: String, strategy_id: String },
    Manual { nota: Option<String> },
    StopLoss { position_id: String },
    TakeProfit { position_id: String },
}

/// Kind of signal.
#[derive(Clone, Debug)]
pub enum SignalType {
    Custom { name: String, description: String },
}

/// A request to place an order.
#[derive(Clone, Debug)]
pub struct OrderRequest {
    pub symbol: String,
    pub side: OrderSide,
    pub order_type: OrderType,
    pub quantity: Dec,
    pub price: Option<Dec>,
    pub stop_price: Option<Dec>,
    pub stop_loss: Option<Dec>,
    pub take_profit: Option<Dec>,
    pub time_in_force: TimeInForce,
    pub leverage: Option<u32>,
    pub reduce_only: bool,
}

/// An order.
#[derive(Clone, Debug)]
pub struct Order {
    pub id: String,
    pub client_order_id: String,
    pub exchange_order_id: Option<String>,
    pub exchange: ExchangeId,
    pub symbol: String,
    pub side: OrderSide,
    pub order_type: OrderType,
    pub quantity: Dec,
    pub price: Option<Dec>,
    pub stop_price: Option<Dec>,
    pub stop_loss: Option<Dec>,
    pub take_profit: Option<Dec>,
    pub time_in_force: TimeInForce,
    pub status: OrderStatus,
    pub filled_quantity: Dec,
    pub average_fill_price: Option<Dec>,
    pub source: OrderSource,
    pub error_message: Option<String>,
    pub created_at: i64,
    pub submitted_at: Option<i64>,
    pub filled_at: Option<i64>,
    pub updated_at: i64,
}

/// An open or closed position.
#[derive(Clone, Debug)]
pub struct Position {
    pub id: String,
    pub exchange: ExchangeId,
    pub symbol: String,
    pub side: PositionSide,
    pub quantity: Dec,
    pub entry_price: Dec,
    pub current_price: Dec,
    pub leverage: u32,
    pub margin: Dec,
    pub unrealized_pnl: Dec,
    pub unrealized_pnl_pct: Dec,
    pub realized_pnl: Dec,
    pub stop_loss_order_id: Option<String>,
    pub stop_loss_price: Option<Dec>,
    pub take_profit_order_id: Option<String>,
    pub take_profit_price: Option<Dec>,
    pub entry_order_id: String,
    pub status: PositionStatus,
    pub liquidation_price: Option<Dec>,
    pub opened_at: i64,
    pub closed_at: Option<i64>,
    pub updated_at: i64,
}

/// A completed round trip.
#[derive(Clone, Debug)]
pub struct Trade {
    pub id: String,
    pub exchange: ExchangeId,
    pub symbol: String,
    pub side: PositionSide,
    pub position_id: String,
    pub signal_id: Option<String>,
    pub entry_order_id: String,
    pub exit_order_id: String,
    pub quantity: Dec,
    pub entry_price: Dec,
    pub exit_price: Dec,
    pub fees: Dec,
    pub leverage: u32,
    pub gross_pnl: Dec,
    pub net_pnl: Dec,
    /// Price move in the position's direction, percent of the entry price.
    pub pnl_pct: Dec,
    /// The price move times the leverage: the return on the margin, percent.
    pub roi_pct: Dec,
    pub close_reason: TradeCloseReason,
    /// Whole seconds from entry to exit.
    pub duration_seconds: i64,
    pub entered_at: i64,
    pub exited_at: i64,
    /// Extra data, as JSON text.
    pub metadata: Option<String>,
}

/// A trading signal from a strategy.
#[derive(Clone, Debug)]
pub struct Signal {
    pub id: String,
    pub strategy_id: String,
    pub strategy_name: String,
    pub symbol: String,
    pub signal_type: SignalType,
    pub direction: TradeDirection,
    pub strength: SignalStrength,
    pub trigger_price: Dec,
    pub suggested_entry: Option<Dec>,
    pub suggested_stop_loss: Option<Dec>,
    pub suggested_take_profit: Option<Dec>,
    pub risk_reward_ratio: Option<Dec>,
    pub reason: String,
    /// Confidence, 0 to 100.
    pub confidence: u8,
    pub status: SignalStatus,
    pub requires_confirmation: bool,
    /// Extra data, as JSON text.
    pub metadata: Option<String>,
    pub generated_at: i64,
    pub expires_at: i64,
    pub confirmed_at: Option<i64>,
    pub executed_at: Option<i64>,
}

/// The balance of one asset.
#[derive(Clone, Debug)]
pub struct Balance {
    pub asset: String,
    pub free: Dec,
    pub locked: Dec,
}

/// A balance as asset, free and locked amounts.
pub open spec fn balance_view(b: Balance) -> (Seq<char>, (int, nat), (int, nat)) {
    (b.asset@, b.free.repr(), b.locked.repr())
}

/// Balances as asset, free and locked amounts.
pub open spec fn balance_views(bs: Seq<Balance>) -> Seq<(Seq<char>, (int, nat), (int, nat))> {
    bs.map_values(|b: Balance| balance_view(b))
}

/// One candle.
#[derive(Clone, Copy, Debug)]
pub struct Candle {
    pub open: Dec,
    pub high: Dec,
    pub low: Dec,
    pub close: Dec,
    pub volume: Dec,
    pub quote_volume: Option<Dec>,
    pub trade_count: Option<u32>,
    pub open_time: i64,
    pub close_time: i64,
}

/// An error reported by an exchange gateway.
#[derive(Clone, Debug)]
pub enum ExchangeError {
    ApiError { exchange: String, code: i32, message: String },
    InsufficientBalance { asset: String, required: String, available: String },
    InvalidQuantity { symbol: String, reason: String },
    InternalError { message: String },
}

/// Profit of a round trip before fees: the price difference times the
/// quantity, in the direction of the position.
pub open spec fn trade_gross_repr(
    side: PositionSide,
    quantity: Dec,
    entry_price: Dec,
    exit_price: Dec,
) -> (int, nat) {
    match side {
        PositionSide::Long => rmul(rsub(exit_price.repr(), entry_price.repr()), quantity.repr()),
        PositionSide::Short => rmul(rsub(entry_price.repr(), exit_price.repr()), quantity.repr()),
    }
}

/// The price move of a round trip in the position's direction.
pub open spec fn trade_move(side: PositionSide, entry_price: Dec, exit_price: Dec) -> (int, nat) {
    match side {
        PositionSide::Long => rsub(exit_price.repr(), entry_price.repr()),
        PositionSide::Short => rsub(entry_price.repr(), exit_price.repr()),
    }
}

/// The price move as a percentage of the entry price; zero without a
/// positive entry price.
pub open spec fn trade_pnl_pct(side: PositionSide, entry_price: Dec, exit_price: Dec) -> (int, nat) {
    if entry_price.v() > 0 {
        rmul(decimal_quotient(trade_move(side, entry_price, exit_price), entry_price.repr()), rint(100))
    } else {
        (0, 0)
    }
}

/// The percentages of a round trip need no rounding.
pub open spec fn trade_pct_ok(side: PositionSide, entry_price: Dec, exit_price: Dec, leverage: u32) -> bool {
    &&& entry_price.v() > 0 ==> {
        &&& div_ok(trade_move(side, entry_price, exit_price), entry_price.repr())
        &&& mul_ok(decimal_quotient(trade_move(side, entry_price, exit_price), entry_price.repr()), rint(100))
    }
    &&& mul_ok(trade_pnl_pct(side, entry_price, exit_price), rint(leverage as int))
}

/// Whole seconds from `entered_at` to `exited_at`, milliseconds apart,
/// rounded toward zero.
pub open spec fn whole_seconds(entered_at: int, exited_at: int) -> int {
    if exited_at >= entered_at {
        (exited_at - entered_at) / 1000
    } else {
        -((entered_at - exited_at) / 1000)
    }
}

/// The arithmetic of a round trip needs no rounding.
pub open spec fn trade_arith_ok(
    side: PositionSide,
    quantity: Dec,
    entry_price: Dec,
    exit_price: Dec,
    fees: Dec,
    leverage: u32,
) -> bool {
    let diff = trade_move(side, entry_price, exit_price);
    &&& match side {
        PositionSide::Long => sub_ok(exit_price.repr(), entry_price.repr()),
        PositionSide::Short => sub_ok(entry_price.repr(), exit_price.repr()),
    }
    &&& mul_ok(diff, quantity.repr())
    &&& sub_ok(rmul(diff, quantity.repr()), fees.repr())
    &&& trade_pct_ok(side, entry_price, exit_price, leverage)
}


impl TradeCloseReason {
    /// An identical copy.
    pub fn duplicate(&self) -> (r: TradeCloseReason)
        ensures
            r == *self,
    {
        match self {
            TradeCloseReason::StopLoss => TradeCloseReason::StopLoss,
            TradeCloseReason::TakeProfit => TradeCloseReason::TakeProfit,
            TradeCloseReason::TrailingStop => TradeCloseReason::TrailingStop,
            TradeCloseReason::Liquidation => TradeCloseReason::Liquidation,
            TradeCloseReason::Signal => TradeCloseReason::Signal,
            TradeCloseReason::Manual { nota } => TradeCloseReason::Manual {
                nota: match nota {
                    Some(n) => Some(n.clone()),
                    None => None,
                },
            },
        }
    }
}

/// A copy of an optional text.
pub fn copy_opt_text(s: &Option<String>) -> (r: Option<String>)
    ensures
        r == *s,
{
    match s {
        Some(t) => Some(t.clone()),
        None => None,
    }
}

impl Position {
    /// An identical copy.
    pub fn duplicate(&self) -> (r: Position)
        ensures
            r == *self,
    {
        Position {
            id: self.id.clone(),
            exchange: self.exchange,
            symbol: self.symbol.clone(),
            side: self.side,
            quantity: self.quantity,
            entry_price: self.entry_price,
            current_price: self.current_price,
            leverage: self.leverage,
            margin: self.margin,
            unrealized_pnl: self.unrealized_pnl,
            unrealized_pnl_pct: self.unrealized_pnl_pct,
            realized_pnl: self.realized_pnl,
            stop_loss_order_id: copy_opt_text(&self.stop_loss_order_id),
            stop_loss_price: self.stop_loss_price,
            take_profit_order_id: copy_opt_text(&self.take_profit_order_id),
            take_profit_price: self.take_profit_price,
            entry_order_id: self.entry_order_id.clone(),
            status: self.status,
            liquidation_price: self.liquidation_price,
            opened_at: self.opened_at,
            closed_at: self.closed_at,
            updated_at: self.updated_at,
        }
    }
    /// A fresh open position entered at `entry_price`: the current price is
    /// the entry price, nothing is realized or unrealized yet, no margin is
    /// booked and no stops are set.
    pub fn from_entry_order(
        exchange: ExchangeId,
        symbol: String,
        side: PositionSide,
        quantity: Dec,
        entry_price: Dec,
        leverage: u32,
        entry_order_id: String,
    ) -> (r: Position)
        ensures
            r.exchange == exchange,
            r.symbol == symbol,
            r.side == side,
            r.quantity == quantity,
            r.entry_price == entry_price,
            r.current_price == entry_price,
            r.leverage == leverage,
            r.margin.v() == 0,
            r.unrealized_pnl.v() == 0,
            r.unrealized_pnl_pct.v() == 0,
            r.realized_pnl.v() == 0,
            r.stop_loss_order_id is None,
            r.stop_loss_price is None,
            r.take_profit_order_id is None,
            r.take_profit_price is None,
            r.entry_order_id == entry_order_id,
            r.status == PositionStatus::Open,
            r.liquidation_price is None,
            r.closed_at is None,
            r.updated_at == r.opened_at,
    {
        let now = now_millis();
        Position {
            id: new_id(),
            exchange,
            symbol,
            side,
            quantity,
            entry_price,
            current_price: entry_price,
            leverage,
            margin: Dec::zero(),
            unrealized_pnl: Dec::zero(),
            unrealized_pnl_pct: Dec::zero(),
            realized_pnl: Dec::zero(),
            stop_loss_order_id: None,
            stop_loss_price: None,
            take_profit_order_id: None,
            take_profit_price: None,
            entry_order_id,
            status: PositionStatus::Open,
            liquidation_price: None,
            opened_at: now,
            closed_at: None,
            updated_at: now,
        }
    }
}

impl Trade {
    /// An identical copy.
    pub fn duplicate(&self) -> (r: Trade)
        ensures
            r == *self,
    {
        Trade {
            id: self.id.clone(),
            exchange: self.exchange,
            symbol: self.symbol.clone(),
            side: self.side,
            position_id: self.position_id.clone(),
            signal_id: copy_opt_text(&self.signal_id),
            entry_order_id: self.entry_order_id.clone(),
            exit_order_id: self.exit_order_id.clone(),
            quantity: self.quantity,
            entry_price: self.entry_price,
            exit_price: self.exit_price,
            fees: self.fees,
            leverage: self.leverage,
            gross_pnl: self.gross_pnl,
            net_pnl: self.net_pnl,
            pnl_pct: self.pnl_pct,
            roi_pct: self.roi_pct,
            close_reason: self.close_reason.duplicate(),
            duration_seconds: self.duration_seconds,
            entered_at: self.entered_at,
            exited_at: self.exited_at,
            metadata: copy_opt_text(&self.metadata),
        }
    }
    /// The trade that closing a position at `exit_price` makes: gross profit
    /// is the price difference times the quantity in the position's
    /// direction, net profit is gross profit less fees; the price move is
    /// also kept as a percentage of the entry price, and times the leverage;
    /// it exits now.
    pub fn from_closed_position(
        exchange: ExchangeId,
        symbol: String,
        side: PositionSide,
        position_id: String,
        signal_id: Option<String>,
        entry_order_id: String,
        exit_order_id: String,
        quantity: Dec,
        entry_price: Dec,
        exit_price: Dec,
        fees: Dec,
        leverage: u32,
        close_reason: TradeCloseReason,
        entered_at: i64,
    ) -> (r: Trade)
        requires
            trade_arith_ok(side, quantity, entry_price, exit_price, fees, leverage),
        ensures
            r.exchange == exchange,
            r.symbol == symbol,
            r.side == side,
            r.position_id == position_id,
            r.signal_id == signal_id,
            r.entry_order_id == entry_order_id,
            r.exit_order_id == exit_order_id,
            r.quantity == quantity,
            r.entry_price == entry_price,
            r.exit_price == exit_price,
            r.fees == fees,
            r.leverage == leverage,
            r.gross_pnl.repr() == trade_gross_repr(side, quantity, entry_price, exit_price),
            r.net_pnl.repr() == rsub(
                trade_gross_repr(side, quantity, entry_price, exit_price),
                fees.repr(),
            ),
            r.pnl_pct.repr() == trade_pnl_pct(side, entry_price, exit_price),
            r.roi_pct.repr() == rmul(trade_pnl_pct(side, entry_price, exit_price), rint(leverage as int)),
            r.close_reason == close_reason,
            r.entered_at == entered_at,
            0 <= r.exited_at <= crate::clock::latest_instant(),
            r.duration_seconds == whole_seconds(entered_at as int, r.exited_at as int),
            r.metadata is None,
    {
        let diff = match side {
            PositionSide::Long => exit_price.sub(entry_price),
            PositionSide::Short => entry_price.sub(exit_price),
        };
        let gross = diff.mul(quantity);
        let net = gross.sub(fees);
        let pnl_pct = if entry_price.is_positive() {
            diff.div(entry_price).mul(Dec::from_u32(100))
        } else {
            Dec::zero()
        };
        let roi_pct = pnl_pct.mul(Dec::from_u32(leverage));
        let exited_at = now_millis();
        let span: i128 = (exited_at as i128) - (entered_at as i128);
        let seconds: i128 = if span >= 0 {
            span / 1000
        } else {
            -((-span) / 1000)
        };
        Trade {
            id: new_id(),
            exchange,
            symbol,
            side,
            position_id,
            signal_id,
            entry_order_id,
            exit_order_id,
            quantity,
            entry_price,
            exit_price,
            fees,
            leverage,
            gross_pnl: gross,
            net_pnl: net,
            pnl_pct,
            roi_pct,
            close_reason,
            duration_seconds: seconds as i64,
            entered_at,
            exited_at,
            metadata: None,
        }
    }
}


impl SignalType {
    /// An identical copy.
    pub fn duplicate(&self) -> (r: SignalType)
        ensures
            r == *self,
    {
        match self {
            SignalType::Custom { name, description } => SignalType::Custom {
                name: name.clone(),
                description: description.clone(),
            },
        }
    }
}

impl OrderSource {
    /// An identical copy.
    pub fn duplicate(&self) -> (r: OrderSource)
        ensures
            r == *self,
    {
        match self {
            OrderSource::Signal { signal_id, strategy_id } => OrderSource::Signal {
                signal_id: signal_id.clone(),
                strategy_id: strategy_id.clone(),
            },
            OrderSource::Manual { nota } => OrderSource::Manual { nota: copy_opt_text(nota) },
            OrderSource::StopLoss { position_id } => OrderSource::StopLoss {
                position_id: position_id.clone(),
            },
            OrderSource::TakeProfit { position_id } => OrderSource::TakeProfit {
                position_id: position_id.clone(),
            },
        }
    }
}

impl Order {
    /// An identical copy.
    pub fn duplicate(&self) -> (r: Order)
        ensures
            r == *self,
    {
        Order {
            id: self.id.clone(),
            client_order_id: self.client_order_id.clone(),
            exchange_order_id: copy_opt_text(&self.exchange_order_id),
            symbol: self.symbol.clone(),
            source: self.source.duplicate(),
            error_message: copy_opt_text(&self.error_message),
            ..*self
        }
    }
}

impl OrderRequest {
    /// An identical copy.
    pub fn duplicate(&self) -> (r: OrderRequest)
        ensures
            r == *self,
    {
        OrderRequest { symbol: self.symbol.clone(), ..*self }
    }
}

impl Signal {
    /// An identical copy.
    pub fn duplicate(&self) -> (r: Signal)
        ensures
            r == *self,
    {
        Signal {
            id: self.id.clone(),
            strategy_id: self.strategy_id.clone(),
            strategy_name: self.strategy_name.clone(),
            symbol: self.symbol.clone(),
            signal_type: self.signal_type.duplicate(),
            direction: self.direction,
            strength: self.strength,
            trigger_price: self.trigger_price,
            suggested_entry: self.suggested_entry,
            suggested_stop_loss: self.suggested_stop_loss,
            suggested_take_profit: self.suggested_take_profit,
            risk_reward_ratio: self.risk_reward_ratio,
            reason: self.reason.clone(),
            confidence: self.confidence,
            status: self.status,
            requires_confirmation: self.requires_confirmation,
            metadata: copy_opt_text(&self.metadata),
            generated_at: self.generated_at,
            expires_at: self.expires_at,
            confirmed_at: self.confirmed_at,
            executed_at: self.executed_at,
        }
    }

    /// A new active signal with no suggested targets, generated now and
    /// valid for an hour, needing no confirmation.
    pub fn new(
        strategy_id: &str,
        strategy_name: &str,
        symbol: &str,
        signal_type: SignalType,
        direction: TradeDirection,
        strength: SignalStrength,
        trigger_price: Dec,
        reason: &str,
    ) -> (r: Signal)
        ensures
            r.strategy_id@ == strategy_id@,
            r.strategy_name@ == strategy_name@,
            r.symbol@ == symbol@,
            r.signal_type == signal_type,
            r.direction == direction,
            r.strength == strength,
            r.trigger_price == trigger_price,
            r.suggested_entry is None,
            r.suggested_stop_loss is None,
            r.suggested_take_profit is None,
            r.risk_reward_ratio is None,
            r.reason@ == reason@,
            r.confidence == 0,
            r.status == SignalStatus::Active,
            !r.requires_confirmation,
            r.metadata is None,
            0 <= r.generated_at <= crate::clock::latest_instant(),
            r.expires_at == r.generated_at + 3600000,
            r.confirmed_at is None,
            r.executed_at is None,
    {
        let now = now_millis();
        Signal {
            id: new_id(),
            strategy_id: strategy_id.to_string(),
            strategy_name: strategy_name.to_string(),
            symbol: symbol.to_string(),
            signal_type,
            direction,
            strength,
            trigger_price,
            suggested_entry: None,
            suggested_stop_loss: None,
            suggested_take_profit: None,
            risk_reward_ratio: None,
            reason: reason.to_string(),
            confidence: 0,
            status: SignalStatus::Active,
            requires_confirmation: false,
            metadata: None,
            generated_at: now,
            expires_at: now + 3600000,
            confirmed_at: None,
            executed_at: None,
        }
    }

    /// The same signal with an entry, a stop loss and a take profit.
    pub fn with_targets(self, entry: Dec, stop_loss: Dec, take_profit: Dec) -> (r: Signal)
        ensures
            r == (Signal {
                suggested_entry: Some(entry),
                suggested_stop_loss: Some(stop_loss),
                suggested_take_profit: Some(take_profit),
                ..self
            }),
    {
        Signal {
            suggested_entry: Some(entry),
            suggested_stop_loss: Some(stop_loss),
            suggested_take_profit: Some(take_profit),
            ..self
        }
    }
}

} // verus!
