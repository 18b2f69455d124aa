//! Risk manager: validates new orders against limits, tracks the day's P&L
//! and total exposure, and disables trading when the daily loss limit is hit.
use crate::clock::now_millis;
use crate::decimal::{
    add_ok, decimal_quotient, decimal_text, div_ok, mul_ok, radd, rint, rmin, rmul, reprs, rsum,
    sum_all, sum_fits, Dec,
};
use crate::entities::{OrderRequest, OrderSide, Position, PositionSide, Trade};
use vstd::prelude::*;
use vstd::string::*;

verus! {

/// Why an order was rejected.
#[derive(Clone, Debug)]
pub enum RiskRejectionReason {
    /// The daily loss limit was reached.
    DailyLossLimitReached { current_loss: Dec, limit: Dec },
    /// Total exposure would exceed its maximum.
    MaxExposureExceeded { current: Dec, max: Dec },
    /// Too many open positions.
    MaxPositionsReached { current: usize, max: usize },
    /// Leverage too high.
    LeverageTooHigh { requested: u32, max: u32 },
    /// Position too large.
    PositionSizeTooLarge { size: Dec, max: Dec },
    /// Too much exposure in one asset.
    ConcentrationTooHigh { symbol: String, percentage: Dec },
    /// Trading is disabled.
    TradingDisabled { reason: String },
    /// The circuit breaker is open.
    CircuitBreakerActive,
}

/// The outcome of validating an order.
#[derive(Clone, Debug)]
pub enum RiskCheckResult {
    Approved,
    Rejected(RiskRejectionReason),
    ApprovedWithAdjustment { original_quantity: Dec, adjusted_quantity: Dec, reason: String },
}

/// Events the risk manager emits.
#[derive(Clone, Debug)]
pub enum RiskEvent {
    DailyLossLimitReached { loss: Dec },
    DailyLossWarning { loss: Dec, limit: Dec },
    HighExposure { current: Dec, max: Dec },
    LiquidationRisk { position_id: String, distance_pct: Dec },
    TradeRecorded { trade_id: String, pnl: Dec },
}

/// Risk limits.
#[derive(Clone, Debug)]
pub struct RiskConfig {
    /// Largest daily loss, absolute.
    pub max_daily_loss: Dec,
    /// Largest daily loss, percent of capital.
    pub max_daily_loss_pct: Dec,
    /// Largest total exposure.
    pub max_total_exposure: Dec,
    /// Most simultaneous positions.
    pub max_positions: usize,
    /// Highest leverage.
    pub max_leverage: u32,
    /// Largest single position, percent of capital.
    pub max_position_size_pct: Dec,
    /// Largest share of exposure in one asset, percent.
    pub max_concentration_pct: Dec,
    /// Percent of a limit at which a warning is emitted.
    pub warning_threshold_pct: Dec,
}

impl RiskConfig {
    /// Daily loss 1000 or 5% of capital, exposure 100000, 10 positions,
    /// leverage 20, position 20%, concentration 50%, warning at 80%.
    pub fn default() -> (r: Self)
        ensures
            r.max_daily_loss.repr() == rint(1000),
            r.max_daily_loss_pct.repr() == rint(5),
            r.max_total_exposure.repr() == rint(100000),
            r.max_positions == 10,
            r.max_leverage == 20,
            r.max_position_size_pct.repr() == rint(20),
            r.max_concentration_pct.repr() == rint(50),
            r.warning_threshold_pct.repr() == rint(80),
    {
        RiskConfig {
            max_daily_loss: Dec::from_u32(1000),
            max_daily_loss_pct: Dec::from_u32(5),
            max_total_exposure: Dec::from_u32(100000),
            max_positions: 10,
            max_leverage: 20,
            max_position_size_pct: Dec::from_u32(20),
            max_concentration_pct: Dec::from_u32(50),
            warning_threshold_pct: Dec::from_u32(80),
        }
    }
}

/// The current risk state.
#[derive(Clone, Debug)]
pub struct RiskState {
    pub daily_pnl: Dec,
    pub total_exposure: Dec,
    pub open_positions: usize,
    pub trading_enabled: bool,
    pub disabled_reason: Option<String>,
    pub last_update: i64,
}

impl RiskState {
    /// An identical copy.
    pub fn duplicate(&self) -> (r: RiskState)
        ensures
            r == *self,
    {
        RiskState {
            daily_pnl: self.daily_pnl,
            total_exposure: self.total_exposure,
            open_positions: self.open_positions,
            trading_enabled: self.trading_enabled,
            disabled_reason: match &self.disabled_reason {
                Some(s) => Some(s.clone()),
                None => None,
            },
            last_update: self.last_update,
        }
    }
}

// ---------------------------------------------------------------------------
// What validation computes.

/// The daily loss limit: the smaller of the absolute limit and the
/// percentage of capital.
pub open spec fn daily_limit(cfg: RiskConfig, capital: Dec) -> (int, nat) {
    rmin(
        cfg.max_daily_loss.repr(),
        decimal_quotient(rmul(capital.repr(), cfg.max_daily_loss_pct.repr()), rint(100)),
    )
}

/// The order's price, zero when it has none.
pub open spec fn price_or_zero(order: OrderRequest) -> (int, nat) {
    match order.price {
        Some(p) => p.repr(),
        None => (0, 0),
    }
}

/// The leverage the order asks for (1 when it does not say).
pub open spec fn leverage_of(order: OrderRequest) -> u32 {
    match order.leverage {
        Some(l) => l,
        None => 1,
    }
}

/// Quantity times price.
pub open spec fn order_value(order: OrderRequest) -> (int, nat) {
    rmul(order.quantity.repr(), price_or_zero(order))
}

/// The largest position value the capital allows.
pub open spec fn max_position_value(cfg: RiskConfig, capital: Dec) -> (int, nat) {
    decimal_quotient(rmul(capital.repr(), cfg.max_position_size_pct.repr()), rint(100))
}

/// The order's value times its leverage.
pub open spec fn levered_value(order: OrderRequest) -> (int, nat) {
    rmul(order_value(order), rint(leverage_of(order) as int))
}

/// Total exposure with the order.
pub open spec fn exposure_with(state: RiskState, order: OrderRequest) -> (int, nat) {
    radd(state.total_exposure.repr(), levered_value(order))
}

/// Quantity times current price times leverage.
pub open spec fn position_exposure(p: Position) -> (int, nat) {
    rmul(rmul(p.quantity.repr(), p.current_price.repr()), rint(p.leverage as int))
}

/// Quantity times current price times leverage needs no rounding.
pub open spec fn position_exposure_ok(p: Position) -> bool {
    &&& mul_ok(p.quantity.repr(), p.current_price.repr())
    &&& mul_ok(rmul(p.quantity.repr(), p.current_price.repr()), rint(p.leverage as int))
}

/// The exposures of the positions in `symbol`, in order.
pub open spec fn symbol_exposures(ps: Seq<Position>, symbol: Seq<char>) -> Seq<(int, nat)>
    decreases ps.len(),
{
    if ps.len() == 0 {
        Seq::empty()
    } else if ps.last().symbol@ == symbol {
        symbol_exposures(ps.drop_last(), symbol).push(position_exposure(ps.last()))
    } else {
        symbol_exposures(ps.drop_last(), symbol)
    }
}

/// The exposures of all positions, in order.
pub open spec fn all_exposures(ps: Seq<Position>) -> Seq<(int, nat)> {
    ps.map_values(|p: Position| position_exposure(p))
}

/// Whether some position in the order's symbol is on the side the order
/// would close.
pub open spec fn closes_position(p: Position, order: OrderRequest) -> bool {
    &&& p.symbol@ == order.symbol@
    &&& ((p.side == PositionSide::Long && order.side == OrderSide::Sell) || (p.side
        == PositionSide::Short && order.side == OrderSide::Buy))
}

pub open spec fn is_closing(ps: Seq<Position>, order: OrderRequest) -> bool {
    exists|i: int| 0 <= i < ps.len() && closes_position(#[trigger] ps[i], order)
}

/// The order's symbol exposure (existing plus the order).
pub open spec fn symbol_exposure_with(ps: Seq<Position>, order: OrderRequest) -> (int, nat) {
    radd(rsum(symbol_exposures(ps, order.symbol@)), levered_value(order))
}

/// The order's symbol share of total exposure, percent.
pub open spec fn concentration(ps: Seq<Position>, state: RiskState, order: OrderRequest) -> (
    int,
    nat,
) {
    rmul(
        decimal_quotient(symbol_exposure_with(ps, order), exposure_with(state, order)),
        rint(100),
    )
}

/// Which check decides an order.
pub enum RiskVerdict {
    Disabled,
    DailyLoss,
    MaxPositions,
    Leverage,
    Adjust,
    Exposure,
    Concentration,
    Approved,
}

pub open spec fn daily_loss_hit(cfg: RiskConfig, state: RiskState, capital: Dec) -> bool {
    state.daily_pnl.v() < 0 && -state.daily_pnl.v() >= daily_limit(cfg, capital).0
}

pub open spec fn too_many_positions(cfg: RiskConfig, ps: Seq<Position>, order: OrderRequest) -> bool {
    ps.len() >= cfg.max_positions && !is_closing(ps, order)
}

pub open spec fn too_concentrated(
    cfg: RiskConfig,
    ps: Seq<Position>,
    state: RiskState,
    order: OrderRequest,
) -> bool {
    &&& ps.len() > 0
    &&& exposure_with(state, order).0 > 0
    &&& concentration(ps, state, order).0 > cfg.max_concentration_pct.v()
}

/// The check that decides, in the order the checks run.
pub open spec fn risk_verdict(
    cfg: RiskConfig,
    state: RiskState,
    capital: Dec,
    order: OrderRequest,
    ps: Seq<Position>,
) -> RiskVerdict {
    if !state.trading_enabled {
        RiskVerdict::Disabled
    } else if daily_loss_hit(cfg, state, capital) {
        RiskVerdict::DailyLoss
    } else if too_many_positions(cfg, ps, order) {
        RiskVerdict::MaxPositions
    } else if leverage_of(order) > cfg.max_leverage {
        RiskVerdict::Leverage
    } else if order_value(order).0 > max_position_value(cfg, capital).0 {
        RiskVerdict::Adjust
    } else if exposure_with(state, order).0 > cfg.max_total_exposure.v() {
        RiskVerdict::Exposure
    } else if too_concentrated(cfg, ps, state, order) {
        RiskVerdict::Concentration
    } else {
        RiskVerdict::Approved
    }
}

/// The arithmetic validation performs needs no rounding, on the path it
/// takes.
pub open spec fn validation_arith_ok(
    cfg: RiskConfig,
    state: RiskState,
    capital: Dec,
    order: OrderRequest,
    ps: Seq<Position>,
) -> bool {
    state.trading_enabled ==> {
        &&& mul_ok(capital.repr(), cfg.max_daily_loss_pct.repr())
        &&& div_ok(rmul(capital.repr(), cfg.max_daily_loss_pct.repr()), rint(100))
        &&& (!daily_loss_hit(cfg, state, capital) && !too_many_positions(cfg, ps, order)
            && leverage_of(order) <= cfg.max_leverage) ==> {
            &&& mul_ok(order.quantity.repr(), price_or_zero(order))
            &&& mul_ok(capital.repr(), cfg.max_position_size_pct.repr())
            &&& div_ok(rmul(capital.repr(), cfg.max_position_size_pct.repr()), rint(100))
            &&& (order_value(order).0 > max_position_value(cfg, capital).0 && price_or_zero(
                order,
            ).0 > 0) ==> div_ok(max_position_value(cfg, capital), price_or_zero(order))
            &&& order_value(order).0 <= max_position_value(cfg, capital).0 ==> {
                &&& mul_ok(order_value(order), rint(leverage_of(order) as int))
                &&& add_ok(state.total_exposure.repr(), levered_value(order))
                &&& (exposure_with(state, order).0 <= cfg.max_total_exposure.v() && ps.len()
                    > 0) ==> {
                    &&& forall|i: int|
                        0 <= i < ps.len() && ps[i].symbol@ == order.symbol@
                            ==> #[trigger] position_exposure_ok(ps[i])
                    &&& sum_fits(symbol_exposures(ps, order.symbol@))
                    &&& add_ok(rsum(symbol_exposures(ps, order.symbol@)), levered_value(order))
                    &&& exposure_with(state, order).0 > 0 ==> {
                        &&& div_ok(symbol_exposure_with(ps, order), exposure_with(state, order))
                        &&& mul_ok(
                            decimal_quotient(
                                symbol_exposure_with(ps, order),
                                exposure_with(state, order),
                            ),
                            rint(100),
                        )
                    }
                }
            }
        }
    }
}

/// The text explaining a size adjustment.
pub open spec fn adjustment_text(original: Dec, adjusted: Dec, pct: Dec) -> Seq<char> {
    "Tamanho reduzido de "@ + decimal_text(original.repr()) + " para "@ + decimal_text(
        adjusted.repr(),
    ) + " para respeitar limite de "@ + decimal_text(pct.repr()) + "% do capital"@
}

/// The text recorded when the daily loss limit disables trading.
pub open spec fn daily_limit_text() -> Seq<char> {
    "Limite de perda diária atingido"@
}

/// What `validate_order` returns, given which check decided.
pub open spec fn result_matches(
    r: RiskCheckResult,
    cfg: RiskConfig,
    state: RiskState,
    capital: Dec,
    order: OrderRequest,
    ps: Seq<Position>,
) -> bool {
    match risk_verdict(cfg, state, capital, order, ps) {
        RiskVerdict::Disabled => r matches RiskCheckResult::Rejected(
            RiskRejectionReason::TradingDisabled { reason },
        ) && reason@ == match state.disabled_reason {
            Some(s) => s@,
            None => Seq::empty(),
        },
        RiskVerdict::DailyLoss => r matches RiskCheckResult::Rejected(
            RiskRejectionReason::DailyLossLimitReached { current_loss, limit },
        ) && current_loss.repr() == (-state.daily_pnl.v(), state.daily_pnl.sc()) && limit.repr()
            == daily_limit(cfg, capital),
        RiskVerdict::MaxPositions => r matches RiskCheckResult::Rejected(
            RiskRejectionReason::MaxPositionsReached { current, max },
        ) && current == ps.len() && max == cfg.max_positions,
        RiskVerdict::Leverage => r matches RiskCheckResult::Rejected(
            RiskRejectionReason::LeverageTooHigh { requested, max },
        ) && requested == leverage_of(order) && max == cfg.max_leverage,
        RiskVerdict::Adjust => r matches RiskCheckResult::ApprovedWithAdjustment {
            original_quantity,
            adjusted_quantity,
            reason,
        } && original_quantity == order.quantity && (if price_or_zero(order).0 > 0 {
            adjusted_quantity.repr() == decimal_quotient(
                max_position_value(cfg, capital),
                price_or_zero(order),
            )
        } else {
            adjusted_quantity == order.quantity
        }) && reason@ == adjustment_text(
            order.quantity,
            adjusted_quantity,
            cfg.max_position_size_pct,
        ),
        RiskVerdict::Exposure => r matches RiskCheckResult::Rejected(
            RiskRejectionReason::MaxExposureExceeded { current, max },
        ) && current == state.total_exposure && max == cfg.max_total_exposure,
        RiskVerdict::Concentration => r matches RiskCheckResult::Rejected(
            RiskRejectionReason::ConcentrationTooHigh { symbol, percentage },
        ) && symbol@ == order.symbol@ && percentage.repr() == concentration(ps, state, order),
        RiskVerdict::Approved => r matches RiskCheckResult::Approved,
    }
}

/// The risk manager.
pub struct RiskManager {
    config: RiskConfig,
    state: RiskState,
    trade_history: Vec<(i64, Dec)>,
    capital: Dec,
    events: Vec<RiskEvent>,
}

/// Drops the leading trades older than `cutoff`.
pub open spec fn drop_older_trades(ts: Seq<(i64, Dec)>, cutoff: int) -> Seq<(i64, Dec)>
    decreases ts.len(),
{
    if ts.len() > 0 && ts[0].0 < cutoff {
        drop_older_trades(ts.drop_first(), cutoff)
    } else {
        ts
    }
}

/// The P&L of a list of trades.
pub open spec fn trade_pnls(ts: Seq<(i64, Dec)>) -> Seq<(int, nat)> {
    ts.map_values(|p: (i64, Dec)| p.1.repr())
}

/// The trades of the last 24 hours at `now`, after recording one.
pub open spec fn history_after(history: Seq<(i64, Dec)>, trade: Trade, now: int) -> Seq<(i64, Dec)> {
    drop_older_trades(history.push((trade.exited_at, trade.net_pnl)), now - 86400000)
}

impl RiskManager {
    pub closed spec fn cfg(&self) -> RiskConfig {
        self.config
    }

    pub closed spec fn risk_state(&self) -> RiskState {
        self.state
    }

    pub closed spec fn capital_amount(&self) -> Dec {
        self.capital
    }

    pub closed spec fn history(&self) -> Seq<(i64, Dec)> {
        self.trade_history@
    }

    pub closed spec fn pending_events(&self) -> Seq<RiskEvent> {
        self.events@
    }

    /// A manager with trading enabled, no P&L and no exposure.
    pub fn new(config: RiskConfig, initial_capital: Dec) -> (r: Self)
        ensures
            r.cfg() == config,
            r.capital_amount() == initial_capital,
            r.risk_state().trading_enabled,
            r.risk_state().disabled_reason is None,
            r.risk_state().daily_pnl.v() == 0,
            r.risk_state().total_exposure.v() == 0,
            r.risk_state().open_positions == 0,
            r.history().len() == 0,
            r.pending_events().len() == 0,
    {
        let now = now_millis();
        RiskManager {
            config,
            state: RiskState {
                daily_pnl: Dec::zero(),
                total_exposure: Dec::zero(),
                open_positions: 0,
                trading_enabled: true,
                disabled_reason: None,
                last_update: now,
            },
            trade_history: Vec::new(),
            capital: initial_capital,
            events: Vec::new(),
        }
    }

    /// The default limits with a capital of 10000.
    pub fn default() -> (r: Self)
        ensures
            r.capital_amount().repr() == rint(10000),
            r.cfg().max_leverage == 20,
            r.cfg().max_positions == 10,
            r.risk_state().trading_enabled,
            r.risk_state().disabled_reason is None,
            r.history().len() == 0,
    {
        Self::new(RiskConfig::default(), Dec::from_u32(10000))
    }

    /// The configuration.
    pub fn config(&self) -> (r: &RiskConfig)
        ensures
            *r == self.cfg(),
    {
        &self.config
    }

    /// A copy of the current state.
    pub fn get_state(&self) -> (r: RiskState)
        ensures
            r == self.risk_state(),
    {
        self.state.duplicate()
    }

    /// Hands out the events emitted so far and forgets them.
    pub fn drain_events(&mut self) -> (r: Vec<RiskEvent>)
        ensures
            r@ == old(self).pending_events(),
            final(self).pending_events().len() == 0,
            final(self).cfg() == old(self).cfg(),
            final(self).risk_state() == old(self).risk_state(),
            final(self).capital_amount() == old(self).capital_amount(),
            final(self).history() == old(self).history(),
    {
        let mut out = Vec::new();
        std::mem::swap(&mut out, &mut self.events);
        out
    }

    /// Whether a position closes on the order's side.
    fn any_closing(order: &OrderRequest, positions: &Vec<Position>) -> (r: bool)
        ensures
            r == is_closing(positions@, *order),
    {
        let mut i: usize = 0;
        while i < positions.len()
            invariant
                i <= positions.len(),
                forall|j: int| 0 <= j < i ==> !closes_position(#[trigger] positions@[j], *order),
            decreases positions.len() - i,
        {
            let p = &positions[i];
            if p.symbol == order.symbol && ((p.side == PositionSide::Long && order.side
                == OrderSide::Sell) || (p.side == PositionSide::Short && order.side
                == OrderSide::Buy)) {
                assert(closes_position(positions@[i as int], *order));
                return true;
            }
            i += 1;
        }
        false
    }

    /// The exposures of the positions in `symbol`.
    fn exposures_in(positions: &Vec<Position>, symbol: &String) -> (r: Vec<Dec>)
        requires
            forall|i: int|
                0 <= i < positions@.len() && positions@[i].symbol@ == symbol@
                    ==> #[trigger] position_exposure_ok(positions@[i]),
        ensures
            reprs(r@) == symbol_exposures(positions@, symbol@),
    {
        let mut out: Vec<Dec> = Vec::new();
        let mut i: usize = 0;
        assert(positions@.take(0) =~= Seq::<Position>::empty());
        while i < positions.len()
            invariant
                i <= positions.len(),
                forall|k: int|
                    0 <= k < positions@.len() && positions@[k].symbol@ == symbol@
                        ==> #[trigger] position_exposure_ok(positions@[k]),
                reprs(out@) == symbol_exposures(positions@.take(i as int), symbol@),
            decreases positions.len() - i,
        {
            let p = &positions[i];
            assert(positions@.take(i as int + 1).drop_last() =~= positions@.take(i as int));
            if p.symbol == *symbol {
                assert(position_exposure_ok(positions@[i as int]));
                let e = p.quantity.mul(p.current_price).mul(Dec::from_u32(p.leverage));
                let ghost before = out@;
                out.push(e);
                assert(reprs(out@) =~= reprs(before).push(e.repr()));
            }
            i += 1;
        }
        assert(positions@.take(positions.len() as int) =~= positions@);
        out
    }

    /// Validates an order against the limits, given the open positions.
    pub fn validate_order(&self, order: &OrderRequest, current_positions: &Vec<Position>) -> (r:
        RiskCheckResult)
        requires
            validation_arith_ok(
                self.cfg(),
                self.risk_state(),
                self.capital_amount(),
                *order,
                current_positions@,
            ),
        ensures
            result_matches(
                r,
                self.cfg(),
                self.risk_state(),
                self.capital_amount(),
                *order,
                current_positions@,
            ),
    {
        let capital = self.capital;
        let cfg = &self.config;
        // 1. Trading must be enabled.
        if !self.state.trading_enabled {
            let reason = match &self.state.disabled_reason {
                Some(s) => s.clone(),
                None => String::new(),
            };
            return RiskCheckResult::Rejected(RiskRejectionReason::TradingDisabled { reason });
        }
        // 2. Daily loss limit.

        let hundred = Dec::from_u32(100);
        let pct_of_capital = capital.mul(cfg.max_daily_loss_pct).div(hundred);
        let daily_loss_limit = cfg.max_daily_loss.min(&pct_of_capital);
        if self.state.daily_pnl.is_negative() && self.state.daily_pnl.abs().ge(&daily_loss_limit) {
            return RiskCheckResult::Rejected(
                RiskRejectionReason::DailyLossLimitReached {
                    current_loss: self.state.daily_pnl.abs(),
                    limit: daily_loss_limit,
                },
            );
        }
        // 3. Number of positions.

        let current_count = current_positions.len();
        if current_count >= cfg.max_positions {
            if !Self::any_closing(order, current_positions) {
                return RiskCheckResult::Rejected(
                    RiskRejectionReason::MaxPositionsReached {
                        current: current_count,
                        max: cfg.max_positions,
                    },
                );
            }
        }
        // 4. Leverage.

        let leverage = match order.leverage {
            Some(l) => l,
            None => 1,
        };
        if leverage > cfg.max_leverage {
            return RiskCheckResult::Rejected(
                RiskRejectionReason::LeverageTooHigh { requested: leverage, max: cfg.max_leverage },
            );
        }
        // 5. Position size.

        let price = match order.price {
            Some(p) => p,
            None => Dec::zero(),
        };
        let order_value = order.quantity.mul(price);
        let max_position_value = capital.mul(cfg.max_position_size_pct).div(hundred);
        if order_value.gt(&max_position_value) {
            let adjusted_quantity = if price.is_positive() {
                max_position_value.div(price)
            } else {
                order.quantity
            };
            let mut reason = String::new();
            reason.append("Tamanho reduzido de ");
            reason.append(&order.quantity.to_text());
            reason.append(" para ");
            reason.append(&adjusted_quantity.to_text());
            reason.append(" para respeitar limite de ");
            reason.append(&cfg.max_position_size_pct.to_text());
            reason.append("% do capital");
            assert(reason@ =~= adjustment_text(
                order.quantity,
                adjusted_quantity,
                cfg.max_position_size_pct,
            ));
            return RiskCheckResult::ApprovedWithAdjustment {
                original_quantity: order.quantity,
                adjusted_quantity,
                reason,
            };
        }
        // 6. Total exposure.

        let levered = order_value.mul(Dec::from_u32(leverage));
        let new_exposure = self.state.total_exposure.add(levered);
        if new_exposure.gt(&cfg.max_total_exposure) {
            return RiskCheckResult::Rejected(
                RiskRejectionReason::MaxExposureExceeded {
                    current: self.state.total_exposure,
                    max: cfg.max_total_exposure,
                },
            );
        }
        // 7. Concentration, when other positions exist.

        if current_positions.len() > 0 {
            let exposures = Self::exposures_in(current_positions, &order.symbol);
            let symbol_exposure = sum_all(&exposures);
            let new_symbol_exposure = symbol_exposure.add(levered);
            let total_with_new = self.state.total_exposure.add(levered);
            if total_with_new.is_positive() {
                let concentration = new_symbol_exposure.div(total_with_new).mul(hundred);
                if concentration.gt(&cfg.max_concentration_pct) {
                    return RiskCheckResult::Rejected(
                        RiskRejectionReason::ConcentrationTooHigh {
                            symbol: order.symbol.clone(),
                            percentage: concentration,
                        },
                    );
                }
            }
        }
        RiskCheckResult::Approved
    }

    /// Records a completed trade at `now`: the trades of the last 24 hours
    /// make the day's P&L; a loss at the warning level emits a warning, a
    /// loss at the limit disables trading.
    pub fn record_trade_at(&mut self, trade: &Trade, now: i64)
        requires
            record_arith_ok(
                old(self).cfg(),
                old(self).capital_amount(),
                history_after(old(self).history(), *trade, now as int),
            ),
        ensures
            record_effect(*old(self), *final(self), *trade, now as int),
    {
        let ghost old_self = *self;
        self.trade_history.push((trade.exited_at, trade.net_pnl));
        let cutoff = (now as i128) - 86400000;
        while self.trade_history.len() > 0 && (self.trade_history[0].0 as i128) < cutoff
            invariant
                drop_older_trades(self.trade_history@, cutoff as int) == history_after(
                    old_self.trade_history@,
                    *trade,
                    now as int,
                ),
                self.config == old_self.config,
                self.capital == old_self.capital,
                self.state == old_self.state,
                self.events == old_self.events,
            decreases self.trade_history.len(),
        {
            let ghost before = self.trade_history@;
            self.trade_history.remove(0);
            assert(self.trade_history@ =~= before.drop_first());
        }
        let mut pnls: Vec<Dec> = Vec::new();
        let mut i: usize = 0;
        while i < self.trade_history.len()
            invariant
                i <= self.trade_history.len(),
                pnls@.len() == i,
                forall|k: int| 0 <= k < i ==> pnls@[k] == #[trigger] self.trade_history@[k].1,
            decreases self.trade_history.len() - i,
        {
            pnls.push(self.trade_history[i].1);
            i += 1;
        }
        assert(reprs(pnls@) =~= trade_pnls(self.trade_history@));
        let daily_pnl = sum_all(&pnls);
        self.state.daily_pnl = daily_pnl;
        self.state.last_update = now;
        self.events.push(RiskEvent::TradeRecorded { trade_id: trade.id.clone(), pnl: trade.net_pnl });
        let hundred = Dec::from_u32(100);
        let pct_of_capital = self.capital.mul(self.config.max_daily_loss_pct).div(hundred);
        let daily_loss_limit = self.config.max_daily_loss.min(&pct_of_capital);
        if daily_pnl.is_negative() {
            let loss = daily_pnl.abs();
            let warning_level = daily_loss_limit.mul(self.config.warning_threshold_pct).div(
                hundred,
            );
            if loss.ge(&warning_level) && loss.lt(&daily_loss_limit) {
                self.events.push(RiskEvent::DailyLossWarning { loss, limit: daily_loss_limit });
            }
            if loss.ge(&daily_loss_limit) {
                self.state.trading_enabled = false;
                self.state.disabled_reason = Some("Limite de perda diária atingido".to_string());
                self.events.push(RiskEvent::DailyLossLimitReached { loss });
            }
        }
        assert(self.events@.subrange(0, old_self.events@.len() as int) =~= old_self.events@);
    }

    /// Records a completed trade now.
    pub fn record_trade(&mut self, trade: &Trade)
        requires
            forall|now: int|
                0 <= now <= crate::clock::latest_instant() ==> record_arith_ok(
                    old(self).cfg(),
                    old(self).capital_amount(),
                    history_after(old(self).history(), *trade, now),
                ),
        ensures
            exists|now: int|
                0 <= now <= crate::clock::latest_instant() && record_effect(
                    *old(self),
                    *final(self),
                    *trade,
                    now,
                ),
    {
        let now = now_millis();
        self.record_trade_at(trade, now);
    }

    /// Sets total exposure and the position count from the open positions,
    /// emitting a warning when exposure passes the warning level.
    pub fn update_exposure_at(&mut self, positions: &Vec<Position>, now: i64)
        requires
            forall|i: int|
                0 <= i < positions@.len() ==> #[trigger] position_exposure_ok(positions@[i]),
            sum_fits(all_exposures(positions@)),
            mul_ok(
                old(self).cfg().max_total_exposure.repr(),
                old(self).cfg().warning_threshold_pct.repr(),
            ),
            div_ok(
                rmul(
                    old(self).cfg().max_total_exposure.repr(),
                    old(self).cfg().warning_threshold_pct.repr(),
                ),
                rint(100),
            ),
        ensures
            final(self).cfg() == old(self).cfg(),
            final(self).capital_amount() == old(self).capital_amount(),
            final(self).history() == old(self).history(),
            final(self).risk_state() == (RiskState {
                total_exposure: final(self).risk_state().total_exposure,
                open_positions: positions@.len() as usize,
                last_update: now,
                ..old(self).risk_state()
            }),
            final(self).risk_state().total_exposure.repr() == rsum(all_exposures(positions@)),
            final(self).pending_events() == if rsum(all_exposures(positions@)).0
                > decimal_quotient(
                rmul(
                    old(self).cfg().max_total_exposure.repr(),
                    old(self).cfg().warning_threshold_pct.repr(),
                ),
                rint(100),
            ).0 {
                old(self).pending_events().push(
                    RiskEvent::HighExposure {
                        current: final(self).risk_state().total_exposure,
                        max: old(self).cfg().max_total_exposure,
                    },
                )
            } else {
                old(self).pending_events()
            },
    {
        let mut exposures: Vec<Dec> = Vec::new();
        let mut i: usize = 0;
        while i < positions.len()
            invariant
                i <= positions.len(),
                forall|k: int|
                    0 <= k < positions@.len() ==> #[trigger] position_exposure_ok(positions@[k]),
                exposures@.len() == i,
                forall|k: int|
                    0 <= k < i ==> (#[trigger] exposures@[k]).repr() == position_exposure(
                        positions@[k],
                    ),
            decreases positions.len() - i,
        {
            let p = &positions[i];
            assert(position_exposure_ok(positions@[i as int]));
            exposures.push(p.quantity.mul(p.current_price).mul(Dec::from_u32(p.leverage)));
            i += 1;
        }
        assert(reprs(exposures@) =~= all_exposures(positions@));
        let total = sum_all(&exposures);
        self.state.total_exposure = total;
        self.state.open_positions = positions.len();
        self.state.last_update = now;
        let warning = self.config.max_total_exposure.mul(self.config.warning_threshold_pct).div(
            Dec::from_u32(100),
        );
        if total.gt(&warning) {
            self.events.push(
                RiskEvent::HighExposure { current: total, max: self.config.max_total_exposure },
            );
        }
    }

    /// Sets total exposure and the position count from the open positions
    /// now, emitting a warning when exposure passes the warning level.
    pub fn update_exposure(&mut self, positions: &Vec<Position>)
        requires
            forall|i: int|
                0 <= i < positions@.len() ==> #[trigger] position_exposure_ok(positions@[i]),
            sum_fits(all_exposures(positions@)),
            mul_ok(
                old(self).cfg().max_total_exposure.repr(),
                old(self).cfg().warning_threshold_pct.repr(),
            ),
            div_ok(
                rmul(
                    old(self).cfg().max_total_exposure.repr(),
                    old(self).cfg().warning_threshold_pct.repr(),
                ),
                rint(100),
            ),
        ensures
            final(self).cfg() == old(self).cfg(),
            final(self).capital_amount() == old(self).capital_amount(),
            final(self).history() == old(self).history(),
            final(self).risk_state() == (RiskState {
                total_exposure: final(self).risk_state().total_exposure,
                open_positions: positions@.len() as usize,
                last_update: final(self).risk_state().last_update,
                ..old(self).risk_state()
            }),
            0 <= final(self).risk_state().last_update <= crate::clock::latest_instant(),
            final(self).risk_state().total_exposure.repr() == rsum(all_exposures(positions@)),
            final(self).pending_events() == if rsum(all_exposures(positions@)).0
                > decimal_quotient(
                rmul(
                    old(self).cfg().max_total_exposure.repr(),
                    old(self).cfg().warning_threshold_pct.repr(),
                ),
                rint(100),
            ).0 {
                old(self).pending_events().push(
                    RiskEvent::HighExposure {
                        current: final(self).risk_state().total_exposure,
                        max: old(self).cfg().max_total_exposure,
                    },
                )
            } else {
                old(self).pending_events()
            },
    {
        let now = now_millis();
        self.update_exposure_at(positions, now);
    }

    /// Replaces the capital.
    pub fn update_capital(&mut self, new_capital: Dec)
        ensures
            final(self).capital_amount() == new_capital,
            final(self).cfg() == old(self).cfg(),
            final(self).risk_state() == old(self).risk_state(),
            final(self).history() == old(self).history(),
            final(self).pending_events() == old(self).pending_events(),
    {
        self.capital = new_capital;
    }

    /// Enables trading and clears the reason it was disabled.
    pub fn enable_trading(&mut self)
        ensures
            final(self).risk_state() == (RiskState {
                trading_enabled: true,
                disabled_reason: None,
                ..old(self).risk_state()
            }),
            final(self).cfg() == old(self).cfg(),
            final(self).capital_amount() == old(self).capital_amount(),
            final(self).history() == old(self).history(),
            final(self).pending_events() == old(self).pending_events(),
    {
        self.state.trading_enabled = true;
        self.state.disabled_reason = None;
    }

    /// Disables trading, recording why.
    pub fn disable_trading(&mut self, reason: &str)
        ensures
            final(self).risk_state().trading_enabled == false,
            final(self).risk_state().disabled_reason matches Some(s) && s@ == reason@,
            final(self).risk_state().daily_pnl == old(self).risk_state().daily_pnl,
            final(self).risk_state().total_exposure == old(self).risk_state().total_exposure,
            final(self).risk_state().open_positions == old(self).risk_state().open_positions,
            final(self).risk_state().last_update == old(self).risk_state().last_update,
            final(self).cfg() == old(self).cfg(),
            final(self).capital_amount() == old(self).capital_amount(),
            final(self).history() == old(self).history(),
            final(self).pending_events() == old(self).pending_events(),
    {
        self.state.trading_enabled = false;
        self.state.disabled_reason = Some(reason.to_string());
    }

    /// Starts a new day at `now`: forgets the trade history, zeroes the
    /// day's P&L and enables trading.
    pub fn daily_reset_at(&mut self, now: i64)
        ensures
            final(self).history().len() == 0,
            final(self).risk_state() == (RiskState {
                daily_pnl: final(self).risk_state().daily_pnl,
                trading_enabled: true,
                disabled_reason: None,
                last_update: now,
                ..old(self).risk_state()
            }),
            final(self).risk_state().daily_pnl.v() == 0,
            final(self).cfg() == old(self).cfg(),
            final(self).capital_amount() == old(self).capital_amount(),
            final(self).pending_events() == old(self).pending_events(),
    {
        self.trade_history.clear();
        self.state.daily_pnl = Dec::zero();
        self.state.trading_enabled = true;
        self.state.disabled_reason = None;
        self.state.last_update = now;
    }

    /// Starts a new day now.
    pub fn daily_reset(&mut self)
        ensures
            final(self).history().len() == 0,
            final(self).risk_state().trading_enabled,
            final(self).risk_state().disabled_reason is None,
            final(self).risk_state().daily_pnl.v() == 0,
            final(self).cfg() == old(self).cfg(),
            final(self).capital_amount() == old(self).capital_amount(),
    {
        let now = now_millis();
        self.daily_reset_at(now);
    }
}

/// The arithmetic of recording a trade needs no rounding, given the trades
/// that stay in the 24-hour window.
pub open spec fn record_arith_ok(cfg: RiskConfig, capital: Dec, window: Seq<(i64, Dec)>) -> bool {
    let pnl = rsum(trade_pnls(window));
    let limit = daily_limit(cfg, capital);
    &&& sum_fits(trade_pnls(window))
    &&& mul_ok(capital.repr(), cfg.max_daily_loss_pct.repr())
    &&& div_ok(rmul(capital.repr(), cfg.max_daily_loss_pct.repr()), rint(100))
    &&& pnl.0 < 0 ==> {
        &&& mul_ok(limit, cfg.warning_threshold_pct.repr())
        &&& div_ok(rmul(limit, cfg.warning_threshold_pct.repr()), rint(100))
    }
}

/// What recording a trade does.
pub open spec fn record_effect(before: RiskManager, after: RiskManager, trade: Trade, now: int) -> bool {
    let window = history_after(before.history(), trade, now);
    let pnl = rsum(trade_pnls(window));
    let limit = daily_limit(before.cfg(), before.capital_amount());
    let warning = decimal_quotient(rmul(limit, before.cfg().warning_threshold_pct.repr()), rint(100));
    let loss = -pnl.0;
    let hit = pnl.0 < 0 && loss >= limit.0;
    let warned = pnl.0 < 0 && loss >= warning.0 && loss < limit.0;
    &&& after.cfg() == before.cfg()
    &&& after.capital_amount() == before.capital_amount()
    &&& after.history() == window
    &&& after.risk_state().daily_pnl.repr() == pnl
    &&& after.risk_state().total_exposure == before.risk_state().total_exposure
    &&& after.risk_state().open_positions == before.risk_state().open_positions
    &&& after.risk_state().last_update == now
    &&& after.risk_state().trading_enabled == (before.risk_state().trading_enabled && !hit)
    &&& after.risk_state().disabled_reason == if hit {
        after.risk_state().disabled_reason
    } else {
        before.risk_state().disabled_reason
    }
    &&& hit ==> (after.risk_state().disabled_reason matches Some(s) && s@ == daily_limit_text())
    &&& after.pending_events().len() == before.pending_events().len() + 1 + (if warned {
        1int
    } else {
        0
    }) + (if hit {
        1int
    } else {
        0
    })
    &&& after.pending_events().subrange(0, before.pending_events().len() as int)
        == before.pending_events()
    &&& after.pending_events()[before.pending_events().len() as int] matches RiskEvent::TradeRecorded {
        trade_id,
        pnl: p,
    } && trade_id@ == trade.id@ && p == trade.net_pnl
}

// Laws of the risk manager.

/// A disabled manager rejects every order, whatever it is.
pub proof fn law_disabled_rejects(
    cfg: RiskConfig,
    state: RiskState,
    capital: Dec,
    order: OrderRequest,
    ps: Seq<Position>,
)
    requires
        !state.trading_enabled,
    ensures
        risk_verdict(cfg, state, capital, order, ps) == RiskVerdict::Disabled,
{
}

/// An approved order respects every limit: leverage, size, total exposure,
/// and (with other positions open) concentration; and trading was enabled
/// with the daily loss below its limit.
pub proof fn law_approved_within_limits(
    cfg: RiskConfig,
    state: RiskState,
    capital: Dec,
    order: OrderRequest,
    ps: Seq<Position>,
)
    requires
        risk_verdict(cfg, state, capital, order, ps) == RiskVerdict::Approved,
    ensures
        state.trading_enabled,
        !daily_loss_hit(cfg, state, capital),
        leverage_of(order) <= cfg.max_leverage,
        order_value(order).0 <= max_position_value(cfg, capital).0,
        exposure_with(state, order).0 <= cfg.max_total_exposure.v(),
        ps.len() > 0 && exposure_with(state, order).0 > 0 ==> concentration(ps, state, order).0
            <= cfg.max_concentration_pct.v(),
        ps.len() >= cfg.max_positions ==> is_closing(ps, order),
{
}

/// Leverage above the maximum is never approved.
pub proof fn law_excess_leverage_never_approved(
    cfg: RiskConfig,
    state: RiskState,
    capital: Dec,
    order: OrderRequest,
    ps: Seq<Position>,
)
    requires
        leverage_of(order) > cfg.max_leverage,
    ensures
        risk_verdict(cfg, state, capital, order, ps) != RiskVerdict::Approved,
        risk_verdict(cfg, state, capital, order, ps) != RiskVerdict::Adjust,
{
}

/// When the positions are at their maximum, an order is only let through if
/// it closes one of them.
pub proof fn law_full_book_only_closes(
    cfg: RiskConfig,
    state: RiskState,
    capital: Dec,
    order: OrderRequest,
    ps: Seq<Position>,
)
    requires
        ps.len() >= cfg.max_positions,
        !is_closing(ps, order),
        state.trading_enabled,
        !daily_loss_hit(cfg, state, capital),
    ensures
        risk_verdict(cfg, state, capital, order, ps) == RiskVerdict::MaxPositions,
{
}

/// Recording a trade whose window loss reaches the limit disables trading.
pub proof fn law_daily_loss_disables(before: RiskManager, after: RiskManager, trade: Trade, now: int)
    requires
        record_effect(before, after, trade, now),
        rsum(trade_pnls(history_after(before.history(), trade, now))).0 < 0,
        -rsum(trade_pnls(history_after(before.history(), trade, now))).0 >= daily_limit(
            before.cfg(),
            before.capital_amount(),
        ).0,
    ensures
        !after.risk_state().trading_enabled,
        after.risk_state().disabled_reason matches Some(s) && s@ == daily_limit_text(),
{
}

} // verus!
