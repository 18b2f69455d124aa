//! Position manager: opens and closes positions, reprices them, and moves
//! their stops (trailing stop and break-even), never to a worse level.
use crate::clock::{new_id, now_millis};
use crate::decimal::{
    add_ok, decimal_quotient, div_ok, mul_ok, radd, rint, rmul, rneg, rsub, reprs, rsum, sub_ok,
    sum_all, sum_fits, Dec,
};
use crate::entities::{
    trade_arith_ok, trade_gross_repr, trade_pct_ok, Position, PositionSide, PositionStatus, Trade,
    TradeCloseReason,
};
use crate::risk::{all_exposures, position_exposure, position_exposure_ok};
use vstd::prelude::*;
use vstd::string::*;

verus! {

/// What the manager reports.
#[derive(Clone, Debug)]
pub enum PositionEvent {
    Opened(Position),
    Updated(Position),
    Closed { position: Position, trade: Trade },
    StopLossTriggered(String),
    TakeProfitTriggered(String),
    TrailingStopUpdated { position_id: String, new_stop: Dec },
    Error { position_id: String, message: String },
}

/// Stop management settings.
#[derive(Clone, Debug)]
pub struct PositionManagerConfig {
    /// Move the stop behind the best price seen.
    pub enable_trailing_stop: bool,
    /// Trailing distance, percent of the best price.
    pub trailing_stop_pct: Dec,
    /// Move the stop past the entry once in profit.
    pub enable_break_even: bool,
    /// Profit, percent, at which break-even applies.
    pub break_even_trigger_pct: Dec,
    /// Distance of the break-even stop from the entry, percent.
    pub break_even_offset_pct: Dec,
}

impl PositionManagerConfig {
    /// Trailing off at 2.0%, break-even on at 1.5% with a 0.1% offset.
    pub fn default() -> (r: Self)
        ensures
            !r.enable_trailing_stop,
            r.trailing_stop_pct.repr() == (20 * crate::decimal::pow10(27), 1nat),
            r.enable_break_even,
            r.break_even_trigger_pct.repr() == (15 * crate::decimal::pow10(27), 1nat),
            r.break_even_offset_pct.repr() == (crate::decimal::pow10(27), 1nat),
    {
        PositionManagerConfig {
            enable_trailing_stop: false,
            trailing_stop_pct: Dec::new(20, 1),
            enable_break_even: true,
            break_even_trigger_pct: Dec::new(15, 1),
            break_even_offset_pct: Dec::new(1, 1),
        }
    }
}

/// A position with what stop management tracks about it.
#[derive(Clone, Debug)]
pub struct ManagedPosition {
    pub position: Position,
    /// Highest price seen (trailing stop of a long).
    pub highest_price: Dec,
    /// Lowest price seen (trailing stop of a short).
    pub lowest_price: Dec,
    pub break_even_activated: bool,
    pub original_stop_loss: Option<Dec>,
}

impl ManagedPosition {
    /// An identical copy.
    pub fn duplicate(&self) -> (r: ManagedPosition)
        ensures
            r == *self,
    {
        ManagedPosition {
            position: self.position.duplicate(),
            highest_price: self.highest_price,
            lowest_price: self.lowest_price,
            break_even_activated: self.break_even_activated,
            original_stop_loss: self.original_stop_loss,
        }
    }
}

// ---------------------------------------------------------------------------
// What repricing computes.

/// +1 for a long, -1 for a short.
pub open spec fn direction(side: PositionSide) -> (int, nat) {
    match side {
        PositionSide::Long => rint(1),
        PositionSide::Short => rneg(rint(1)),
    }
}

/// Unrealized P&L: price difference times quantity, direction and leverage.
pub open spec fn pnl_of(p: Position) -> (int, nat) {
    rmul(
        rmul(
            rmul(rsub(p.current_price.repr(), p.entry_price.repr()), p.quantity.repr()),
            direction(p.side),
        ),
        rint(p.leverage as int),
    )
}

pub open spec fn pnl_ok(p: Position) -> bool {
    let d = rsub(p.current_price.repr(), p.entry_price.repr());
    let a = rmul(d, p.quantity.repr());
    let b = rmul(a, direction(p.side));
    &&& sub_ok(p.current_price.repr(), p.entry_price.repr())
    &&& mul_ok(d, p.quantity.repr())
    &&& mul_ok(a, direction(p.side))
    &&& mul_ok(b, rint(p.leverage as int))
}

/// Unrealized P&L in percent of the entry, times direction and leverage;
/// zero when the entry price is zero.
pub open spec fn pnl_pct_of(p: Position) -> (int, nat) {
    if p.entry_price.v() == 0 {
        (0, 0)
    } else {
        rmul(
            rmul(
                rmul(
                    decimal_quotient(
                        rsub(p.current_price.repr(), p.entry_price.repr()),
                        p.entry_price.repr(),
                    ),
                    rint(100),
                ),
                direction(p.side),
            ),
            rint(p.leverage as int),
        )
    }
}

pub open spec fn pnl_pct_ok(p: Position) -> bool {
    let d = rsub(p.current_price.repr(), p.entry_price.repr());
    let q = decimal_quotient(d, p.entry_price.repr());
    let a = rmul(q, rint(100));
    let b = rmul(a, direction(p.side));
    p.entry_price.v() != 0 ==> {
        &&& sub_ok(p.current_price.repr(), p.entry_price.repr())
        &&& div_ok(d, p.entry_price.repr())
        &&& mul_ok(q, rint(100))
        &&& mul_ok(a, direction(p.side))
        &&& mul_ok(b, rint(p.leverage as int))
    }
}

/// The trailing distance: a percentage of the best price (the highest for
/// a long, the lowest for a short).
pub open spec fn trailing_distance(cfg: PositionManagerConfig, side: PositionSide, highest: Dec, lowest: Dec) -> (int, nat) {
    let reference = match side {
        PositionSide::Long => highest.repr(),
        PositionSide::Short => lowest.repr(),
    };
    decimal_quotient(rmul(reference, cfg.trailing_stop_pct.repr()), rint(100))
}

/// The trailing stop: the distance below the highest price (long) or above
/// the lowest (short).
pub open spec fn trailing_stop(cfg: PositionManagerConfig, side: PositionSide, highest: Dec, lowest: Dec) -> (int, nat) {
    match side {
        PositionSide::Long => rsub(highest.repr(), trailing_distance(cfg, side, highest, lowest)),
        PositionSide::Short => radd(lowest.repr(), trailing_distance(cfg, side, highest, lowest)),
    }
}

pub open spec fn trailing_ok(cfg: PositionManagerConfig, side: PositionSide, highest: Dec, lowest: Dec) -> bool {
    let reference = match side {
        PositionSide::Long => highest.repr(),
        PositionSide::Short => lowest.repr(),
    };
    let dist = trailing_distance(cfg, side, highest, lowest);
    &&& mul_ok(reference, cfg.trailing_stop_pct.repr())
    &&& div_ok(rmul(reference, cfg.trailing_stop_pct.repr()), rint(100))
    &&& match side {
        PositionSide::Long => sub_ok(highest.repr(), dist),
        PositionSide::Short => add_ok(lowest.repr(), dist),
    }
}

/// The break-even stop: the entry moved by the offset into profit.
pub open spec fn break_even_stop(cfg: PositionManagerConfig, p: Position) -> (int, nat) {
    let offset = decimal_quotient(
        rmul(p.entry_price.repr(), cfg.break_even_offset_pct.repr()),
        rint(100),
    );
    match p.side {
        PositionSide::Long => radd(p.entry_price.repr(), offset),
        PositionSide::Short => rsub(p.entry_price.repr(), offset),
    }
}

pub open spec fn break_even_ok(cfg: PositionManagerConfig, p: Position) -> bool {
    let offset = decimal_quotient(
        rmul(p.entry_price.repr(), cfg.break_even_offset_pct.repr()),
        rint(100),
    );
    &&& mul_ok(p.entry_price.repr(), cfg.break_even_offset_pct.repr())
    &&& div_ok(rmul(p.entry_price.repr(), cfg.break_even_offset_pct.repr()), rint(100))
    &&& match p.side {
        PositionSide::Long => add_ok(p.entry_price.repr(), offset),
        PositionSide::Short => sub_ok(p.entry_price.repr(), offset),
    }
}

/// A stop at `candidate` is better than `current`: higher for a long,
/// lower for a short; any stop is better than none.
pub open spec fn improves(side: PositionSide, candidate: (int, nat), current: Option<Dec>) -> bool {
    match current {
        None => true,
        Some(c) => match side {
            PositionSide::Long => candidate.0 > c.v(),
            PositionSide::Short => candidate.0 < c.v(),
        },
    }
}

/// The price reached the stop loss: at or below it for a long, at or above
/// it for a short.
pub open spec fn stop_hit(side: PositionSide, price: Dec, stop: Option<Dec>) -> bool {
    match stop {
        None => false,
        Some(s) => match side {
            PositionSide::Long => price.v() <= s.v(),
            PositionSide::Short => price.v() >= s.v(),
        },
    }
}

/// The price reached the take profit: at or above it for a long, at or
/// below it for a short.
pub open spec fn target_hit(side: PositionSide, price: Dec, target: Option<Dec>) -> bool {
    match target {
        None => false,
        Some(t) => match side {
            PositionSide::Long => price.v() >= t.v(),
            PositionSide::Short => price.v() <= t.v(),
        },
    }
}

/// The highest price after seeing `price`.
pub open spec fn new_highest(m: ManagedPosition, price: Dec) -> Dec {
    if price.v() > m.highest_price.v() {
        price
    } else {
        m.highest_price
    }
}

/// The lowest price after seeing `price`.
pub open spec fn new_lowest(m: ManagedPosition, price: Dec) -> Dec {
    if price.v() < m.lowest_price.v() {
        price
    } else {
        m.lowest_price
    }
}

/// The position at `price`, its P&L not yet recomputed.
pub open spec fn at_price(m: ManagedPosition, price: Dec) -> Position {
    Position { current_price: price, ..m.position }
}

/// The trailing stop moves at `price`.
pub open spec fn trailing_moves(cfg: PositionManagerConfig, m: ManagedPosition, price: Dec) -> bool {
    cfg.enable_trailing_stop && improves(
        m.position.side,
        trailing_stop(cfg, m.position.side, new_highest(m, price), new_lowest(m, price)),
        m.position.stop_loss_price,
    )
}

/// Break-even is checked at `price` (and, when its stop is better, applied).
pub open spec fn break_even_checked(cfg: PositionManagerConfig, m: ManagedPosition, price: Dec) -> bool {
    cfg.enable_break_even && !m.break_even_activated
}

/// Break-even applies at `price`.
pub open spec fn break_even_applies(cfg: PositionManagerConfig, m: ManagedPosition, price: Dec) -> bool {
    &&& break_even_checked(cfg, m, price)
    &&& pnl_pct_of(at_price(m, price)).0 >= cfg.break_even_trigger_pct.v()
    &&& improves(
        m.position.side,
        break_even_stop(cfg, at_price(m, price)),
        m.position.stop_loss_price,
    )
}

/// The arithmetic of repricing needs no rounding, on the path it takes.
pub open spec fn reprice_arith_ok(cfg: PositionManagerConfig, m: ManagedPosition, price: Dec) -> bool {
    let side = m.position.side;
    let p = at_price(m, price);
    &&& pnl_ok(p)
    &&& (!stop_hit(side, price, m.position.stop_loss_price) && !target_hit(
        side,
        price,
        m.position.take_profit_price,
    )) ==> {
        &&& cfg.enable_trailing_stop ==> trailing_ok(
            cfg,
            side,
            new_highest(m, price),
            new_lowest(m, price),
        )
        &&& (break_even_checked(cfg, m, price) && !trailing_moves(cfg, m, price)) ==> {
            &&& pnl_pct_ok(p)
            &&& pnl_pct_of(p).0 >= cfg.break_even_trigger_pct.v() ==> break_even_ok(cfg, p)
        }
    }
}

/// What repricing `m` at `price` gives: `after` and the reported event.
/// The price, the best prices and the P&L are always updated; then the
/// first of these decides: the stop loss was hit, the take profit was hit,
/// the trailing stop moved, break-even applied, nothing else.
pub open spec fn repriced(
    cfg: PositionManagerConfig,
    m: ManagedPosition,
    price: Dec,
    after: ManagedPosition,
    ev: PositionEvent,
) -> bool {
    let side = m.position.side;
    let id = m.position.id;
    let p = at_price(m, price);
    &&& after.highest_price == new_highest(m, price)
    &&& after.lowest_price == new_lowest(m, price)
    &&& after.original_stop_loss == m.original_stop_loss
    &&& after.position.unrealized_pnl.repr() == pnl_of(p)
    &&& after.position == Position {
        unrealized_pnl: after.position.unrealized_pnl,
        stop_loss_price: after.position.stop_loss_price,
        ..p
    }
    &&& if stop_hit(side, price, m.position.stop_loss_price) {
        &&& ev == PositionEvent::StopLossTriggered(id)
        &&& after.position.stop_loss_price == m.position.stop_loss_price
        &&& after.break_even_activated == m.break_even_activated
    } else if target_hit(side, price, m.position.take_profit_price) {
        &&& ev == PositionEvent::TakeProfitTriggered(id)
        &&& after.position.stop_loss_price == m.position.stop_loss_price
        &&& after.break_even_activated == m.break_even_activated
    } else if trailing_moves(cfg, m, price) {
        &&& after.position.stop_loss_price matches Some(s) && s.repr() == trailing_stop(
            cfg,
            side,
            new_highest(m, price),
            new_lowest(m, price),
        ) && ev == (PositionEvent::TrailingStopUpdated { position_id: id, new_stop: s })
        &&& after.break_even_activated == m.break_even_activated
    } else if break_even_applies(cfg, m, price) {
        &&& after.position.stop_loss_price matches Some(s) && s.repr() == break_even_stop(cfg, p)
        &&& after.break_even_activated
        &&& ev == PositionEvent::Updated(after.position)
    } else {
        &&& after.position.stop_loss_price == m.position.stop_loss_price
        &&& after.break_even_activated == m.break_even_activated
        &&& ev == PositionEvent::Updated(after.position)
    }
}

/// The ids of `s` are pairwise distinct.
pub open spec fn unique_ids(s: Seq<ManagedPosition>) -> bool {
    forall|i: int, j: int|
        0 <= i < s.len() && 0 <= j < s.len() && i != j ==> #[trigger] s[i].position.id@
            != #[trigger] s[j].position.id@
}

/// Some managed position has id `id`.
pub open spec fn has_id(s: Seq<ManagedPosition>, id: Seq<char>) -> bool {
    exists|i: int| 0 <= i < s.len() && #[trigger] s[i].position.id@ == id
}

/// The index of the managed position with id `id` (meaningful when
/// `has_id`).
pub open spec fn index_of(s: Seq<ManagedPosition>, id: Seq<char>) -> int {
    choose|i: int| 0 <= i < s.len() && #[trigger] s[i].position.id@ == id
}

/// The position with id `id`, if any.
pub open spec fn lookup(s: Seq<ManagedPosition>, id: Seq<char>) -> Option<Position> {
    if has_id(s, id) {
        Some(s[index_of(s, id)].position)
    } else {
        None
    }
}

/// The positions of `s`, in order.
pub open spec fn positions_of(s: Seq<ManagedPosition>) -> Seq<Position> {
    s.map_values(|m: ManagedPosition| m.position)
}

/// The fee charged on closing: 0.1% of quantity times exit price.
pub open spec fn closing_fee(quantity: Dec, exit_price: Dec) -> (int, nat) {
    rmul(rmul(quantity.repr(), exit_price.repr()), (crate::decimal::pow10(25), 3nat))
}

/// The arithmetic of closing `p` at `exit_price` needs no rounding.
pub open spec fn close_arith_ok(p: Position, exit_price: Dec) -> bool {
    let fee = closing_fee(p.quantity, exit_price);
    let diff = match p.side {
        PositionSide::Long => rsub(exit_price.repr(), p.entry_price.repr()),
        PositionSide::Short => rsub(p.entry_price.repr(), exit_price.repr()),
    };
    &&& mul_ok(p.quantity.repr(), exit_price.repr())
    &&& mul_ok(rmul(p.quantity.repr(), exit_price.repr()), (crate::decimal::pow10(25), 3nat))
    &&& match p.side {
        PositionSide::Long => sub_ok(exit_price.repr(), p.entry_price.repr()),
        PositionSide::Short => sub_ok(p.entry_price.repr(), exit_price.repr()),
    }
    &&& mul_ok(diff, p.quantity.repr())
    &&& sub_ok(rmul(diff, p.quantity.repr()), fee)
    &&& trade_pct_ok(p.side, p.entry_price, exit_price, p.leverage)
}

/// The position manager.
pub struct PositionManager {
    config: PositionManagerConfig,
    positions: Vec<ManagedPosition>,
    events: Vec<PositionEvent>,
}

impl PositionManager {
    pub closed spec fn cfg(&self) -> PositionManagerConfig {
        self.config
    }

    /// The managed positions, in the order they were opened.
    pub closed spec fn managed(&self) -> Seq<ManagedPosition> {
        self.positions@
    }

    pub closed spec fn pending_events(&self) -> Seq<PositionEvent> {
        self.events@
    }

    /// No two managed positions share an id.
    pub open spec fn wf(&self) -> bool {
        unique_ids(self.managed())
    }

    /// A manager with no positions.
    pub fn new(config: PositionManagerConfig) -> (r: Self)
        ensures
            r.wf(),
            r.cfg() == config,
            r.managed().len() == 0,
            r.pending_events().len() == 0,
    {
        PositionManager { config, positions: Vec::new(), events: Vec::new() }
    }

    /// A manager with the default settings.
    pub fn default() -> (r: Self)
        ensures
            r.wf(),
            !r.cfg().enable_trailing_stop,
            r.cfg().trailing_stop_pct.repr() == (20 * crate::decimal::pow10(27), 1nat),
            r.cfg().enable_break_even,
            r.cfg().break_even_trigger_pct.repr() == (15 * crate::decimal::pow10(27), 1nat),
            r.cfg().break_even_offset_pct.repr() == (crate::decimal::pow10(27), 1nat),
            r.managed().len() == 0,
            r.pending_events().len() == 0,
    {
        Self::new(PositionManagerConfig::default())
    }

    /// Hands out the events emitted so far and forgets them.
    pub fn drain_events(&mut self) -> (r: Vec<PositionEvent>)
        requires
            old(self).wf(),
        ensures
            final(self).wf(),
            r@ == old(self).pending_events(),
            final(self).pending_events().len() == 0,
            final(self).cfg() == old(self).cfg(),
            final(self).managed() == old(self).managed(),
    {
        let mut out = Vec::new();
        std::mem::swap(&mut out, &mut self.events);
        out
    }

    /// The index of the position with `id`.
    fn find(&self, id: &String) -> (r: Option<usize>)
        requires
            self.wf(),
        ensures
            match r {
                Some(i) => i < self.managed().len() && has_id(self.managed(), id@) && index_of(
                    self.managed(),
                    id@,
                ) == i,
                None => !has_id(self.managed(), id@),
            },
    {
        let mut i: usize = 0;
        while i < self.positions.len()
            invariant
                i <= self.positions@.len(),
                unique_ids(self.positions@),
                forall|k: int| 0 <= k < i ==> #[trigger] self.positions@[k].position.id@ != id@,
            decreases self.positions@.len() - i,
        {
            if self.positions[i].position.id == *id {
                let ghost s = self.positions@;
                assert(s[i as int].position.id@ == id@);
                assert(has_id(s, id@));
                let ghost j = index_of(s, id@);
                assert(s[j].position.id@ == id@);
                proof {
                    if j != i as int {
                        assert(s[i as int].position.id@ != s[j].position.id@);
                    }
                }
                return Some(i);
            }
            i += 1;
        }
        None
    }

    /// Starts managing `position`; refused if one with its id is managed.
    pub fn open_position(&mut self, position: Position) -> (r: Result<(), String>)
        requires
            old(self).wf(),
        ensures
            final(self).wf(),
            final(self).cfg() == old(self).cfg(),
            has_id(old(self).managed(), position.id@) ==> {
                &&& r matches Err(e) && e@ == "Posição "@ + position.id@ + " já existe"@
                &&& final(self).managed() == old(self).managed()
                &&& final(self).pending_events() == old(self).pending_events()
            },
            !has_id(old(self).managed(), position.id@) ==> {
                &&& r is Ok
                &&& final(self).managed() == old(self).managed().push(
                    ManagedPosition {
                        position,
                        highest_price: position.current_price,
                        lowest_price: position.current_price,
                        break_even_activated: false,
                        original_stop_loss: position.stop_loss_price,
                    },
                )
                &&& final(self).pending_events() == old(self).pending_events().push(
                    PositionEvent::Opened(position),
                )
            },
    {
        match self.find(&position.id) {
            Some(_) => {
                let mut message = String::new();
                message.append("Posição ");
                message.append(position.id.as_str());
                message.append(" já existe");
                return Err(message);
            },
            None => {},
        }
        let copy = position.duplicate();
        let managed = ManagedPosition {
            highest_price: position.current_price,
            lowest_price: position.current_price,
            break_even_activated: false,
            original_stop_loss: position.stop_loss_price,
            position,
        };
        let ghost before = self.positions@;
        self.positions.push(managed);
        assert forall|i: int, j: int|
            0 <= i < self.positions@.len() && 0 <= j < self.positions@.len() && i != j implies #[trigger] self.positions@[i].position.id@
                != #[trigger] self.positions@[j].position.id@ by {
            if i < before.len() && j < before.len() {
                assert(self.positions@[i] == before[i]);
                assert(self.positions@[j] == before[j]);
            } else if i < before.len() {
                assert(self.positions@[i] == before[i]);
            } else {
                assert(self.positions@[j] == before[j]);
            }
        }
        self.events.push(PositionEvent::Opened(copy));
        Ok(())
    }

    /// Unrealized P&L: price difference times quantity, direction and
    /// leverage.
    pub fn calculate_pnl(position: &Position) -> (r: Dec)
        requires
            pnl_ok(*position),
        ensures
            r.repr() == pnl_of(*position),
    {
        let direction = match position.side {
            PositionSide::Long => Dec::one(),
            PositionSide::Short => Dec::one().neg(),
        };
        position.current_price.sub(position.entry_price).mul(position.quantity).mul(direction).mul(
            Dec::from_u32(position.leverage),
        )
    }

    /// Unrealized P&L in percent of the entry price, times direction and
    /// leverage; zero for a zero entry price.
    pub fn calculate_pnl_pct(position: &Position) -> (r: Dec)
        requires
            pnl_pct_ok(*position),
        ensures
            r.repr() == pnl_pct_of(*position),
    {
        if position.entry_price.is_zero() {
            return Dec::zero();
        }
        let direction = match position.side {
            PositionSide::Long => Dec::one(),
            PositionSide::Short => Dec::one().neg(),
        };
        position.current_price.sub(position.entry_price).div(position.entry_price).mul(
            Dec::from_u32(100),
        ).mul(direction).mul(Dec::from_u32(position.leverage))
    }

    /// Whether a stop at `candidate` is better than the current one.
    fn is_better_stop(side: PositionSide, candidate: &Dec, current: Option<Dec>) -> (r: bool)
        ensures
            r == improves(side, candidate.repr(), current),
    {
        match current {
            None => true,
            Some(c) => match side {
                PositionSide::Long => candidate.gt(&c),
                PositionSide::Short => candidate.lt(&c),
            },
        }
    }

    /// Moves the stop of `position` to the trailing level when that is
    /// better than its current stop, reporting the move.
    fn update_trailing_stop(
        cfg: &PositionManagerConfig,
        position: &mut Position,
        highest: Dec,
        lowest: Dec,
    ) -> (r: Option<PositionEvent>)
        requires
            trailing_ok(*cfg, old(position).side, highest, lowest),
        ensures
            improves(
                old(position).side,
                trailing_stop(*cfg, old(position).side, highest, lowest),
                old(position).stop_loss_price,
            ) ==> {
                &&& final(position).stop_loss_price matches Some(s) && s.repr() == trailing_stop(
                    *cfg,
                    old(position).side,
                    highest,
                    lowest,
                ) && r == Some(
                    PositionEvent::TrailingStopUpdated { position_id: old(position).id, new_stop: s },
                )
                &&& *final(position) == Position {
                    stop_loss_price: final(position).stop_loss_price,
                    ..*old(position)
                }
            },
            !improves(
                old(position).side,
                trailing_stop(*cfg, old(position).side, highest, lowest),
                old(position).stop_loss_price,
            ) ==> r is None && *final(position) == *old(position),
    {
        let hundred = Dec::from_u32(100);
        let distance = match position.side {
            PositionSide::Long => highest.mul(cfg.trailing_stop_pct).div(hundred),
            PositionSide::Short => lowest.mul(cfg.trailing_stop_pct).div(hundred),
        };
        let new_stop = match position.side {
            PositionSide::Long => highest.sub(distance),
            PositionSide::Short => lowest.add(distance),
        };
        if Self::is_better_stop(position.side, &new_stop, position.stop_loss_price) {
            position.stop_loss_price = Some(new_stop);
            return Some(
                PositionEvent::TrailingStopUpdated { position_id: position.id.clone(), new_stop },
            );
        }
        None
    }

    /// Moves the stop to break-even (the entry plus the offset into profit)
    /// when that is better than the current stop.
    fn activate_break_even(cfg: &PositionManagerConfig, managed: &mut ManagedPosition)
        requires
            break_even_ok(*cfg, old(managed).position),
        ensures
            improves(
                old(managed).position.side,
                break_even_stop(*cfg, old(managed).position),
                old(managed).position.stop_loss_price,
            ) ==> {
                &&& final(managed).position.stop_loss_price matches Some(s) && s.repr()
                    == break_even_stop(*cfg, old(managed).position)
                &&& final(managed).break_even_activated
                &&& *final(managed) == ManagedPosition {
                    position: Position {
                        stop_loss_price: final(managed).position.stop_loss_price,
                        ..old(managed).position
                    },
                    break_even_activated: true,
                    ..*old(managed)
                }
            },
            !improves(
                old(managed).position.side,
                break_even_stop(*cfg, old(managed).position),
                old(managed).position.stop_loss_price,
            ) ==> *final(managed) == *old(managed),
    {
        let offset = managed.position.entry_price.mul(cfg.break_even_offset_pct).div(
            Dec::from_u32(100),
        );
        let stop = match managed.position.side {
            PositionSide::Long => managed.position.entry_price.add(offset),
            PositionSide::Short => managed.position.entry_price.sub(offset),
        };
        if Self::is_better_stop(managed.position.side, &stop, managed.position.stop_loss_price) {
            managed.position.stop_loss_price = Some(stop);
            managed.break_even_activated = true;
        }
    }

    /// Reprices one managed position.
    fn reprice(cfg: &PositionManagerConfig, m: ManagedPosition, price: Dec) -> (r: (
        ManagedPosition,
        PositionEvent,
    ))
        requires
            reprice_arith_ok(*cfg, m, price),
        ensures
            repriced(*cfg, m, price, r.0, r.1),
    {
        let ghost m0 = m;
        let mut m = m;
        m.position.current_price = price;
        if price.gt(&m.highest_price) {
            m.highest_price = price;
        }
        if price.lt(&m.lowest_price) {
            m.lowest_price = price;
        }
        let pnl = Self::calculate_pnl(&m.position);
        m.position.unrealized_pnl = pnl;
        let side = m.position.side;
        match m.position.stop_loss_price {
            Some(stop) => {
                let hit = match side {
                    PositionSide::Long => price.le(&stop),
                    PositionSide::Short => price.ge(&stop),
                };
                if hit {
                    let id = m.position.id.clone();
                    return (m, PositionEvent::StopLossTriggered(id));
                }
            },
            None => {},
        }
        match m.position.take_profit_price {
            Some(target) => {
                let hit = match side {
                    PositionSide::Long => price.ge(&target),
                    PositionSide::Short => price.le(&target),
                };
                if hit {
                    let id = m.position.id.clone();
                    return (m, PositionEvent::TakeProfitTriggered(id));
                }
            },
            None => {},
        }
        if cfg.enable_trailing_stop {
            let highest = m.highest_price;
            let lowest = m.lowest_price;
            let moved = Self::update_trailing_stop(cfg, &mut m.position, highest, lowest);
            match moved {
                Some(event) => {
                    return (m, event);
                },
                None => {},
            }
        }
        if cfg.enable_break_even && !m.break_even_activated {
            let pct = Self::calculate_pnl_pct(&m.position);
            if pct.ge(&cfg.break_even_trigger_pct) {
                Self::activate_break_even(cfg, &mut m);
            }
        }
        let copy = m.position.duplicate();
        (m, PositionEvent::Updated(copy))
    }

    /// Reprices the position with `id` at `current_price`: updates its
    /// price, best prices and P&L, then reports the first of stop loss hit,
    /// take profit hit, trailing stop moved, or the updated position
    /// (applying break-even on the way).  None when no such position.
    pub fn update_price(&mut self, position_id: &String, current_price: Dec) -> (r: Option<
        PositionEvent,
    >)
        requires
            old(self).wf(),
            has_id(old(self).managed(), position_id@) ==> reprice_arith_ok(
                old(self).cfg(),
                old(self).managed()[index_of(old(self).managed(), position_id@)],
                current_price,
            ),
        ensures
            final(self).wf(),
            final(self).cfg() == old(self).cfg(),
            final(self).pending_events() == old(self).pending_events(),
            !has_id(old(self).managed(), position_id@) ==> r is None && final(self).managed()
                == old(self).managed(),
            has_id(old(self).managed(), position_id@) ==> {
                let i = index_of(old(self).managed(), position_id@);
                &&& final(self).managed().len() == old(self).managed().len()
                &&& final(self).managed() == old(self).managed().update(
                    i,
                    final(self).managed()[i],
                )
                &&& r matches Some(ev) && repriced(
                    old(self).cfg(),
                    old(self).managed()[i],
                    current_price,
                    final(self).managed()[i],
                    ev,
                )
            },
    {
        let idx = match self.find(position_id) {
            Some(i) => i,
            None => {
                return None;
            },
        };
        let ghost before = self.positions@;
        let m = self.positions.remove(idx);
        let (after, event) = Self::reprice(&self.config, m, current_price);
        self.positions.insert(idx, after);
        assert(self.positions@ =~= before.update(idx as int, self.positions@[idx as int]));
        assert forall|i: int, j: int|
            0 <= i < self.positions@.len() && 0 <= j < self.positions@.len() && i != j implies #[trigger] self.positions@[i].position.id@
                != #[trigger] self.positions@[j].position.id@ by {
            if i != idx && j != idx {
                assert(self.positions@[i] == before[i]);
                assert(self.positions@[j] == before[j]);
            } else if i == idx {
                assert(self.positions@[j] == before[j]);
                assert(self.positions@[i].position.id == before[i].position.id);
            } else {
                assert(self.positions@[i] == before[i]);
                assert(self.positions@[j].position.id == before[j].position.id);
            }
        }
        Some(event)
    }

    /// Closes the position with `id` at `exit_price` and instant `now`:
    /// it stops being managed and the trade it made is returned, charged a
    /// fee of 0.1% of quantity times exit price.  None when no such
    /// position.
    pub fn close_position_at(
        &mut self,
        position_id: &String,
        exit_price: Dec,
        reason: TradeCloseReason,
        now: i64,
    ) -> (r: Option<Trade>)
        requires
            old(self).wf(),
            has_id(old(self).managed(), position_id@) ==> close_arith_ok(
                old(self).managed()[index_of(old(self).managed(), position_id@)].position,
                exit_price,
            ),
        ensures
            final(self).wf(),
            final(self).cfg() == old(self).cfg(),
            !has_id(old(self).managed(), position_id@) ==> {
                &&& r is None
                &&& final(self).managed() == old(self).managed()
                &&& final(self).pending_events() == old(self).pending_events()
            },
            has_id(old(self).managed(), position_id@) ==> {
                let i = index_of(old(self).managed(), position_id@);
                let p = old(self).managed()[i].position;
                let closed = Position {
                    current_price: exit_price,
                    status: PositionStatus::Closed,
                    closed_at: Some(now),
                    ..p
                };
                &&& final(self).managed() == old(self).managed().remove(i)
                &&& r matches Some(t) && {
                    &&& t.exchange == p.exchange
                    &&& t.symbol == p.symbol
                    &&& t.side == p.side
                    &&& t.position_id@ == position_id@
                    &&& t.signal_id is None
                    &&& t.entry_order_id == p.entry_order_id
                    &&& t.quantity == p.quantity
                    &&& t.entry_price == p.entry_price
                    &&& t.exit_price == exit_price
                    &&& t.fees.repr() == closing_fee(p.quantity, exit_price)
                    &&& t.leverage == p.leverage
                    &&& t.gross_pnl.repr() == trade_gross_repr(
                        p.side,
                        p.quantity,
                        p.entry_price,
                        exit_price,
                    )
                    &&& t.net_pnl.repr() == rsub(
                        trade_gross_repr(p.side, p.quantity, p.entry_price, exit_price),
                        t.fees.repr(),
                    )
                    &&& t.close_reason == reason
                    &&& t.entered_at == p.opened_at
                    &&& final(self).pending_events() == old(self).pending_events().push(
                        PositionEvent::Closed { position: closed, trade: t },
                    )
                }
            },
    {
        let idx = match self.find(position_id) {
            Some(i) => i,
            None => {
                return None;
            },
        };
        let ghost before = self.positions@;
        let managed = self.positions.remove(idx);
        assert forall|i: int, j: int|
            0 <= i < self.positions@.len() && 0 <= j < self.positions@.len() && i != j implies #[trigger] self.positions@[i].position.id@
                != #[trigger] self.positions@[j].position.id@ by {
            let bi = if i < idx {
                i
            } else {
                i + 1
            };
            let bj = if j < idx {
                j
            } else {
                j + 1
            };
            assert(self.positions@[i] == before[bi]);
            assert(self.positions@[j] == before[bj]);
        }
        let mut position = managed.position;
        position.current_price = exit_price;
        position.status = PositionStatus::Closed;
        position.closed_at = Some(now);
        let fees = position.quantity.mul(exit_price).mul(Dec::new(1, 3));
        let trade = Trade::from_closed_position(
            position.exchange,
            position.symbol.clone(),
            position.side,
            position_id.clone(),
            None,
            position.entry_order_id.clone(),
            new_id(),
            position.quantity,
            position.entry_price,
            exit_price,
            fees,
            position.leverage,
            reason,
            position.opened_at,
        );
        let copy = trade.duplicate();
        self.events.push(PositionEvent::Closed { position, trade: copy });
        Some(trade)
    }

    /// Closes the position with `id` at `exit_price` now.
    pub fn close_position(
        &mut self,
        position_id: &String,
        exit_price: Dec,
        reason: TradeCloseReason,
    ) -> (r: Option<Trade>)
        requires
            old(self).wf(),
            has_id(old(self).managed(), position_id@) ==> close_arith_ok(
                old(self).managed()[index_of(old(self).managed(), position_id@)].position,
                exit_price,
            ),
        ensures
            final(self).wf(),
            !has_id(old(self).managed(), position_id@) ==> r is None && final(self).managed()
                == old(self).managed(),
            has_id(old(self).managed(), position_id@) ==> {
                let i = index_of(old(self).managed(), position_id@);
                let p = old(self).managed()[i].position;
                &&& final(self).managed() == old(self).managed().remove(i)
                &&& r matches Some(t) && t.exit_price == exit_price && t.quantity == p.quantity
                    && t.net_pnl.repr() == rsub(
                    trade_gross_repr(p.side, p.quantity, p.entry_price, exit_price),
                    closing_fee(p.quantity, exit_price),
                )
            },
    {
        let now = now_millis();
        self.close_position_at(position_id, exit_price, reason, now)
    }

    /// Copies of the managed positions.
    pub fn get_open_positions(&self) -> (r: Vec<Position>)
        ensures
            r@ == positions_of(self.managed()),
    {
        let mut out: Vec<Position> = Vec::new();
        let mut i: usize = 0;
        while i < self.positions.len()
            invariant
                i <= self.positions@.len(),
                out@.len() == i,
                forall|k: int| 0 <= k < i ==> #[trigger] out@[k] == self.positions@[k].position,
            decreases self.positions@.len() - i,
        {
            out.push(self.positions[i].position.duplicate());
            i += 1;
        }
        assert(out@ =~= positions_of(self.positions@));
        out
    }

    /// A copy of the position with `id`, if managed.
    pub fn get_position(&self, position_id: &String) -> (r: Option<Position>)
        requires
            self.wf(),
        ensures
            r == lookup(self.managed(), position_id@),
    {
        match self.find(position_id) {
            Some(i) => Some(self.positions[i].position.duplicate()),
            None => None,
        }
    }

    /// Sets the stop loss of the position with `id`; false when no such
    /// position.
    pub fn update_stop_loss(&mut self, position_id: &String, new_stop: Dec) -> (r: bool)
        requires
            old(self).wf(),
        ensures
            final(self).wf(),
            final(self).cfg() == old(self).cfg(),
            final(self).pending_events() == old(self).pending_events(),
            r == has_id(old(self).managed(), position_id@),
            !r ==> final(self).managed() == old(self).managed(),
            r ==> {
                let i = index_of(old(self).managed(), position_id@);
                let m = old(self).managed()[i];
                final(self).managed() == old(self).managed().update(
                    i,
                    ManagedPosition {
                        position: Position { stop_loss_price: Some(new_stop), ..m.position },
                        ..m
                    },
                )
            },
    {
        match self.find(position_id) {
            Some(idx) => {
                let ghost before = self.positions@;
                let mut m = self.positions.remove(idx);
                m.position.stop_loss_price = Some(new_stop);
                self.positions.insert(idx, m);
                assert(self.positions@ =~= before.update(idx as int, self.positions@[idx as int]));
                proof {
                    lemma_update_keeps_ids(before, idx as int, self.positions@[idx as int]);
                }
                true
            },
            None => false,
        }
    }

    /// Sets the take profit of the position with `id`; false when no such
    /// position.
    pub fn update_take_profit(&mut self, position_id: &String, new_tp: Dec) -> (r: bool)
        requires
            old(self).wf(),
        ensures
            final(self).wf(),
            final(self).cfg() == old(self).cfg(),
            final(self).pending_events() == old(self).pending_events(),
            r == has_id(old(self).managed(), position_id@),
            !r ==> final(self).managed() == old(self).managed(),
            r ==> {
                let i = index_of(old(self).managed(), position_id@);
                let m = old(self).managed()[i];
                final(self).managed() == old(self).managed().update(
                    i,
                    ManagedPosition {
                        position: Position { take_profit_price: Some(new_tp), ..m.position },
                        ..m
                    },
                )
            },
    {
        match self.find(position_id) {
            Some(idx) => {
                let ghost before = self.positions@;
                let mut m = self.positions.remove(idx);
                m.position.take_profit_price = Some(new_tp);
                self.positions.insert(idx, m);
                assert(self.positions@ =~= before.update(idx as int, self.positions@[idx as int]));
                proof {
                    lemma_update_keeps_ids(before, idx as int, self.positions@[idx as int]);
                }
                true
            },
            None => false,
        }
    }

    /// The number of managed positions.
    pub fn position_count(&self) -> (r: usize)
        ensures
            r == self.managed().len(),
    {
        self.positions.len()
    }

    /// Total exposure: quantity times current price times leverage, summed
    /// over the managed positions in order.
    pub fn total_exposure(&self) -> (r: Dec)
        requires
            forall|i: int|
                0 <= i < self.managed().len() ==> #[trigger] position_exposure_ok(
                    self.managed()[i].position,
                ),
            sum_fits(all_exposures(positions_of(self.managed()))),
        ensures
            r.repr() == rsum(all_exposures(positions_of(self.managed()))),
    {
        let mut exposures: Vec<Dec> = Vec::new();
        let mut i: usize = 0;
        while i < self.positions.len()
            invariant
                i <= self.positions@.len(),
                forall|k: int|
                    0 <= k < self.positions@.len() ==> #[trigger] position_exposure_ok(
                        self.positions@[k].position,
                    ),
                exposures@.len() == i,
                forall|k: int|
                    0 <= k < i ==> (#[trigger] exposures@[k]).repr() == position_exposure(
                        self.positions@[k].position,
                    ),
            decreases self.positions@.len() - i,
        {
            let p = &self.positions[i].position;
            assert(position_exposure_ok(self.positions@[i as int].position));
            exposures.push(p.quantity.mul(p.current_price).mul(Dec::from_u32(p.leverage)));
            i += 1;
        }
        assert(reprs(exposures@) =~= all_exposures(positions_of(self.positions@)));
        sum_all(&exposures)
    }
}

/// Replacing a managed position by one with the same id keeps ids unique.
pub proof fn lemma_update_keeps_ids(s: Seq<ManagedPosition>, i: int, m: ManagedPosition)
    requires
        unique_ids(s),
        0 <= i < s.len(),
        m.position.id == s[i].position.id,
    ensures
        unique_ids(s.update(i, m)),
{
    let t = s.update(i, m);
    assert forall|a: int, b: int|
        0 <= a < t.len() && 0 <= b < t.len() && a != b implies #[trigger] t[a].position.id@
            != #[trigger] t[b].position.id@ by {
        assert(t[a].position.id == s[a].position.id);
        assert(t[b].position.id == s[b].position.id);
    }
}

// Laws of the position manager.

/// A stop only moves to a better level: repricing never lowers the stop of
/// a long nor raises the stop of a short, and never removes it.
pub proof fn law_stop_never_worsens(
    cfg: PositionManagerConfig,
    m: ManagedPosition,
    price: Dec,
    after: ManagedPosition,
    ev: PositionEvent,
)
    requires
        repriced(cfg, m, price, after, ev),
        m.position.stop_loss_price is Some,
    ensures
        after.position.stop_loss_price matches Some(s) && match m.position.side {
            PositionSide::Long => s.v() >= m.position.stop_loss_price.unwrap().v(),
            PositionSide::Short => s.v() <= m.position.stop_loss_price.unwrap().v(),
        },
{
}

/// A long whose price falls to its stop loss, or a short whose price rises
/// to it, reports the stop loss, whatever else is set.
pub proof fn law_stop_loss_first(
    cfg: PositionManagerConfig,
    m: ManagedPosition,
    price: Dec,
    after: ManagedPosition,
    ev: PositionEvent,
)
    requires
        repriced(cfg, m, price, after, ev),
        stop_hit(m.position.side, price, m.position.stop_loss_price),
    ensures
        ev == PositionEvent::StopLossTriggered(m.position.id),
        after.position.stop_loss_price == m.position.stop_loss_price,
{
}

/// Repricing keeps what identifies the position and records the price.
pub proof fn law_reprice_keeps_identity(
    cfg: PositionManagerConfig,
    m: ManagedPosition,
    price: Dec,
    after: ManagedPosition,
    ev: PositionEvent,
)
    requires
        repriced(cfg, m, price, after, ev),
    ensures
        after.position.id == m.position.id,
        after.position.side == m.position.side,
        after.position.quantity == m.position.quantity,
        after.position.entry_price == m.position.entry_price,
        after.position.current_price == price,
        after.highest_price.v() >= m.highest_price.v(),
        after.lowest_price.v() <= m.lowest_price.v(),
{
}

/// Break-even is applied at most once: once activated it stays activated.
pub proof fn law_break_even_sticks(
    cfg: PositionManagerConfig,
    m: ManagedPosition,
    price: Dec,
    after: ManagedPosition,
    ev: PositionEvent,
)
    requires
        repriced(cfg, m, price, after, ev),
        m.break_even_activated,
    ensures
        after.break_even_activated,
{
}

/// What is opened can be read back: after opening a position under a new
/// id, looking that id up gives the position.
pub proof fn law_open_then_get(s: Seq<ManagedPosition>, m: ManagedPosition)
    requires
        unique_ids(s),
        !has_id(s, m.position.id@),
    ensures
        unique_ids(s.push(m)),
        lookup(s.push(m), m.position.id@) == Some(m.position),
{
    let t = s.push(m);
    assert(t[s.len() as int].position.id@ == m.position.id@);
    assert(has_id(t, m.position.id@));
    let j = index_of(t, m.position.id@);
    if j < s.len() {
        assert(t[j] == s[j]);
        assert(has_id(s, m.position.id@));
    }
    assert forall|a: int, b: int|
        0 <= a < t.len() && 0 <= b < t.len() && a != b implies #[trigger] t[a].position.id@
            != #[trigger] t[b].position.id@ by {
        if a < s.len() && b < s.len() {
            assert(t[a] == s[a]);
            assert(t[b] == s[b]);
        } else if a < s.len() {
            assert(t[a] == s[a]);
        } else {
            assert(t[b] == s[b]);
        }
    }
}

/// What is closed is gone: after removing the position with an id, that id
/// is not found.
pub proof fn law_close_then_absent(s: Seq<ManagedPosition>, id: Seq<char>)
    requires
        unique_ids(s),
        has_id(s, id),
    ensures
        !has_id(s.remove(index_of(s, id)), id),
        s.remove(index_of(s, id)).len() == s.len() - 1,
{
    let i = index_of(s, id);
    let t = s.remove(i);
    if has_id(t, id) {
        let k = choose|k: int| 0 <= k < t.len() && #[trigger] t[k].position.id@ == id;
        let bk = if k < i {
            k
        } else {
            k + 1
        };
        assert(t[k] == s[bk]);
        assert(s[bk].position.id@ == s[i].position.id@);
    }
}


} // verus!
