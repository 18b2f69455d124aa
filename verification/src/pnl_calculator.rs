//! Realized and unrealized P&L over tax lots, by FIFO, LIFO or average cost,
//! with short- and long-term classification.
//!
//! The lots come from a store that the application owns: a close is
//! planned here from the open lots (in the order they are consumed) and the
//! application writes back the updated lots and the realized records.
//! Instants are milliseconds since the Unix epoch.
use crate::clock::{new_id, now_millis};
use crate::decimal::{
    abs_val, decimal_quotient, decimal_text, div_ok, mul_ok, rabs, rint, rmin, rmul, reprs, rsub,
    rsum, sub_ok, sum_all, sum_fits, Dec,
};
use crate::ws_manager::Exchange;
use vstd::prelude::*;
use vstd::string::*;

verus! {

/// How the cost of what is sold is determined.
#[derive(Clone, Copy, Debug, PartialEq, Eq, Structural)]
pub enum CostBasisMethod {
    FIFO,
    LIFO,
    AverageCost,
}

impl CostBasisMethod {
    /// First in, first out.
    pub fn default() -> (r: Self)
        ensures
            r == CostBasisMethod::FIFO,
    {
        CostBasisMethod::FIFO
    }
}

/// Side of a lot.
#[derive(Clone, Copy, Debug, PartialEq, Eq, Structural)]
pub enum PositionSide {
    Long,
    Short,
}

/// How a lot was acquired.
#[derive(Clone, Copy, Debug, PartialEq, Eq, Structural)]
pub enum AcquisitionType {
    Trade,
    Transfer,
    Airdrop,
    Other,
}

/// One year, in milliseconds.
pub open spec fn one_year_ms() -> int {
    31536000000
}

/// Held for more than a year at `sale_date`.
pub open spec fn held_long_term(acquired_at: i64, sale_date: i64) -> bool {
    sale_date - acquired_at > one_year_ms()
}

/// A unit of acquisition.
#[derive(Clone, Debug)]
pub struct TaxLot {
    pub id: String,
    pub exchange: Exchange,
    pub symbol: String,
    pub side: PositionSide,
    pub acquired_quantity: Dec,
    pub remaining_quantity: Dec,
    pub cost_per_unit: Dec,
    pub total_cost: Dec,
    pub acquired_at: i64,
    pub acquisition_type: AcquisitionType,
    pub trade_id: String,
    pub is_closed: bool,
}

impl TaxLot {
    /// A new open lot bought by a trade: all of `quantity` remains, at
    /// `price` per unit; its id is fresh and random.
    pub fn new(
        exchange: Exchange,
        symbol: String,
        side: PositionSide,
        quantity: Dec,
        price: Dec,
        acquired_at: i64,
        trade_id: String,
    ) -> (r: TaxLot)
        requires
            mul_ok(quantity.repr(), price.repr()),
        ensures
            r.exchange == exchange,
            r.symbol == symbol,
            r.side == side,
            r.acquired_quantity == quantity,
            r.remaining_quantity == quantity,
            r.cost_per_unit == price,
            r.total_cost.repr() == rmul(quantity.repr(), price.repr()),
            r.acquired_at == acquired_at,
            r.acquisition_type == AcquisitionType::Trade,
            r.trade_id == trade_id,
            !r.is_closed,
    {
        TaxLot {
            id: new_id(),
            exchange,
            symbol,
            side,
            acquired_quantity: quantity,
            remaining_quantity: quantity,
            cost_per_unit: price,
            total_cost: quantity.mul(price),
            acquired_at,
            acquisition_type: AcquisitionType::Trade,
            trade_id,
            is_closed: false,
        }
    }

    /// An identical copy.
    pub fn duplicate(&self) -> (r: TaxLot)
        ensures
            r == *self,
    {
        TaxLot {
            id: self.id.clone(),
            exchange: self.exchange,
            symbol: self.symbol.clone(),
            side: self.side,
            acquired_quantity: self.acquired_quantity,
            remaining_quantity: self.remaining_quantity,
            cost_per_unit: self.cost_per_unit,
            total_cost: self.total_cost,
            acquired_at: self.acquired_at,
            acquisition_type: self.acquisition_type,
            trade_id: self.trade_id.clone(),
            is_closed: self.is_closed,
        }
    }

    /// Held for more than 365 days at `sale_date`.
    pub fn is_long_term(&self, sale_date: i64) -> (r: bool)
        ensures
            r == held_long_term(self.acquired_at, sale_date),
    {
        (sale_date as i128) - (self.acquired_at as i128) > 31536000000
    }
}

/// P&L realized by closing (part of) a lot.
#[derive(Clone, Debug)]
pub struct RealizedPnL {
    pub id: String,
    pub exchange: Exchange,
    pub symbol: String,
    pub quantity: Dec,
    pub proceeds: Dec,
    pub cost_basis: Dec,
    pub gain_loss: Dec,
    pub is_short_term: bool,
    pub is_long_term: bool,
    pub acquired_at: i64,
    pub disposed_at: i64,
    pub lot_id: String,
    pub close_trade_id: String,
    pub method: CostBasisMethod,
}

/// P&L of the open lots of a position.
#[derive(Clone, Debug)]
pub struct UnrealizedPnL {
    pub exchange: Exchange,
    pub symbol: String,
    pub side: PositionSide,
    pub quantity: Dec,
    pub cost_basis: Dec,
    pub avg_cost_per_unit: Dec,
    pub current_price: Dec,
    pub current_value: Dec,
    pub unrealized_gain_loss: Dec,
    pub unrealized_pct: Dec,
    pub oldest_lot_date: Option<i64>,
    pub short_term_quantity: Dec,
    pub long_term_quantity: Dec,
}

/// Realized P&L over a period.
#[derive(Clone, Debug)]
pub struct PnLSummary {
    pub exchange: Exchange,
    pub symbol: Option<String>,
    pub period_start: i64,
    pub period_end: i64,
    pub total_realized: Dec,
    pub short_term_gains: Dec,
    pub short_term_losses: Dec,
    pub long_term_gains: Dec,
    pub long_term_losses: Dec,
    pub net_short_term: Dec,
    pub net_long_term: Dec,
    pub total_proceeds: Dec,
    pub total_cost_basis: Dec,
    pub num_trades: u64,
}

/// The outcome of closing against a list of lots: the lots touched, as
/// updated, the realized records, one per touched lot, and what could not
/// be closed.
#[derive(Clone, Debug)]
pub struct ClosePlan {
    pub lots: Vec<TaxLot>,
    pub realized: Vec<RealizedPnL>,
    pub remaining: Dec,
}

// ---------------------------------------------------------------------------
// What a close computes.

/// How much is taken from `lot` when `left` is still to close: FIFO and
/// LIFO take what they can; average cost takes the lot's share of the
/// whole quantity, capped by the lot and by what is left.
pub open spec fn lot_take(
    method: CostBasisMethod,
    lot: TaxLot,
    quantity: (int, nat),
    total_open: (int, nat),
    left: (int, nat),
) -> (int, nat) {
    match method {
        CostBasisMethod::AverageCost => rmin(
            rmin(
                rmul(quantity, decimal_quotient(lot.remaining_quantity.repr(), total_open)),
                lot.remaining_quantity.repr(),
            ),
            left,
        ),
        _ => rmin(left, lot.remaining_quantity.repr()),
    }
}

/// What is still to close before lot `k`.
pub open spec fn left_before(
    method: CostBasisMethod,
    lots: Seq<TaxLot>,
    quantity: (int, nat),
    total_open: (int, nat),
    k: nat,
) -> (int, nat)
    decreases k,
{
    if k == 0 {
        quantity
    } else {
        let prev = left_before(method, lots, quantity, total_open, (k - 1) as nat);
        rsub(prev, lot_take(method, lots[k - 1], quantity, total_open, prev))
    }
}

/// What is taken from lot `k`.
pub open spec fn take_at(
    method: CostBasisMethod,
    lots: Seq<TaxLot>,
    quantity: (int, nat),
    total_open: (int, nat),
    k: nat,
) -> (int, nat) {
    lot_take(method, lots[k as int], quantity, total_open, left_before(method, lots, quantity, total_open, k))
}

/// The number of lots touched, counting from lot `k`: lots are taken in
/// order while any quantity is left.
pub open spec fn steps_from(
    method: CostBasisMethod,
    lots: Seq<TaxLot>,
    quantity: (int, nat),
    total_open: (int, nat),
    k: nat,
) -> nat
    decreases lots.len() - k,
{
    if k >= lots.len() || left_before(method, lots, quantity, total_open, k).0 <= 0 {
        k
    } else {
        steps_from(method, lots, quantity, total_open, k + 1)
    }
}

/// The number of lots a close touches.
pub open spec fn close_steps(
    method: CostBasisMethod,
    lots: Seq<TaxLot>,
    quantity: (int, nat),
    total_open: (int, nat),
) -> nat {
    steps_from(method, lots, quantity, total_open, 0)
}

/// The unit cost charged against a lot: its own (FIFO, LIFO) or the
/// average.
pub open spec fn unit_cost(method: CostBasisMethod, lot: TaxLot, average_cost: (int, nat)) -> (int, nat) {
    match method {
        CostBasisMethod::AverageCost => average_cost,
        _ => lot.cost_per_unit.repr(),
    }
}

/// Gain of selling at `proceeds` what cost `cost`: for a short, the other
/// way round.
pub open spec fn gain_of(side: PositionSide, proceeds: (int, nat), cost: (int, nat)) -> (int, nat) {
    match side {
        PositionSide::Long => rsub(proceeds, cost),
        PositionSide::Short => rsub(cost, proceeds),
    }
}

pub open spec fn gain_ok(side: PositionSide, proceeds: (int, nat), cost: (int, nat)) -> bool {
    match side {
        PositionSide::Long => sub_ok(proceeds, cost),
        PositionSide::Short => sub_ok(cost, proceeds),
    }
}

/// The arithmetic of step `k` needs no rounding.
pub open spec fn step_ok(
    method: CostBasisMethod,
    side: PositionSide,
    lots: Seq<TaxLot>,
    quantity: (int, nat),
    price: Dec,
    average_cost: (int, nat),
    total_open: (int, nat),
    k: nat,
) -> bool {
    let lot = lots[k as int];
    let left = left_before(method, lots, quantity, total_open, k);
    let take = take_at(method, lots, quantity, total_open, k);
    let cost = rmul(take, unit_cost(method, lot, average_cost));
    let proceeds = rmul(take, price.repr());
    &&& method == CostBasisMethod::AverageCost ==> {
        &&& div_ok(lot.remaining_quantity.repr(), total_open)
        &&& mul_ok(quantity, decimal_quotient(lot.remaining_quantity.repr(), total_open))
    }
    &&& sub_ok(left, take)
    &&& mul_ok(take, unit_cost(method, lot, average_cost))
    &&& mul_ok(take, price.repr())
    &&& gain_ok(side, proceeds, cost)
    &&& sub_ok(lot.remaining_quantity.repr(), take)
}

/// The arithmetic of a close needs no rounding, with `average_cost` and
/// `total_open` given by value and scale.
pub open spec fn close_ok(
    method: CostBasisMethod,
    side: PositionSide,
    lots: Seq<TaxLot>,
    quantity: Dec,
    price: Dec,
    average_cost: (int, nat),
    total_open: (int, nat),
) -> bool {
    &&& method == CostBasisMethod::AverageCost ==> {
        &&& mul_ok(quantity.repr(), average_cost)
        &&& mul_ok(quantity.repr(), price.repr())
        &&& gain_ok(side, rmul(quantity.repr(), price.repr()), rmul(quantity.repr(), average_cost))
    }
    &&& forall|k: nat|
        k < close_steps(method, lots, quantity.repr(), total_open) ==> #[trigger] step_ok(
            method,
            side,
            lots,
            quantity.repr(),
            price,
            average_cost,
            total_open,
            k,
        )
}

/// The arithmetic of a close needs no rounding.
pub open spec fn close_arith_ok(
    method: CostBasisMethod,
    side: PositionSide,
    lots: Seq<TaxLot>,
    quantity: Dec,
    price: Dec,
    average_cost: Dec,
    total_open: Dec,
) -> bool {
    close_ok(method, side, lots, quantity, price, average_cost.repr(), total_open.repr())
}

/// `after` is `before` with `take` consumed: its remaining quantity falls
/// by `take`, and it is closed once nothing remains.
pub open spec fn lot_consumed(before: TaxLot, take: (int, nat), after: TaxLot) -> bool {
    &&& after.remaining_quantity.repr() == rsub(before.remaining_quantity.repr(), take)
    &&& after == TaxLot {
        remaining_quantity: after.remaining_quantity,
        is_closed: after.remaining_quantity.v() <= 0,
        ..before
    }
}

/// `p` records taking `take` from `lot`.
pub open spec fn realized_from(
    p: RealizedPnL,
    method: CostBasisMethod,
    exchange: Exchange,
    symbol: Seq<char>,
    side: PositionSide,
    lot: TaxLot,
    take: (int, nat),
    price: Dec,
    average_cost: (int, nat),
    timestamp: i64,
    trade_id: Seq<char>,
) -> bool {
    let cost = rmul(take, unit_cost(method, lot, average_cost));
    let proceeds = rmul(take, price.repr());
    &&& p.exchange == exchange
    &&& p.symbol@ == symbol
    &&& p.quantity.repr() == take
    &&& p.proceeds.repr() == proceeds
    &&& p.cost_basis.repr() == cost
    &&& p.gain_loss.repr() == gain_of(side, proceeds, cost)
    &&& p.is_long_term == held_long_term(lot.acquired_at, timestamp)
    &&& p.is_short_term == !held_long_term(lot.acquired_at, timestamp)
    &&& p.acquired_at == lot.acquired_at
    &&& p.disposed_at == timestamp
    &&& p.lot_id == lot.id
    &&& p.close_trade_id@ == trade_id
    &&& p.method == method
}

/// `plan` closes `quantity` at `price` against `lots`, taken in order while
/// any quantity is left: each touched lot consumed by what is taken from
/// it, one realized record per touched lot, and what could not be closed.
pub open spec fn close_planned(
    m: CostBasisMethod,
    exchange: Exchange,
    symbol: Seq<char>,
    side: PositionSide,
    quantity: Dec,
    price: Dec,
    timestamp: i64,
    trade_id: Seq<char>,
    lots: Seq<TaxLot>,
    average_cost: (int, nat),
    total_open: (int, nat),
    plan: ClosePlan,
) -> bool {
    let n = close_steps(m, lots, quantity.repr(), total_open);
    &&& plan.lots@.len() == n
    &&& plan.realized@.len() == n
    &&& plan.remaining.repr() == left_before(m, lots, quantity.repr(), total_open, n)
    &&& forall|k: int|
        0 <= k < n ==> lot_consumed(
            lots[k],
            take_at(m, lots, quantity.repr(), total_open, k as nat),
            #[trigger] plan.lots@[k],
        )
    &&& forall|k: int|
        0 <= k < n ==> realized_from(
            #[trigger] plan.realized@[k],
            m,
            exchange,
            symbol,
            side,
            lots[k],
            take_at(m, lots, quantity.repr(), total_open, k as nat),
            price,
            average_cost,
            timestamp,
            trade_id,
        )
}

/// "LONG" or "SHORT".
pub open spec fn side_word(side: PositionSide) -> Seq<char> {
    match side {
        PositionSide::Long => "LONG"@,
        PositionSide::Short => "SHORT"@,
    }
}

/// The error for a close with no open lots.
pub open spec fn no_lots_text(side: PositionSide, symbol: Seq<char>) -> Seq<char> {
    "No open "@ + side_word(side) + " lots to close for "@ + symbol
}

/// The error for a close that could not take the whole quantity.
pub open spec fn shortfall_text(quantity: Dec, symbol: Seq<char>, remaining: Dec) -> Seq<char> {
    "Could not fully close "@ + decimal_text(quantity.repr()) + " "@ + symbol + " - "@
        + decimal_text(remaining.repr()) + " remaining"@
}

// What an unrealized valuation computes.

/// The remaining quantities of the lots.
pub open spec fn remaining_of(lots: Seq<TaxLot>) -> Seq<(int, nat)> {
    lots.map_values(|l: TaxLot| l.remaining_quantity.repr())
}

/// The cost of what remains of each lot.
pub open spec fn remaining_cost_of(lots: Seq<TaxLot>) -> Seq<(int, nat)> {
    lots.map_values(|l: TaxLot| rmul(l.remaining_quantity.repr(), l.cost_per_unit.repr()))
}

/// The remaining quantities of the lots that are (`long`) or are not held
/// long-term at `now`, in order.
pub open spec fn term_remaining(lots: Seq<TaxLot>, now: i64, long: bool) -> Seq<(int, nat)>
    decreases lots.len(),
{
    if lots.len() == 0 {
        Seq::empty()
    } else {
        let rest = term_remaining(lots.drop_last(), now, long);
        if held_long_term(lots.last().acquired_at, now) == long {
            rest.push(lots.last().remaining_quantity.repr())
        } else {
            rest
        }
    }
}

/// The earliest acquisition instant.
pub open spec fn oldest_of(lots: Seq<TaxLot>) -> i64
    decreases lots.len(),
{
    if lots.len() <= 1 {
        lots[0].acquired_at
    } else {
        let o = oldest_of(lots.drop_last());
        if lots.last().acquired_at < o {
            lots.last().acquired_at
        } else {
            o
        }
    }
}

pub open spec fn unrealized_arith_ok(lots: Seq<TaxLot>, side: PositionSide, price: Dec, now: i64) -> bool {
    let q = rsum(remaining_of(lots));
    let c = rsum(remaining_cost_of(lots));
    let value = rmul(q, price.repr());
    let gain = gain_of(side, value, c);
    &&& forall|i: int|
        0 <= i < lots.len() ==> mul_ok(
            #[trigger] lots[i].remaining_quantity.repr(),
            lots[i].cost_per_unit.repr(),
        )
    &&& sum_fits(remaining_of(lots))
    &&& sum_fits(remaining_cost_of(lots))
    &&& sum_fits(term_remaining(lots, now, true))
    &&& sum_fits(term_remaining(lots, now, false))
    &&& mul_ok(q, price.repr())
    &&& gain_ok(side, value, c)
    &&& q.0 > 0 ==> div_ok(c, q)
    &&& c.0 > 0 ==> div_ok(gain, c) && mul_ok(decimal_quotient(gain, c), rint(100))
}

/// `u` values the open `lots` of `side` of `symbol` on `exchange` at
/// `price` and instant `now`: their remaining quantity and its cost, the
/// average cost per unit, the value at `price` and the gain over the cost
/// (for a short, the other way round), as a percentage of the cost too,
/// the oldest acquisition, and the quantities held short- and long-term.
pub open spec fn unrealized_of(
    u: UnrealizedPnL,
    exchange: Exchange,
    symbol: Seq<char>,
    side: PositionSide,
    price: Dec,
    lots: Seq<TaxLot>,
    now: i64,
) -> bool {
    let q = rsum(remaining_of(lots));
    let c = rsum(remaining_cost_of(lots));
    let value = rmul(q, price.repr());
    let gain = gain_of(side, value, c);
    &&& u.exchange == exchange
    &&& u.symbol@ == symbol
    &&& u.side == side
    &&& u.quantity.repr() == q
    &&& u.cost_basis.repr() == c
    &&& u.avg_cost_per_unit.repr() == if q.0 > 0 {
        decimal_quotient(c, q)
    } else {
        (0int, 0nat)
    }
    &&& u.current_price == price
    &&& u.current_value.repr() == value
    &&& u.unrealized_gain_loss.repr() == gain
    &&& u.unrealized_pct.repr() == if c.0 > 0 {
        rmul(decimal_quotient(gain, c), rint(100))
    } else {
        (0int, 0nat)
    }
    &&& u.oldest_lot_date == Some(oldest_of(lots))
    &&& u.short_term_quantity.repr() == rsum(term_remaining(lots, now, false))
    &&& u.long_term_quantity.repr() == rsum(term_remaining(lots, now, true))
}

// What a summary computes.

/// The gains (`gains`) or the sizes of the losses of the records that are
/// short-term (`short`) or long-term, in order.
pub open spec fn bucket(pnls: Seq<RealizedPnL>, short: bool, gains: bool) -> Seq<(int, nat)>
    decreases pnls.len(),
{
    if pnls.len() == 0 {
        Seq::empty()
    } else {
        let rest = bucket(pnls.drop_last(), short, gains);
        let p = pnls.last();
        let in_term = if short {
            p.is_short_term
        } else {
            p.is_long_term
        };
        if in_term && (p.gain_loss.v() > 0) == gains {
            rest.push(
                if gains {
                    p.gain_loss.repr()
                } else {
                    rabs(p.gain_loss.repr())
                },
            )
        } else {
            rest
        }
    }
}

pub open spec fn gains_of(pnls: Seq<RealizedPnL>) -> Seq<(int, nat)> {
    pnls.map_values(|p: RealizedPnL| p.gain_loss.repr())
}

pub open spec fn proceeds_of(pnls: Seq<RealizedPnL>) -> Seq<(int, nat)> {
    pnls.map_values(|p: RealizedPnL| p.proceeds.repr())
}

pub open spec fn costs_of(pnls: Seq<RealizedPnL>) -> Seq<(int, nat)> {
    pnls.map_values(|p: RealizedPnL| p.cost_basis.repr())
}

pub open spec fn summary_arith_ok(pnls: Seq<RealizedPnL>) -> bool {
    &&& sum_fits(gains_of(pnls))
    &&& sum_fits(proceeds_of(pnls))
    &&& sum_fits(costs_of(pnls))
    &&& sum_fits(bucket(pnls, true, true))
    &&& sum_fits(bucket(pnls, true, false))
    &&& sum_fits(bucket(pnls, false, true))
    &&& sum_fits(bucket(pnls, false, false))
    &&& sub_ok(rsum(bucket(pnls, true, true)), rsum(bucket(pnls, true, false)))
    &&& sub_ok(rsum(bucket(pnls, false, true)), rsum(bucket(pnls, false, false)))
}

/// `r` sums the realized records `pnls` of the period from `start_time`
/// to `end_time`: total gain, proceeds and cost; gains and losses split
/// into short and long term, and their net values.  The exchange defaults
/// to Binance.
pub open spec fn summary_of(
    r: PnLSummary,
    pnls: Seq<RealizedPnL>,
    exchange: Option<Exchange>,
    start_time: i64,
    end_time: i64,
) -> bool {
    &&& r.exchange == match exchange {
        Some(e) => e,
        None => Exchange::Binance,
    }
    &&& r.period_start == start_time
    &&& r.period_end == end_time
    &&& r.total_realized.repr() == rsum(gains_of(pnls))
    &&& r.total_proceeds.repr() == rsum(proceeds_of(pnls))
    &&& r.total_cost_basis.repr() == rsum(costs_of(pnls))
    &&& r.short_term_gains.repr() == rsum(bucket(pnls, true, true))
    &&& r.short_term_losses.repr() == rsum(bucket(pnls, true, false))
    &&& r.long_term_gains.repr() == rsum(bucket(pnls, false, true))
    &&& r.long_term_losses.repr() == rsum(bucket(pnls, false, false))
    &&& r.net_short_term.repr() == rsub(rsum(bucket(pnls, true, true)), rsum(bucket(pnls, true, false)))
    &&& r.net_long_term.repr() == rsub(rsum(bucket(pnls, false, true)), rsum(bucket(pnls, false, false)))
    &&& r.num_trades == pnls.len()
}

/// Plans closing `quantity` at `price` against the open `lots`, given
/// in the order they are consumed (oldest first for FIFO and average
/// cost, newest first for LIFO).  Lots are taken in order while any
/// quantity is left.  Average cost charges `average_cost` per unit and
/// takes from each lot its share of `total_open`.  An error when there
/// are no lots.
pub fn plan_close(
    method: CostBasisMethod,
    exchange: Exchange,
    symbol: &str,
    side: PositionSide,
    quantity: Dec,
    price: Dec,
    timestamp: i64,
    trade_id: &str,
    lots: &Vec<TaxLot>,
    average_cost: Dec,
    total_open: Dec,
) -> (r: Result<ClosePlan, String>)
    requires
        close_arith_ok(method, side, lots@, quantity, price, average_cost, total_open),
    ensures
        lots@.len() == 0 ==> (r matches Err(e) && e@ == no_lots_text(side, symbol@)),
        lots@.len() > 0 ==> (r matches Ok(plan) && close_planned(
            method,
            exchange,
            symbol@,
            side,
            quantity,
            price,
            timestamp,
            trade_id@,
            lots@,
            average_cost.repr(),
            total_open.repr(),
            plan,
        )),
{
    if lots.len() == 0 {
        let mut message = String::new();
        message.append("No open ");
        match side {
            PositionSide::Long => message.append("LONG"),
            PositionSide::Short => message.append("SHORT"),
        }
        message.append(" lots to close for ");
        message.append(symbol);
        return Err(message);
    }
    let ghost q = quantity.repr();
    let ghost t = total_open.repr();
    if method == CostBasisMethod::AverageCost {
        let whole_cost = quantity.mul(average_cost);
        let whole_proceeds = quantity.mul(price);
        let _whole_gain = match side {
            PositionSide::Long => whole_proceeds.sub(whole_cost),
            PositionSide::Short => whole_cost.sub(whole_proceeds),
        };
    }
    let mut remaining = quantity;
    let mut touched: Vec<TaxLot> = Vec::new();
    let mut realized: Vec<RealizedPnL> = Vec::new();
    let mut i: usize = 0;
    while i < lots.len() && remaining.is_positive()
        invariant
            i <= lots@.len(),
            close_arith_ok(method, side, lots@, quantity, price, average_cost, total_open),
            q == quantity.repr(),
            t == total_open.repr(),
            remaining.repr() == left_before(method, lots@, q, t, i as nat),
            forall|j: nat| j < i ==> (#[trigger] left_before(method, lots@, q, t, j)).0 > 0,
            touched@.len() == i,
            realized@.len() == i,
            forall|k: int|
                0 <= k < i ==> lot_consumed(
                    lots@[k],
                    take_at(method, lots@, q, t, k as nat),
                    #[trigger] touched@[k],
                ),
            forall|k: int|
                0 <= k < i ==> realized_from(
                    #[trigger] realized@[k],
                    method,
                    exchange,
                    symbol@,
                    side,
                    lots@[k],
                    take_at(method, lots@, q, t, k as nat),
                    price,
                    average_cost.repr(),
                    timestamp,
                    trade_id@,
                ),
        decreases lots@.len() - i,
    {
        proof {
            lemma_steps_at_least(method, lots@, q, t, i as nat);
            assert(step_ok(method, side, lots@, q, price, average_cost.repr(), t, i as nat));
        }
        let lot = &lots[i];
        let take = match method {
            CostBasisMethod::AverageCost => {
                let share = lot.remaining_quantity.div(total_open);
                quantity.mul(share).min(&lot.remaining_quantity).min(&remaining)
            },
            _ => remaining.min(&lot.remaining_quantity),
        };
        let unit = match method {
            CostBasisMethod::AverageCost => average_cost,
            _ => lot.cost_per_unit,
        };
        remaining = remaining.sub(take);
        let cost = take.mul(unit);
        let proceeds = take.mul(price);
        let gain = match side {
            PositionSide::Long => proceeds.sub(cost),
            PositionSide::Short => cost.sub(proceeds),
        };
        let long_term = lot.is_long_term(timestamp);
        let record = RealizedPnL {
            id: new_id(),
            exchange,
            symbol: symbol.to_string(),
            quantity: take,
            proceeds,
            cost_basis: cost,
            gain_loss: gain,
            is_short_term: !long_term,
            is_long_term: long_term,
            acquired_at: lot.acquired_at,
            disposed_at: timestamp,
            lot_id: lot.id.clone(),
            close_trade_id: trade_id.to_string(),
            method,
        };
        let mut updated = lot.duplicate();
        updated.remaining_quantity = lot.remaining_quantity.sub(take);
        updated.is_closed = !updated.remaining_quantity.is_positive();
        touched.push(updated);
        realized.push(record);
        i += 1;
    }
    proof {
        lemma_steps_exact(method, lots@, q, t, i as nat);
    }
    Ok(ClosePlan { lots: touched, realized, remaining })
}


/// Values the open `lots` of a position at `current_price` and instant
/// `now`; None when there are none.
pub fn value_open_lots(
    exchange: Exchange,
    symbol: &str,
    side: PositionSide,
    current_price: Dec,
    lots: &Vec<TaxLot>,
    now: i64,
) -> (r: Option<UnrealizedPnL>)
    requires
        unrealized_arith_ok(lots@, side, current_price, now),
    ensures
        lots@.len() == 0 ==> r is None,
        lots@.len() > 0 ==> (r matches Some(u) && unrealized_of(
            u,
            exchange,
            symbol@,
            side,
            current_price,
            lots@,
            now,
        )),
{
    if lots.len() == 0 {
        return None;
    }
    let mut quantities: Vec<Dec> = Vec::new();
    let mut costs: Vec<Dec> = Vec::new();
    let mut short_term: Vec<Dec> = Vec::new();
    let mut long_term: Vec<Dec> = Vec::new();
    let mut oldest: i64 = lots[0].acquired_at;
    let mut i: usize = 0;
    while i < lots.len()
        invariant
            0 < lots@.len(),
            i <= lots@.len(),
            unrealized_arith_ok(lots@, side, current_price, now),
            reprs(quantities@) == remaining_of(lots@.take(i as int)),
            reprs(costs@) == remaining_cost_of(lots@.take(i as int)),
            reprs(short_term@) == term_remaining(lots@.take(i as int), now, false),
            reprs(long_term@) == term_remaining(lots@.take(i as int), now, true),
            i > 0 ==> oldest == oldest_of(lots@.take(i as int)),
            i == 0 ==> oldest == lots@[0].acquired_at,
        decreases lots@.len() - i,
    {
        let ghost before = lots@.take(i as int);
        let ghost after = lots@.take(i as int + 1);
        assert(after.drop_last() =~= before);
        let lot = &lots[i];
        assert(mul_ok(lots@[i as int].remaining_quantity.repr(), lots@[i as int].cost_per_unit.repr()));
        let ghost q0 = quantities@;
        let ghost c0 = costs@;
        quantities.push(lot.remaining_quantity);
        costs.push(lot.remaining_quantity.mul(lot.cost_per_unit));
        assert(reprs(quantities@) =~= reprs(q0).push(lot.remaining_quantity.repr()));
        assert(remaining_of(after) =~= remaining_of(before).push(lot.remaining_quantity.repr()));
        assert(reprs(costs@) =~= reprs(c0).push(costs@[i as int].repr()));
        assert(remaining_cost_of(after) =~= remaining_cost_of(before).push(
            rmul(lot.remaining_quantity.repr(), lot.cost_per_unit.repr()),
        ));
        if i > 0 && lot.acquired_at < oldest {
            oldest = lot.acquired_at;
        }
        let ghost s0 = short_term@;
        let ghost l0 = long_term@;
        if lot.is_long_term(now) {
            long_term.push(lot.remaining_quantity);
            assert(reprs(long_term@) =~= reprs(l0).push(lot.remaining_quantity.repr()));
        } else {
            short_term.push(lot.remaining_quantity);
            assert(reprs(short_term@) =~= reprs(s0).push(lot.remaining_quantity.repr()));
        }
        i += 1;
    }
    assert(lots@.take(lots@.len() as int) =~= lots@);
    let total_quantity = sum_all(&quantities);
    let total_cost = sum_all(&costs);
    let short_term_qty = sum_all(&short_term);
    let long_term_qty = sum_all(&long_term);
    let current_value = total_quantity.mul(current_price);
    let gain = match side {
        PositionSide::Long => current_value.sub(total_cost),
        PositionSide::Short => total_cost.sub(current_value),
    };
    let avg_cost = if total_quantity.is_positive() {
        total_cost.div(total_quantity)
    } else {
        Dec::zero()
    };
    let pct = if total_cost.is_positive() {
        gain.div(total_cost).mul(Dec::from_u32(100))
    } else {
        Dec::zero()
    };
    Some(
        UnrealizedPnL {
            exchange,
            symbol: symbol.to_string(),
            side,
            quantity: total_quantity,
            cost_basis: total_cost,
            avg_cost_per_unit: avg_cost,
            current_price,
            current_value,
            unrealized_gain_loss: gain,
            unrealized_pct: pct,
            oldest_lot_date: Some(oldest),
            short_term_quantity: short_term_qty,
            long_term_quantity: long_term_qty,
        },
    )
}


/// Sums the realized records of a period: total gain, proceeds and
/// cost; gains and losses split into short and long term, and their net
/// values.  The exchange defaults to Binance.
pub fn summarize_realized(
    pnls: &Vec<RealizedPnL>,
    exchange: Option<Exchange>,
    symbol: Option<String>,
    start_time: i64,
    end_time: i64,
) -> (r: PnLSummary)
    requires
        summary_arith_ok(pnls@),
    ensures
        summary_of(r, pnls@, exchange, start_time, end_time),
        r.symbol == symbol,
{
    let mut gains: Vec<Dec> = Vec::new();
    let mut proceeds: Vec<Dec> = Vec::new();
    let mut costs: Vec<Dec> = Vec::new();
    let mut st_gains: Vec<Dec> = Vec::new();
    let mut st_losses: Vec<Dec> = Vec::new();
    let mut lt_gains: Vec<Dec> = Vec::new();
    let mut lt_losses: Vec<Dec> = Vec::new();
    let mut i: usize = 0;
    while i < pnls.len()
        invariant
            i <= pnls@.len(),
            reprs(gains@) == gains_of(pnls@.take(i as int)),
            reprs(proceeds@) == proceeds_of(pnls@.take(i as int)),
            reprs(costs@) == costs_of(pnls@.take(i as int)),
            reprs(st_gains@) == bucket(pnls@.take(i as int), true, true),
            reprs(st_losses@) == bucket(pnls@.take(i as int), true, false),
            reprs(lt_gains@) == bucket(pnls@.take(i as int), false, true),
            reprs(lt_losses@) == bucket(pnls@.take(i as int), false, false),
        decreases pnls@.len() - i,
    {
        let ghost before = pnls@.take(i as int);
        let ghost after = pnls@.take(i as int + 1);
        assert(after.drop_last() =~= before);
        let p = &pnls[i];
        let ghost g0 = gains@;
        let ghost p0 = proceeds@;
        let ghost c0 = costs@;
        gains.push(p.gain_loss);
        proceeds.push(p.proceeds);
        costs.push(p.cost_basis);
        assert(reprs(gains@) =~= reprs(g0).push(p.gain_loss.repr()));
        assert(gains_of(after) =~= gains_of(before).push(p.gain_loss.repr()));
        assert(reprs(proceeds@) =~= reprs(p0).push(p.proceeds.repr()));
        assert(proceeds_of(after) =~= proceeds_of(before).push(p.proceeds.repr()));
        assert(reprs(costs@) =~= reprs(c0).push(p.cost_basis.repr()));
        assert(costs_of(after) =~= costs_of(before).push(p.cost_basis.repr()));
        let positive = p.gain_loss.is_positive();
        let ghost sg = st_gains@;
        let ghost sl = st_losses@;
        let ghost lg = lt_gains@;
        let ghost ll = lt_losses@;
        if p.is_short_term {
            if positive {
                st_gains.push(p.gain_loss);
                assert(reprs(st_gains@) =~= reprs(sg).push(p.gain_loss.repr()));
            } else {
                let loss = p.gain_loss.abs();
                st_losses.push(loss);
                assert(reprs(st_losses@) =~= reprs(sl).push(loss.repr()));
            }
        }
        if p.is_long_term {
            if positive {
                lt_gains.push(p.gain_loss);
                assert(reprs(lt_gains@) =~= reprs(lg).push(p.gain_loss.repr()));
            } else {
                let loss = p.gain_loss.abs();
                lt_losses.push(loss);
                assert(reprs(lt_losses@) =~= reprs(ll).push(loss.repr()));
            }
        }
        i += 1;
    }
    assert(pnls@.take(pnls@.len() as int) =~= pnls@);
    let short_gains = sum_all(&st_gains);
    let short_losses = sum_all(&st_losses);
    let long_gains = sum_all(&lt_gains);
    let long_losses = sum_all(&lt_losses);
    PnLSummary {
        exchange: match exchange {
            Some(e) => e,
            None => Exchange::Binance,
        },
        symbol,
        period_start: start_time,
        period_end: end_time,
        total_realized: sum_all(&gains),
        short_term_gains: short_gains,
        short_term_losses: short_losses,
        long_term_gains: long_gains,
        long_term_losses: long_losses,
        net_short_term: short_gains.sub(short_losses),
        net_long_term: long_gains.sub(long_losses),
        total_proceeds: sum_all(&proceeds),
        total_cost_basis: sum_all(&costs),
        num_trades: pnls.len() as u64,
    }
}


// ---------------------------------------------------------------------------
// Where lots and realized records are kept.

/// `lot` is an open lot of `side` of `symbol` on `exchange`.
pub open spec fn open_lot_of(lot: TaxLot, exchange: Exchange, symbol: Seq<char>, side: PositionSide) -> bool {
    &&& lot.exchange == exchange
    &&& lot.symbol@ == symbol
    &&& lot.side == side
    &&& !lot.is_closed
}

/// The open lots of `side` of `symbol` on `exchange`, in the order `s`
/// keeps them.
pub open spec fn open_lots(
    s: Seq<TaxLot>,
    exchange: Exchange,
    symbol: Seq<char>,
    side: PositionSide,
) -> Seq<TaxLot>
    decreases s.len(),
{
    if s.len() == 0 {
        Seq::empty()
    } else {
        let rest = open_lots(s.drop_last(), exchange, symbol, side);
        if open_lot_of(s.last(), exchange, symbol, side) {
            rest.push(s.last())
        } else {
            rest
        }
    }
}

/// The open lots a close consumes, in the order it consumes them: as kept
/// (oldest first), or newest first for LIFO.
pub open spec fn close_lots(
    method: CostBasisMethod,
    s: Seq<TaxLot>,
    exchange: Exchange,
    symbol: Seq<char>,
    side: PositionSide,
) -> Seq<TaxLot> {
    match method {
        CostBasisMethod::LIFO => open_lots(s, exchange, symbol, side).reverse(),
        _ => open_lots(s, exchange, symbol, side),
    }
}

/// How many lots at the front of `s` were acquired at or before `t`.
pub open spec fn acquired_by(s: Seq<TaxLot>, t: i64) -> nat
    decreases s.len(),
{
    if s.len() == 0 {
        0
    } else if s[0].acquired_at <= t {
        1 + acquired_by(s.drop_first(), t)
    } else {
        0
    }
}

/// `s` with `lot` placed after the lots acquired at or before it.
pub open spec fn lot_inserted(s: Seq<TaxLot>, lot: TaxLot) -> Seq<TaxLot> {
    s.insert(acquired_by(s, lot.acquired_at) as int, lot)
}

/// `s` with each lot that has the id of `lot` replaced by it.
pub open spec fn lot_updated(s: Seq<TaxLot>, lot: TaxLot) -> Seq<TaxLot> {
    s.map_values(|l: TaxLot| if l.id@ == lot.id@ { lot } else { l })
}

/// `s` after each of `updates`, in turn.
pub open spec fn lots_updated(s: Seq<TaxLot>, updates: Seq<TaxLot>) -> Seq<TaxLot>
    decreases updates.len(),
{
    if updates.len() == 0 {
        s
    } else {
        lot_updated(lots_updated(s, updates.drop_last()), updates.last())
    }
}

/// The remaining quantity of `lots`.
pub open spec fn lots_quantity(lots: Seq<TaxLot>) -> (int, nat) {
    rsum(remaining_of(lots))
}

/// The cost of what remains of `lots`.
pub open spec fn lots_cost(lots: Seq<TaxLot>) -> (int, nat) {
    rsum(remaining_cost_of(lots))
}

/// The average cost per unit of what remains of `lots`; zero when nothing
/// remains.
pub open spec fn lots_average(lots: Seq<TaxLot>) -> (int, nat) {
    if lots_quantity(lots).0 > 0 {
        decimal_quotient(lots_cost(lots), lots_quantity(lots))
    } else {
        (0, 0)
    }
}

/// The cost of what remains of each lot needs no rounding.
pub open spec fn lot_costs_ok(lots: Seq<TaxLot>) -> bool {
    forall|i: int|
        0 <= i < lots.len() ==> mul_ok(
            #[trigger] lots[i].remaining_quantity.repr(),
            lots[i].cost_per_unit.repr(),
        )
}

/// Summing and averaging what remains of `lots` needs no rounding.
pub open spec fn lots_arith_ok(lots: Seq<TaxLot>) -> bool {
    &&& lot_costs_ok(lots)
    &&& sum_fits(remaining_of(lots))
    &&& sum_fits(remaining_cost_of(lots))
    &&& lots_quantity(lots).0 > 0 ==> div_ok(lots_cost(lots), lots_quantity(lots))
}

/// `p` was disposed of between `start_time` and `end_time`, on `exchange`
/// and of `symbol` when they are given.
pub open spec fn realized_selected(
    p: RealizedPnL,
    exchange: Option<Exchange>,
    symbol: Option<Seq<char>>,
    start_time: i64,
    end_time: i64,
) -> bool {
    &&& (exchange matches Some(e) ==> p.exchange == e)
    &&& (symbol matches Some(t) ==> p.symbol@ == t)
    &&& start_time <= p.disposed_at <= end_time
}

/// The records of `s` that are selected, in order.
pub open spec fn realized_in(
    s: Seq<RealizedPnL>,
    exchange: Option<Exchange>,
    symbol: Option<Seq<char>>,
    start_time: i64,
    end_time: i64,
) -> Seq<RealizedPnL>
    decreases s.len(),
{
    if s.len() == 0 {
        Seq::empty()
    } else {
        let rest = realized_in(s.drop_last(), exchange, symbol, start_time, end_time);
        if realized_selected(s.last(), exchange, symbol, start_time, end_time) {
            rest.push(s.last())
        } else {
            rest
        }
    }
}

/// The text of an optional symbol.
pub open spec fn symbol_text(symbol: Option<&str>) -> Option<Seq<char>> {
    match symbol {
        Some(t) => Some(t@),
        None => None,
    }
}

/// Keeps tax lots and realized records.
pub trait TaxLotStore {
    /// The lots kept, in order of acquisition; lots acquired at the same
    /// instant in the order they were inserted.
    spec fn lots(&self) -> Seq<TaxLot>;

    /// The realized records kept, in the order they were saved.
    spec fn realized(&self) -> Seq<RealizedPnL>;

    /// Keeps `lot` after the lots acquired at or before it; on an error
    /// nothing changes.
    fn insert_lot(&mut self, lot: &TaxLot) -> (r: Result<(), String>)
        ensures
            r is Ok ==> final(self).lots() == lot_inserted(old(self).lots(), *lot),
            r is Err ==> final(self).lots() == old(self).lots(),
            final(self).realized() == old(self).realized(),
    ;

    /// Replaces the lot with the id of `lot` by it; on an error nothing
    /// changes.
    fn update_lot(&mut self, lot: &TaxLot) -> (r: Result<(), String>)
        ensures
            r is Ok ==> final(self).lots() == lot_updated(old(self).lots(), *lot),
            r is Err ==> final(self).lots() == old(self).lots(),
            final(self).realized() == old(self).realized(),
    ;

    /// The open lots of a position, oldest first.
    fn get_open_lots(&self, exchange: Exchange, symbol: &str, side: PositionSide) -> (r: Vec<TaxLot>)
        ensures
            r@ == open_lots(self.lots(), exchange, symbol@, side),
    ;

    /// The open lots of a position, newest first.
    fn get_open_lots_lifo(&self, exchange: Exchange, symbol: &str, side: PositionSide) -> (r: Vec<
        TaxLot,
    >)
        ensures
            r@ == open_lots(self.lots(), exchange, symbol@, side).reverse(),
    ;

    /// Keeps `pnl` after the others; on an error nothing changes.
    fn save_realized_pnl(&mut self, pnl: &RealizedPnL) -> (r: Result<(), String>)
        ensures
            r is Ok ==> final(self).realized() == old(self).realized().push(*pnl),
            r is Err ==> final(self).realized() == old(self).realized(),
            final(self).lots() == old(self).lots(),
    ;

    /// The records disposed of from `start_time` to `end_time`, on
    /// `exchange` and of `symbol` when given, in the order they were saved.
    fn get_realized_pnl(
        &self,
        exchange: Option<Exchange>,
        symbol: Option<&str>,
        start_time: i64,
        end_time: i64,
    ) -> (r: Vec<RealizedPnL>)
        ensures
            r@ == realized_in(self.realized(), exchange, symbol_text(symbol), start_time, end_time),
    ;

    /// The remaining quantity of the open lots of a position.
    fn get_total_open_quantity(&self, exchange: Exchange, symbol: &str, side: PositionSide) -> (r:
        Dec)
        requires
            sum_fits(remaining_of(open_lots(self.lots(), exchange, symbol@, side))),
        ensures
            r.repr() == lots_quantity(open_lots(self.lots(), exchange, symbol@, side)),
    ;

    /// The cost of what remains of the open lots of a position.
    fn get_total_cost_basis(&self, exchange: Exchange, symbol: &str, side: PositionSide) -> (r: Dec)
        requires
            lot_costs_ok(open_lots(self.lots(), exchange, symbol@, side)),
            sum_fits(remaining_cost_of(open_lots(self.lots(), exchange, symbol@, side))),
        ensures
            r.repr() == lots_cost(open_lots(self.lots(), exchange, symbol@, side)),
    ;

    /// The average cost per unit of the open lots of a position; zero when
    /// nothing remains.
    fn get_average_cost(&self, exchange: Exchange, symbol: &str, side: PositionSide) -> (r: Dec)
        requires
            lots_arith_ok(open_lots(self.lots(), exchange, symbol@, side)),
        ensures
            r.repr() == lots_average(open_lots(self.lots(), exchange, symbol@, side)),
    ;
}

/// The average cost a close by `method` charges: that of the open lots
/// for average cost; none is read otherwise.
pub open spec fn close_average(method: CostBasisMethod, open: Seq<TaxLot>) -> (int, nat) {
    match method {
        CostBasisMethod::AverageCost => lots_average(open),
        _ => (0, 0),
    }
}

/// The open quantity a close by `method` shares out: that of the open lots
/// for average cost; none is read otherwise.
pub open spec fn close_total(method: CostBasisMethod, open: Seq<TaxLot>) -> (int, nat) {
    match method {
        CostBasisMethod::AverageCost => lots_quantity(open),
        _ => (0, 0),
    }
}

/// Closing `quantity` at `price` against the lots `s` needs no rounding.
pub open spec fn close_ready(
    method: CostBasisMethod,
    s: Seq<TaxLot>,
    exchange: Exchange,
    symbol: Seq<char>,
    side: PositionSide,
    quantity: Dec,
    price: Dec,
) -> bool {
    let open = open_lots(s, exchange, symbol, side);
    &&& method == CostBasisMethod::AverageCost ==> lots_arith_ok(open)
    &&& close_ok(
        method,
        side,
        close_lots(method, s, exchange, symbol, side),
        quantity,
        price,
        close_average(method, open),
        close_total(method, open),
    )
}

/// `lot` is the lot an opening trade creates: all of `quantity` remains,
/// at `price` per unit, acquired by trade `trade_id` at `acquired_at`.
pub open spec fn lot_opened(
    lot: TaxLot,
    exchange: Exchange,
    symbol: Seq<char>,
    side: PositionSide,
    quantity: Dec,
    price: Dec,
    acquired_at: i64,
    trade_id: Seq<char>,
) -> bool {
    &&& lot.exchange == exchange
    &&& lot.symbol@ == symbol
    &&& lot.side == side
    &&& lot.acquired_quantity == quantity
    &&& lot.remaining_quantity == quantity
    &&& lot.cost_per_unit == price
    &&& lot.total_cost.repr() == rmul(quantity.repr(), price.repr())
    &&& lot.acquired_at == acquired_at
    &&& lot.acquisition_type == AcquisitionType::Trade
    &&& lot.trade_id@ == trade_id
    &&& !lot.is_closed
}

/// The writes of the first `k` steps of `plan` went through, and the
/// update of lot `k` may have.
pub open spec fn partly_written(
    plan: ClosePlan,
    k: nat,
    lots0: Seq<TaxLot>,
    realized0: Seq<RealizedPnL>,
    lots1: Seq<TaxLot>,
    realized1: Seq<RealizedPnL>,
) -> bool {
    &&& realized1 == realized0 + plan.realized@.take(k as int)
    &&& (lots1 == lots_updated(lots0, plan.lots@.take(k as int)) || lots1 == lots_updated(
        lots0,
        plan.lots@.take(k as int + 1),
    ))
}

/// What writing `plan` answers: each touched lot is updated and its record
/// saved, in turn; then the records are answered, or the shortfall error
/// when quantity is left over.  A write the store refuses ends the close
/// with the store's error, after the writes before it.
pub open spec fn plan_applied(
    plan: ClosePlan,
    quantity: Dec,
    symbol: Seq<char>,
    lots0: Seq<TaxLot>,
    realized0: Seq<RealizedPnL>,
    lots1: Seq<TaxLot>,
    realized1: Seq<RealizedPnL>,
    r: Result<Vec<RealizedPnL>, String>,
) -> bool {
    let all_written = lots1 == lots_updated(lots0, plan.lots@) && realized1 == realized0
        + plan.realized@;
    match r {
        Ok(v) => all_written && v@ == plan.realized@ && plan.remaining.v() <= 0,
        Err(e) => (all_written && plan.remaining.v() > 0 && e@ == shortfall_text(
            quantity,
            symbol,
            plan.remaining,
        )) || exists|k: nat|
            k < plan.realized@.len() && #[trigger] partly_written(
                plan,
                k,
                lots0,
                realized0,
                lots1,
                realized1,
            ),
    }
}

/// Closing `quantity` of `side` of `symbol` on `exchange` at `price` took
/// the store from `lots0` and `realized0` to `lots1` and `realized1` and
/// answered `r`: with no open lot, an error and no change; otherwise the
/// close planned against the open lots, in the order `method` consumes
/// them, written to the store.
pub open spec fn close_done(
    method: CostBasisMethod,
    exchange: Exchange,
    symbol: Seq<char>,
    side: PositionSide,
    quantity: Dec,
    price: Dec,
    timestamp: i64,
    trade_id: Seq<char>,
    lots0: Seq<TaxLot>,
    realized0: Seq<RealizedPnL>,
    lots1: Seq<TaxLot>,
    realized1: Seq<RealizedPnL>,
    r: Result<Vec<RealizedPnL>, String>,
) -> bool {
    let open = open_lots(lots0, exchange, symbol, side);
    if open.len() == 0 {
        &&& r matches Err(e) && e@ == no_lots_text(side, symbol)
        &&& lots1 == lots0
        &&& realized1 == realized0
    } else {
        exists|plan: ClosePlan|
            #[trigger] close_planned(
                method,
                exchange,
                symbol,
                side,
                quantity,
                price,
                timestamp,
                trade_id,
                close_lots(method, lots0, exchange, symbol, side),
                close_average(method, open),
                close_total(method, open),
                plan,
            ) && plan_applied(plan, quantity, symbol, lots0, realized0, lots1, realized1, r)
    }
}

/// Computes P&L by one cost basis method over a store of lots.
pub struct PnLCalculator<S: TaxLotStore> {
    store: S,
    method: CostBasisMethod,
}

impl<S: TaxLotStore> PnLCalculator<S> {
    pub closed spec fn cost_method(&self) -> CostBasisMethod {
        self.method
    }

    /// The lots in the store.
    pub closed spec fn lots(&self) -> Seq<TaxLot> {
        self.store.lots()
    }

    /// The realized records in the store.
    pub closed spec fn realized(&self) -> Seq<RealizedPnL> {
        self.store.realized()
    }

    /// A calculator over `store`, using `method`.
    pub fn new(store: S, method: CostBasisMethod) -> (r: Self)
        ensures
            r.cost_method() == method,
            r.lots() == store.lots(),
            r.realized() == store.realized(),
    {
        PnLCalculator { store, method }
    }

    /// Switches to `method`.
    pub fn set_method(&mut self, method: CostBasisMethod)
        ensures
            final(self).cost_method() == method,
            final(self).lots() == old(self).lots(),
            final(self).realized() == old(self).realized(),
    {
        self.method = method;
    }

    /// The method in use.
    pub fn method(&self) -> (r: CostBasisMethod)
        ensures
            r == self.cost_method(),
    {
        self.method
    }

    /// Opens a lot for a buy (long) or a sell (short) and keeps it; the
    /// store's error, if it refuses the lot.
    pub fn process_open(
        &mut self,
        exchange: Exchange,
        symbol: String,
        side: PositionSide,
        quantity: Dec,
        price: Dec,
        timestamp: i64,
        trade_id: String,
    ) -> (r: Result<TaxLot, String>)
        requires
            mul_ok(quantity.repr(), price.repr()),
        ensures
            final(self).cost_method() == old(self).cost_method(),
            final(self).realized() == old(self).realized(),
            r matches Ok(lot) ==> lot_opened(
                lot,
                exchange,
                symbol@,
                side,
                quantity,
                price,
                timestamp,
                trade_id@,
            ) && final(self).lots() == lot_inserted(old(self).lots(), lot),
            r is Err ==> final(self).lots() == old(self).lots(),
    {
        let lot = TaxLot::new(exchange, symbol, side, quantity, price, timestamp, trade_id);
        match self.store.insert_lot(&lot) {
            Ok(()) => Ok(lot),
            Err(e) => Err(e),
        }
    }

    /// Closes `quantity` of a position at `price` (a sell for a long, a
    /// buy for a short) against its open lots: oldest first, newest first
    /// for LIFO; average cost charges the average cost of the open lots and
    /// takes from each lot its share.  Each touched lot is updated and its
    /// realized record saved.  An error when there is no open lot, when the
    /// store refuses a write, or when the lots do not cover the quantity
    /// (after the lots were consumed).
    pub fn process_close(
        &mut self,
        exchange: Exchange,
        symbol: String,
        side: PositionSide,
        quantity: Dec,
        price: Dec,
        timestamp: i64,
        trade_id: String,
    ) -> (r: Result<Vec<RealizedPnL>, String>)
        requires
            close_ready(old(self).cost_method(), old(self).lots(), exchange, symbol@, side, quantity, price),
        ensures
            final(self).cost_method() == old(self).cost_method(),
            close_done(
                old(self).cost_method(),
                exchange,
                symbol@,
                side,
                quantity,
                price,
                timestamp,
                trade_id@,
                old(self).lots(),
                old(self).realized(),
                final(self).lots(),
                final(self).realized(),
                r,
            ),
    {
        let method = self.method;
        let ghost lots0 = self.store.lots();
        let ghost realized0 = self.store.realized();
        let ghost open = open_lots(lots0, exchange, symbol@, side);
        let lots = match method {
            CostBasisMethod::LIFO => self.store.get_open_lots_lifo(exchange, symbol.as_str(), side),
            _ => self.store.get_open_lots(exchange, symbol.as_str(), side),
        };
        proof {
            assert(lots@.len() == open.len());
        }
        let (average_cost, total_open) = match method {
            CostBasisMethod::AverageCost => (
                self.store.get_average_cost(exchange, symbol.as_str(), side),
                self.store.get_total_open_quantity(exchange, symbol.as_str(), side),
            ),
            _ => (Dec::zero(), Dec::zero()),
        };
        let planned = plan_close(
            method,
            exchange,
            symbol.as_str(),
            side,
            quantity,
            price,
            timestamp,
            trade_id.as_str(),
            &lots,
            average_cost,
            total_open,
        );
        let plan = match planned {
            Ok(plan) => plan,
            Err(e) => {
                return Err(e);
            },
        };
        let ghost lots_read = lots@;
        let n = plan.lots.len();
        let mut k: usize = 0;
        while k < n
            invariant
                n == plan.lots@.len(),
                n == plan.realized@.len(),
                k <= n,
                self.method == method,
                method == old(self).cost_method(),
                lots0 == old(self).lots(),
                realized0 == old(self).realized(),
                open == open_lots(lots0, exchange, symbol@, side),
                open.len() > 0,
                lots_read == close_lots(method, lots0, exchange, symbol@, side),
                close_planned(
                    method,
                    exchange,
                    symbol@,
                    side,
                    quantity,
                    price,
                    timestamp,
                    trade_id@,
                    lots_read,
                    close_average(method, open),
                    close_total(method, open),
                    plan,
                ),
                self.store.lots() == lots_updated(lots0, plan.lots@.take(k as int)),
                self.store.realized() == realized0 + plan.realized@.take(k as int),
            decreases n - k,
        {
            let ghost before_lots = self.store.lots();
            match self.store.update_lot(&plan.lots[k]) {
                Ok(()) => {},
                Err(e) => {
                    proof {
                        assert(partly_written(plan, k as nat, lots0, realized0, self.store.lots(), self.store.realized()));
                    }
                    return Err(e);
                },
            }
            proof {
                let t = plan.lots@.take(k as int + 1);
                assert(t.drop_last() =~= plan.lots@.take(k as int));
                assert(t.last() == plan.lots@[k as int]);
            }
            match self.store.save_realized_pnl(&plan.realized[k]) {
                Ok(()) => {},
                Err(e) => {
                    proof {
                        assert(partly_written(plan, k as nat, lots0, realized0, self.store.lots(), self.store.realized()));
                    }
                    return Err(e);
                },
            }
            proof {
                assert(plan.realized@.take(k as int + 1) =~= plan.realized@.take(k as int).push(
                    plan.realized@[k as int],
                ));
                assert(realized0 + plan.realized@.take(k as int + 1) =~= (realized0
                    + plan.realized@.take(k as int)).push(plan.realized@[k as int]));
            }
            k += 1;
        }
        proof {
            assert(plan.lots@.take(n as int) =~= plan.lots@);
            assert(plan.realized@.take(n as int) =~= plan.realized@);
        }
        match plan.shortfall_error(quantity, symbol.as_str()) {
            Some(e) => Err(e),
            None => Ok(plan.realized),
        }
    }

    /// Values the open lots of a position at `current_price` now; None
    /// when there are none.
    pub fn calculate_unrealized(
        &self,
        exchange: Exchange,
        symbol: &str,
        side: PositionSide,
        current_price: Dec,
    ) -> (r: Option<UnrealizedPnL>)
        requires
            forall|now: i64|
                0 <= now <= crate::clock::latest_instant() ==> unrealized_arith_ok(
                    open_lots(self.lots(), exchange, symbol@, side),
                    side,
                    current_price,
                    now,
                ),
        ensures
            open_lots(self.lots(), exchange, symbol@, side).len() == 0 ==> r is None,
            open_lots(self.lots(), exchange, symbol@, side).len() > 0 ==> (r matches Some(u)
                && exists|now: i64|
                0 <= now <= crate::clock::latest_instant() && #[trigger] unrealized_of(
                    u,
                    exchange,
                    symbol@,
                    side,
                    current_price,
                    open_lots(self.lots(), exchange, symbol@, side),
                    now,
                )),
    {
        let lots = self.store.get_open_lots(exchange, symbol, side);
        let now = now_millis();
        proof {
            assert(0 <= now <= crate::clock::latest_instant());
            assert(unrealized_arith_ok(open_lots(self.lots(), exchange, symbol@, side), side, current_price, now));
        }
        value_open_lots(exchange, symbol, side, current_price, &lots, now)
    }

    /// Sums the realized records of a period, of `exchange` and `symbol`
    /// when given.
    pub fn get_summary(
        &self,
        exchange: Option<Exchange>,
        symbol: Option<&str>,
        start_time: i64,
        end_time: i64,
    ) -> (r: PnLSummary)
        requires
            summary_arith_ok(
                realized_in(self.realized(), exchange, symbol_text(symbol), start_time, end_time),
            ),
        ensures
            summary_of(
                r,
                realized_in(self.realized(), exchange, symbol_text(symbol), start_time, end_time),
                exchange,
                start_time,
                end_time,
            ),
            symbol_text(symbol) == match r.symbol {
                Some(t) => Some(t@),
                None => None::<Seq<char>>,
            },
    {
        let pnls = self.store.get_realized_pnl(exchange, symbol, start_time, end_time);
        let name = match symbol {
            Some(t) => Some(t.to_string()),
            None => None,
        };
        summarize_realized(&pnls, exchange, name, start_time, end_time)
    }
}

impl ClosePlan {
    /// The error a close ends with when quantity is left over:
    /// "Could not fully close {quantity} {symbol} - {remaining} remaining".
    pub fn shortfall_error(&self, quantity: Dec, symbol: &str) -> (r: Option<String>)
        ensures
            self.remaining.v() > 0 ==> (r matches Some(e) && e@ == shortfall_text(
                quantity,
                symbol@,
                self.remaining,
            )),
            self.remaining.v() <= 0 ==> r is None,
    {
        if self.remaining.is_positive() {
            let mut message = String::new();
            message.append("Could not fully close ");
            message.append(&quantity.to_text());
            message.append(" ");
            message.append(symbol);
            message.append(" - ");
            message.append(&self.remaining.to_text());
            message.append(" remaining");
            Some(message)
        } else {
            None
        }
    }
}

/// Every lot before step `k` was touched: the count of steps is at least
/// `k + 1` when lot `k` exists and quantity is left before it.
pub proof fn lemma_steps_at_least(
    method: CostBasisMethod,
    lots: Seq<TaxLot>,
    q: (int, nat),
    t: (int, nat),
    k: nat,
)
    requires
        k < lots.len(),
        left_before(method, lots, q, t, k).0 > 0,
        forall|j: nat| j < k ==> (#[trigger] left_before(method, lots, q, t, j)).0 > 0,
    ensures
        k < close_steps(method, lots, q, t),
{
    lemma_steps_from_monotone(method, lots, q, t, 0, k);
}

proof fn lemma_steps_from_monotone(
    method: CostBasisMethod,
    lots: Seq<TaxLot>,
    q: (int, nat),
    t: (int, nat),
    j: nat,
    k: nat,
)
    requires
        j <= k < lots.len(),
        forall|m: nat| j <= m <= k ==> (#[trigger] left_before(method, lots, q, t, m)).0 > 0,
    ensures
        k < steps_from(method, lots, q, t, j),
    decreases k - j,
{
    assert(left_before(method, lots, q, t, j).0 > 0);
    if j < k {
        lemma_steps_from_monotone(method, lots, q, t, j + 1, k);
    } else {
        lemma_steps_from_ge(method, lots, q, t, j + 1);
    }
}

proof fn lemma_steps_from_ge(
    method: CostBasisMethod,
    lots: Seq<TaxLot>,
    q: (int, nat),
    t: (int, nat),
    j: nat,
)
    ensures
        j <= steps_from(method, lots, q, t, j),
    decreases lots.len() - j,
{
    if !(j >= lots.len() || left_before(method, lots, q, t, j).0 <= 0) {
        lemma_steps_from_ge(method, lots, q, t, j + 1);
    }
}

/// When the scan stops at `k` (no lot left, or nothing left to close) and
/// quantity was left before every earlier lot, exactly `k` lots are touched.
pub proof fn lemma_steps_exact(
    method: CostBasisMethod,
    lots: Seq<TaxLot>,
    q: (int, nat),
    t: (int, nat),
    k: nat,
)
    requires
        k <= lots.len(),
        k == lots.len() || left_before(method, lots, q, t, k).0 <= 0,
        forall|j: nat| j < k ==> (#[trigger] left_before(method, lots, q, t, j)).0 > 0,
    ensures
        close_steps(method, lots, q, t) == k,
{
    lemma_steps_from_exact(method, lots, q, t, 0, k);
}

proof fn lemma_steps_from_exact(
    method: CostBasisMethod,
    lots: Seq<TaxLot>,
    q: (int, nat),
    t: (int, nat),
    j: nat,
    k: nat,
)
    requires
        j <= k <= lots.len(),
        k == lots.len() || left_before(method, lots, q, t, k).0 <= 0,
        forall|m: nat| m < k ==> (#[trigger] left_before(method, lots, q, t, m)).0 > 0,
    ensures
        steps_from(method, lots, q, t, j) == k,
    decreases k - j,
{
    if j < k {
        assert(left_before(method, lots, q, t, j).0 > 0);
        lemma_steps_from_exact(method, lots, q, t, j + 1, k);
    }
}

// Laws of the P&L calculator.

/// FIFO and LIFO never take more from a lot than it holds, nor more than is
/// left to close: the lot's remaining quantity never goes negative when it
/// was not, and what is left never goes negative when it was positive.
pub proof fn law_specific_lot_take_bounded(lot: TaxLot, left: (int, nat), q: (int, nat), t: (int, nat))
    requires
        left.0 > 0,
        lot.remaining_quantity.v() >= 0,
    ensures
        lot_take(CostBasisMethod::FIFO, lot, q, t, left).0 <= left.0,
        lot_take(CostBasisMethod::FIFO, lot, q, t, left).0 <= lot.remaining_quantity.v(),
        lot_take(CostBasisMethod::FIFO, lot, q, t, left).0 >= 0,
        lot_take(CostBasisMethod::LIFO, lot, q, t, left) == lot_take(
            CostBasisMethod::FIFO,
            lot,
            q,
            t,
            left,
        ),
{
}

/// Average cost never takes more from a lot than it holds, nor more than
/// is left to close.
pub proof fn law_average_take_bounded(lot: TaxLot, left: (int, nat), q: (int, nat), t: (int, nat))
    ensures
        lot_take(CostBasisMethod::AverageCost, lot, q, t, left).0 <= left.0,
        lot_take(CostBasisMethod::AverageCost, lot, q, t, left).0 <= lot.remaining_quantity.v(),
{
}

/// A long gains what a short loses: the gain of the same proceeds and cost
/// is negated between the two sides.
pub proof fn law_gain_sides_opposite(proceeds: (int, nat), cost: (int, nat))
    ensures
        gain_of(PositionSide::Long, proceeds, cost).0 == -gain_of(
            PositionSide::Short,
            proceeds,
            cost,
        ).0,
{
}

/// A record is short-term exactly when it is not long-term, and long-term
/// means held for more than 365 days.
pub proof fn law_term_exclusive(acquired_at: i64, sale_date: i64)
    ensures
        held_long_term(acquired_at, sale_date) <==> sale_date - acquired_at > 365 * 86400000,
{
}


/// Each record of a planned close is charged, per unit it takes, the
/// average cost given under average cost, and the cost per unit of the lot
/// it is taken from under FIFO and LIFO; its proceeds are the units taken
/// at the sale price, and its gain is proceeds less cost for a long (cost
/// less proceeds for a short).
pub proof fn law_close_charges_method_cost(
    m: CostBasisMethod,
    exchange: Exchange,
    symbol: Seq<char>,
    side: PositionSide,
    quantity: Dec,
    price: Dec,
    timestamp: i64,
    trade_id: Seq<char>,
    lots: Seq<TaxLot>,
    average_cost: (int, nat),
    total_open: (int, nat),
    plan: ClosePlan,
)
    requires
        close_planned(
            m,
            exchange,
            symbol,
            side,
            quantity,
            price,
            timestamp,
            trade_id,
            lots,
            average_cost,
            total_open,
            plan,
        ),
    ensures
        forall|k: int|
            0 <= k < plan.realized@.len() ==> {
                let p = #[trigger] plan.realized@[k];
                &&& m == CostBasisMethod::AverageCost ==> p.cost_basis.repr() == rmul(
                    p.quantity.repr(),
                    average_cost,
                )
                &&& m != CostBasisMethod::AverageCost ==> p.cost_basis.repr() == rmul(
                    p.quantity.repr(),
                    lots[k].cost_per_unit.repr(),
                )
                &&& p.proceeds.repr() == rmul(p.quantity.repr(), price.repr())
                &&& p.gain_loss.v() == match side {
                    PositionSide::Long => p.proceeds.v() - p.cost_basis.v(),
                    PositionSide::Short => p.cost_basis.v() - p.proceeds.v(),
                }
                &&& p.lot_id == lots[k].id
            },
{
    assert forall|k: int| 0 <= k < plan.realized@.len() implies {
        let p = #[trigger] plan.realized@[k];
        &&& m == CostBasisMethod::AverageCost ==> p.cost_basis.repr() == rmul(
            p.quantity.repr(),
            average_cost,
        )
        &&& m != CostBasisMethod::AverageCost ==> p.cost_basis.repr() == rmul(
            p.quantity.repr(),
            lots[k].cost_per_unit.repr(),
        )
        &&& p.proceeds.repr() == rmul(p.quantity.repr(), price.repr())
        &&& p.gain_loss.v() == match side {
            PositionSide::Long => p.proceeds.v() - p.cost_basis.v(),
            PositionSide::Short => p.cost_basis.v() - p.proceeds.v(),
        }
        &&& p.lot_id == lots[k].id
    } by {
        assert(realized_from(
            plan.realized@[k],
            m,
            exchange,
            symbol,
            side,
            lots[k],
            take_at(m, lots, quantity.repr(), total_open, k as nat),
            price,
            average_cost,
            timestamp,
            trade_id,
        ));
    }
}

/// Under average cost, a close of a store's position charges every record,
/// per unit it takes, the average cost of the open lots: their total
/// remaining cost over their total remaining quantity, whichever lot the
/// units come from (when any quantity remains).
pub proof fn law_average_cost_close(
    exchange: Exchange,
    symbol: Seq<char>,
    side: PositionSide,
    quantity: Dec,
    price: Dec,
    timestamp: i64,
    trade_id: Seq<char>,
    lots0: Seq<TaxLot>,
    realized0: Seq<RealizedPnL>,
    lots1: Seq<TaxLot>,
    realized1: Seq<RealizedPnL>,
    r: Result<Vec<RealizedPnL>, String>,
)
    requires
        close_done(
            CostBasisMethod::AverageCost,
            exchange,
            symbol,
            side,
            quantity,
            price,
            timestamp,
            trade_id,
            lots0,
            realized0,
            lots1,
            realized1,
            r,
        ),
    ensures
        rsum(remaining_of(open_lots(lots0, exchange, symbol, side))).0 > 0 ==> (r matches Ok(v)
            ==> forall|k: int|
            0 <= k < v@.len() ==> (#[trigger] v@[k]).cost_basis.repr() == rmul(
                v@[k].quantity.repr(),
                decimal_quotient(
                    rsum(remaining_cost_of(open_lots(lots0, exchange, symbol, side))),
                    rsum(remaining_of(open_lots(lots0, exchange, symbol, side))),
                ),
            )),
{
    let open = open_lots(lots0, exchange, symbol, side);
    if r is Ok && open.len() > 0 {
        let plan = choose|plan: ClosePlan|
            #[trigger] close_planned(
                CostBasisMethod::AverageCost,
                exchange,
                symbol,
                side,
                quantity,
                price,
                timestamp,
                trade_id,
                close_lots(CostBasisMethod::AverageCost, lots0, exchange, symbol, side),
                close_average(CostBasisMethod::AverageCost, open),
                close_total(CostBasisMethod::AverageCost, open),
                plan,
            ) && plan_applied(plan, quantity, symbol, lots0, realized0, lots1, realized1, r);
        law_close_charges_method_cost(
            CostBasisMethod::AverageCost,
            exchange,
            symbol,
            side,
            quantity,
            price,
            timestamp,
            trade_id,
            close_lots(CostBasisMethod::AverageCost, lots0, exchange, symbol, side),
            close_average(CostBasisMethod::AverageCost, open),
            close_total(CostBasisMethod::AverageCost, open),
            plan,
        );
    }
}

} // verus!
