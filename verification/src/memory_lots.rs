//! A store of tax lots held in memory: the lots in a vector ordered by
//! acquisition, the realized records in the order they were saved.
use crate::decimal::{reprs, sum_all, Dec};
use crate::pnl_calculator::{
    acquired_by, lot_costs_ok, lot_updated, lots_arith_ok, lots_average, lots_cost,
    lots_quantity, open_lot_of, open_lots, realized_in, realized_selected, remaining_cost_of,
    remaining_of, symbol_text, PositionSide, RealizedPnL, TaxLot, TaxLotStore,
};
use crate::text::text_is;
use crate::ws_manager::Exchange;
use vstd::prelude::*;

verus! {

/// Lots and realized records kept in memory.
pub struct MemoryTaxLotStore {
    lots: Vec<TaxLot>,
    realized: Vec<RealizedPnL>,
}

/// An identical copy of a realized record.
fn copy_realized(p: &RealizedPnL) -> (r: RealizedPnL)
    ensures
        r == *p,
{
    RealizedPnL {
        id: p.id.clone(),
        exchange: p.exchange,
        symbol: p.symbol.clone(),
        quantity: p.quantity,
        proceeds: p.proceeds,
        cost_basis: p.cost_basis,
        gain_loss: p.gain_loss,
        is_short_term: p.is_short_term,
        is_long_term: p.is_long_term,
        acquired_at: p.acquired_at,
        disposed_at: p.disposed_at,
        lot_id: p.lot_id.clone(),
        close_trade_id: p.close_trade_id.clone(),
        method: p.method,
    }
}

/// Whether `lot` is an open lot of `side` of `symbol` on `exchange`.
fn is_open_of(lot: &TaxLot, exchange: Exchange, symbol: &str, side: PositionSide) -> (r: bool)
    ensures
        r == open_lot_of(*lot, exchange, symbol@, side),
{
    lot.exchange == exchange && text_is(lot.symbol.as_str(), symbol) && lot.side == side
        && !lot.is_closed
}

/// Whether `p` is a record the period query asks for.
fn is_selected(
    p: &RealizedPnL,
    exchange: Option<Exchange>,
    symbol: Option<&str>,
    start_time: i64,
    end_time: i64,
) -> (r: bool)
    ensures
        r == realized_selected(*p, exchange, symbol_text(symbol), start_time, end_time),
{
    if let Some(e) = exchange {
        if p.exchange != e {
            return false;
        }
    }
    if let Some(t) = symbol {
        if !text_is(p.symbol.as_str(), t) {
            return false;
        }
    }
    start_time <= p.disposed_at && p.disposed_at <= end_time
}

/// A scan that stops at the first lot acquired after `t` finds how many
/// lead the sequence acquired at or before it.
proof fn lemma_acquired_by_is(s: Seq<TaxLot>, t: i64, p: int)
    requires
        0 <= p <= s.len(),
        forall|k: int| 0 <= k < p ==> s[k].acquired_at <= t,
        p < s.len() ==> s[p].acquired_at > t,
    ensures
        acquired_by(s, t) == p,
    decreases p,
{
    if p > 0 {
        assert forall|k: int| 0 <= k < p - 1 implies s.drop_first()[k].acquired_at <= t by {
            assert(s.drop_first()[k] == s[k + 1]);
        }
        if p - 1 < s.drop_first().len() {
            assert(s.drop_first()[p - 1] == s[p]);
        }
        lemma_acquired_by_is(s.drop_first(), t, p - 1);
    }
}

impl MemoryTaxLotStore {
    /// An empty store.
    pub fn new() -> (r: Self)
        ensures
            r.lots() == Seq::<TaxLot>::empty(),
            r.realized() == Seq::<RealizedPnL>::empty(),
    {
        MemoryTaxLotStore { lots: Vec::new(), realized: Vec::new() }
    }

    /// The open lots of a position, in the order kept.
    fn open_of(&self, exchange: Exchange, symbol: &str, side: PositionSide) -> (r: Vec<TaxLot>)
        ensures
            r@ == open_lots(self.lots@, exchange, symbol@, side),
    {
        let mut out: Vec<TaxLot> = Vec::new();
        let mut i: usize = 0;
        assert(self.lots@.take(0) =~= Seq::<TaxLot>::empty());
        while i < self.lots.len()
            invariant
                i <= self.lots@.len(),
                out@ == open_lots(self.lots@.take(i as int), exchange, symbol@, side),
            decreases self.lots@.len() - i,
        {
            let ghost t = self.lots@.take(i as int + 1);
            assert(t.drop_last() =~= self.lots@.take(i as int));
            assert(t.last() == self.lots@[i as int]);
            if is_open_of(&self.lots[i], exchange, symbol, side) {
                out.push(self.lots[i].duplicate());
            }
            i += 1;
        }
        assert(self.lots@.take(self.lots@.len() as int) =~= self.lots@);
        out
    }
}

/// The remaining quantities of `lots`, in order.
fn remaining_values(lots: &Vec<TaxLot>) -> (r: Vec<Dec>)
    ensures
        reprs(r@) == remaining_of(lots@),
{
    let mut out: Vec<Dec> = Vec::new();
    let mut i: usize = 0;
    while i < lots.len()
        invariant
            i <= lots@.len(),
            reprs(out@) == remaining_of(lots@.take(i as int)),
        decreases lots@.len() - i,
    {
        let ghost before = out@;
        out.push(lots[i].remaining_quantity);
        assert(reprs(out@) =~= reprs(before).push(lots@[i as int].remaining_quantity.repr()));
        assert(remaining_of(lots@.take(i as int + 1)) =~= remaining_of(lots@.take(i as int)).push(
            lots@[i as int].remaining_quantity.repr(),
        ));
        i += 1;
    }
    assert(lots@.take(lots@.len() as int) =~= lots@);
    out
}

/// The cost of what remains of each of `lots`, in order.
fn remaining_costs(lots: &Vec<TaxLot>) -> (r: Vec<Dec>)
    requires
        lot_costs_ok(lots@),
    ensures
        reprs(r@) == remaining_cost_of(lots@),
{
    let mut out: Vec<Dec> = Vec::new();
    let mut i: usize = 0;
    while i < lots.len()
        invariant
            i <= lots@.len(),
            lot_costs_ok(lots@),
            reprs(out@) == remaining_cost_of(lots@.take(i as int)),
        decreases lots@.len() - i,
    {
        let ghost before = out@;
        assert(crate::decimal::mul_ok(
            lots@[i as int].remaining_quantity.repr(),
            lots@[i as int].cost_per_unit.repr(),
        ));
        let c = lots[i].remaining_quantity.mul(lots[i].cost_per_unit);
        out.push(c);
        assert(reprs(out@) =~= reprs(before).push(c.repr()));
        assert(remaining_cost_of(lots@.take(i as int + 1)) =~= remaining_cost_of(
            lots@.take(i as int),
        ).push(c.repr()));
        i += 1;
    }
    assert(lots@.take(lots@.len() as int) =~= lots@);
    out
}

impl TaxLotStore for MemoryTaxLotStore {
    closed spec fn lots(&self) -> Seq<TaxLot> {
        self.lots@
    }

    closed spec fn realized(&self) -> Seq<RealizedPnL> {
        self.realized@
    }

    fn insert_lot(&mut self, lot: &TaxLot) -> (r: Result<(), String>)
        ensures
            r is Ok,
    {
        let mut p: usize = 0;
        while p < self.lots.len() && self.lots[p].acquired_at <= lot.acquired_at
            invariant
                p <= self.lots@.len(),
                forall|k: int| 0 <= k < p ==> self.lots@[k].acquired_at <= lot.acquired_at,
            decreases self.lots@.len() - p,
        {
            p += 1;
        }
        proof {
            lemma_acquired_by_is(self.lots@, lot.acquired_at, p as int);
        }
        self.lots.insert(p, lot.duplicate());
        Ok(())
    }

    fn update_lot(&mut self, lot: &TaxLot) -> (r: Result<(), String>)
        ensures
            r is Ok,
    {
        let ghost before = self.lots@;
        let ghost records = self.realized@;
        let mut i: usize = 0;
        while i < self.lots.len()
            invariant
                self.realized@ == records,
                self.lots@.len() == before.len(),
                i <= before.len(),
                forall|k: int|
                    0 <= k < i ==> self.lots@[k] == (if before[k].id@ == lot.id@ {
                        *lot
                    } else {
                        before[k]
                    }),
                forall|k: int| i <= k < before.len() ==> self.lots@[k] == before[k],
            decreases before.len() - i,
        {
            if text_is(self.lots[i].id.as_str(), lot.id.as_str()) {
                self.lots.set(i, lot.duplicate());
            }
            i += 1;
        }
        assert(self.lots@ =~= lot_updated(before, *lot));
        Ok(())
    }

    fn get_open_lots(&self, exchange: Exchange, symbol: &str, side: PositionSide) -> (r: Vec<TaxLot>) {
        self.open_of(exchange, symbol, side)
    }

    fn get_open_lots_lifo(&self, exchange: Exchange, symbol: &str, side: PositionSide) -> (r: Vec<
        TaxLot,
    >) {
        let open = self.open_of(exchange, symbol, side);
        let mut out: Vec<TaxLot> = Vec::new();
        let mut i: usize = open.len();
        while i > 0
            invariant
                i <= open@.len(),
                out@ == open@.subrange(i as int, open@.len() as int).reverse(),
            decreases i,
        {
            i -= 1;
            out.push(open[i].duplicate());
            assert(open@.subrange(i as int, open@.len() as int).reverse() =~= open@.subrange(
                i as int + 1,
                open@.len() as int,
            ).reverse().push(open@[i as int]));
        }
        assert(open@.subrange(0, open@.len() as int) =~= open@);
        out
    }

    fn save_realized_pnl(&mut self, pnl: &RealizedPnL) -> (r: Result<(), String>)
        ensures
            r is Ok,
    {
        self.realized.push(copy_realized(pnl));
        Ok(())
    }

    fn get_realized_pnl(
        &self,
        exchange: Option<Exchange>,
        symbol: Option<&str>,
        start_time: i64,
        end_time: i64,
    ) -> (r: Vec<RealizedPnL>) {
        let ghost wanted = symbol_text(symbol);
        let mut out: Vec<RealizedPnL> = Vec::new();
        let mut i: usize = 0;
        assert(self.realized@.take(0) =~= Seq::<RealizedPnL>::empty());
        while i < self.realized.len()
            invariant
                i <= self.realized@.len(),
                wanted == symbol_text(symbol),
                out@ == realized_in(self.realized@.take(i as int), exchange, wanted, start_time, end_time),
            decreases self.realized@.len() - i,
        {
            let ghost t = self.realized@.take(i as int + 1);
            assert(t.drop_last() =~= self.realized@.take(i as int));
            assert(t.last() == self.realized@[i as int]);
            if is_selected(&self.realized[i], exchange, symbol, start_time, end_time) {
                out.push(copy_realized(&self.realized[i]));
            }
            i += 1;
        }
        assert(self.realized@.take(self.realized@.len() as int) =~= self.realized@);
        out
    }

    fn get_total_open_quantity(&self, exchange: Exchange, symbol: &str, side: PositionSide) -> (r:
        Dec) {
        let open = self.open_of(exchange, symbol, side);
        let quantities = remaining_values(&open);
        sum_all(&quantities)
    }

    fn get_total_cost_basis(&self, exchange: Exchange, symbol: &str, side: PositionSide) -> (r: Dec) {
        let open = self.open_of(exchange, symbol, side);
        let costs = remaining_costs(&open);
        sum_all(&costs)
    }

    fn get_average_cost(&self, exchange: Exchange, symbol: &str, side: PositionSide) -> (r: Dec) {
        let open = self.open_of(exchange, symbol, side);
        let quantities = remaining_values(&open);
        let costs = remaining_costs(&open);
        let total_quantity = sum_all(&quantities);
        let total_cost = sum_all(&costs);
        if total_quantity.is_positive() {
            total_cost.div(total_quantity)
        } else {
            Dec::zero()
        }
    }
}

} // verus!
