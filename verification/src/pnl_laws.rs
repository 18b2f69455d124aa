//! What a close realizes, stated over quantities and lots: every unit
//! closed is realized once, lots are used up in the order of the method,
//! and each record is classed by how long its lot was held.
use crate::decimal::{rsum, Dec};
use crate::pnl_calculator::{
    close_average, close_done, close_lots, close_planned, close_total, plan_applied, close_steps, left_before, open_lots,
    steps_from, take_at, ClosePlan, CostBasisMethod, PositionSide, RealizedPnL, TaxLot,
};
use crate::ws_manager::Exchange;
use vstd::prelude::*;

verus! {

/// The quantities of a list of records, by value and scale.
pub open spec fn quantities(ps: Seq<RealizedPnL>) -> Seq<(int, nat)> {
    ps.map_values(|p: RealizedPnL| p.quantity.repr())
}

/// Adding one more term adds its value.
proof fn lemma_rsum_push(s: Seq<(int, nat)>, x: (int, nat))
    ensures
        rsum(s.push(x)).0 == rsum(s).0 + x.0,
{
    assert(s.push(x).drop_last() =~= s);
}

/// Quantity is left before each lot a close touches.
proof fn lemma_touched_left(
    method: CostBasisMethod,
    lots: Seq<TaxLot>,
    q: (int, nat),
    t: (int, nat),
    j: nat,
    k: nat,
)
    requires
        j <= k < steps_from(method, lots, q, t, j),
    ensures
        left_before(method, lots, q, t, k).0 > 0,
        k < lots.len(),
    decreases lots.len() - j,
{
    if !(j >= lots.len() || left_before(method, lots, q, t, j).0 <= 0) {
        if j < k {
            lemma_touched_left(method, lots, q, t, j + 1, k);
        }
    }
}

/// Where the scan stops short of the last lot, nothing is left to close.
proof fn lemma_stop_left(
    method: CostBasisMethod,
    lots: Seq<TaxLot>,
    q: (int, nat),
    t: (int, nat),
    j: nat,
)
    requires
        steps_from(method, lots, q, t, j) < lots.len(),
    ensures
        left_before(method, lots, q, t, steps_from(method, lots, q, t, j)).0 <= 0,
    decreases lots.len() - j,
{
    if !(j >= lots.len() || left_before(method, lots, q, t, j).0 <= 0) {
        lemma_stop_left(method, lots, q, t, j + 1);
    }
}

/// What is taken from the first `k` lots is what was to close less what is
/// left after them.
proof fn lemma_taken_so_far(
    method: CostBasisMethod,
    lots: Seq<TaxLot>,
    q: (int, nat),
    t: (int, nat),
    k: nat,
)
    requires
        k <= lots.len(),
    ensures
        rsum(Seq::new(k, |i: int| take_at(method, lots, q, t, i as nat))).0 == q.0 - left_before(
            method,
            lots,
            q,
            t,
            k,
        ).0,
    decreases k,
{
    if k > 0 {
        lemma_taken_so_far(method, lots, q, t, (k - 1) as nat);
        let prev = Seq::new((k - 1) as nat, |i: int| take_at(method, lots, q, t, i as nat));
        let cur = Seq::new(k, |i: int| take_at(method, lots, q, t, i as nat));
        assert(cur =~= prev.push(take_at(method, lots, q, t, (k - 1) as nat)));
        lemma_rsum_push(prev, take_at(method, lots, q, t, (k - 1) as nat));
    }
}

/// With a quantity that is not negative, what is left never goes negative.
proof fn lemma_left_not_negative(
    method: CostBasisMethod,
    lots: Seq<TaxLot>,
    q: (int, nat),
    t: (int, nat),
    k: nat,
)
    requires
        q.0 >= 0,
        k <= lots.len(),
    ensures
        left_before(method, lots, q, t, k).0 >= 0,
    decreases k,
{
    if k > 0 {
        lemma_left_not_negative(method, lots, q, t, (k - 1) as nat);
    }
}

/// What a planned close realizes.  The units realized and the quantity
/// still to close add up to the quantity closed; a shortfall remains only
/// when every lot was touched, and none is negative when the quantity is
/// not.  Each record takes no more than its lot holds; the lot keeps what
/// it held less what was taken (closed once nothing remains); the record is
/// long-term exactly when the lot was held more than 365 days before the
/// sale, short-term otherwise.  Under FIFO and LIFO every lot but the last
/// touched is used up whole before the next one is touched.
pub proof fn law_close_realizes_quantity(
    m: CostBasisMethod,
    exchange: Exchange,
    symbol: Seq<char>,
    side: PositionSide,
    quantity: Dec,
    price: Dec,
    timestamp: i64,
    trade_id: Seq<char>,
    lots: Seq<TaxLot>,
    average_cost: (int, nat),
    total_open: (int, nat),
    plan: ClosePlan,
)
    requires
        close_planned(
            m,
            exchange,
            symbol,
            side,
            quantity,
            price,
            timestamp,
            trade_id,
            lots,
            average_cost,
            total_open,
            plan,
        ),
    ensures
        rsum(quantities(plan.realized@)).0 + plan.remaining.v() == quantity.v(),
        plan.remaining.v() > 0 ==> plan.realized@.len() == lots.len(),
        quantity.v() >= 0 ==> plan.remaining.v() >= 0,
        plan.realized@.len() <= lots.len(),
        forall|k: int|
            0 <= k < plan.realized@.len() ==> {
                let p = #[trigger] plan.realized@[k];
                let after = plan.lots@[k];
                &&& p.quantity.v() <= lots[k].remaining_quantity.v()
                &&& after.id == lots[k].id
                &&& after.remaining_quantity.v() == lots[k].remaining_quantity.v()
                    - p.quantity.v()
                &&& after.is_closed == (after.remaining_quantity.v() <= 0)
                &&& p.lot_id == lots[k].id
                &&& p.acquired_at == lots[k].acquired_at
                &&& p.disposed_at == timestamp
                &&& p.is_long_term == (timestamp - lots[k].acquired_at > 365 * 86400000)
                &&& p.is_short_term == !p.is_long_term
                &&& (m != CostBasisMethod::AverageCost && k + 1 < plan.realized@.len())
                    ==> p.quantity.v() == lots[k].remaining_quantity.v()
            },
{
    let q = quantity.repr();
    let n = close_steps(m, lots, q, total_open);
    if n > 0 {
        lemma_touched_left(m, lots, q, total_open, 0, (n - 1) as nat);
    }
    let takes = Seq::new(n, |i: int| take_at(m, lots, q, total_open, i as nat));
    assert(quantities(plan.realized@) =~= takes);
    lemma_taken_so_far(m, lots, q, total_open, n);
    if n < lots.len() {
        lemma_stop_left(m, lots, q, total_open, 0);
    }
    if quantity.v() >= 0 {
        lemma_left_not_negative(m, lots, q, total_open, n);
    }
    assert forall|k: int| 0 <= k < plan.realized@.len() implies {
        let p = #[trigger] plan.realized@[k];
        let after = plan.lots@[k];
        &&& p.quantity.v() <= lots[k].remaining_quantity.v()
        &&& after.id == lots[k].id
        &&& after.remaining_quantity.v() == lots[k].remaining_quantity.v() - p.quantity.v()
        &&& after.is_closed == (after.remaining_quantity.v() <= 0)
        &&& p.lot_id == lots[k].id
        &&& p.acquired_at == lots[k].acquired_at
        &&& p.disposed_at == timestamp
        &&& p.is_long_term == (timestamp - lots[k].acquired_at > 365 * 86400000)
        &&& p.is_short_term == !p.is_long_term
        &&& (m != CostBasisMethod::AverageCost && k + 1 < plan.realized@.len())
            ==> p.quantity.v() == lots[k].remaining_quantity.v()
    } by {
        let take = take_at(m, lots, q, total_open, k as nat);
        assert(plan.realized@[k].quantity.repr() == take);
        assert(plan.lots@[k].remaining_quantity.repr() == crate::decimal::rsub(
            lots[k].remaining_quantity.repr(),
            take,
        ));
        if m != CostBasisMethod::AverageCost && k + 1 < n {
            lemma_touched_left(m, lots, q, total_open, 0, (k + 1) as nat);
        }
    }
}

/// A close of a store's position that succeeds realizes exactly the
/// quantity closed (when that is not negative) and adds its records to the
/// store.  FIFO takes the open lots oldest first, LIFO newest first: the
/// `k`-th record comes from the `k`-th open lot kept, or the `k`-th from the
/// end.
pub proof fn law_close_order_and_quantity(
    method: CostBasisMethod,
    exchange: Exchange,
    symbol: Seq<char>,
    side: PositionSide,
    quantity: Dec,
    price: Dec,
    timestamp: i64,
    trade_id: Seq<char>,
    lots0: Seq<TaxLot>,
    realized0: Seq<RealizedPnL>,
    lots1: Seq<TaxLot>,
    realized1: Seq<RealizedPnL>,
    r: Result<Vec<RealizedPnL>, String>,
)
    requires
        close_done(
            method,
            exchange,
            symbol,
            side,
            quantity,
            price,
            timestamp,
            trade_id,
            lots0,
            realized0,
            lots1,
            realized1,
            r,
        ),
        quantity.v() >= 0,
    ensures
        r matches Ok(v) ==> {
            let open = open_lots(lots0, exchange, symbol, side);
            &&& rsum(quantities(v@)).0 == quantity.v()
            &&& realized1 == realized0 + v@
            &&& v@.len() <= open.len()
            &&& forall|k: int|
                0 <= k < v@.len() ==> {
                    &&& method == CostBasisMethod::FIFO ==> (#[trigger] v@[k]).lot_id
                        == open[k].id
                    &&& method == CostBasisMethod::LIFO ==> v@[k].lot_id == open[open.len() - 1
                        - k].id
                }
        },
{
    let open = open_lots(lots0, exchange, symbol, side);
    if r is Ok && open.len() > 0 {
        let lots = close_lots(method, lots0, exchange, symbol, side);
        let plan = choose|plan: ClosePlan|
            #[trigger] close_planned(
                method,
                exchange,
                symbol,
                side,
                quantity,
                price,
                timestamp,
                trade_id,
                lots,
                close_average(method, open),
                close_total(method, open),
                plan,
            ) && plan_applied(plan, quantity, symbol, lots0, realized0, lots1, realized1, r);
        law_close_realizes_quantity(
            method,
            exchange,
            symbol,
            side,
            quantity,
            price,
            timestamp,
            trade_id,
            lots,
            close_average(method, open),
            close_total(method, open),
            plan,
        );
        assert(lots.len() == open.len());
        let v = r->Ok_0;
        assert forall|k: int| 0 <= k < v@.len() implies {
            &&& method == CostBasisMethod::FIFO ==> (#[trigger] v@[k]).lot_id == open[k].id
            &&& method == CostBasisMethod::LIFO ==> v@[k].lot_id == open[open.len() - 1 - k].id
        } by {
            assert(v@[k] == plan.realized@[k]);
        }
    }
}

} // verus!
