//! What a full book lets through: only an order that closes an open
//! position, stated over the positions themselves.
use crate::entities::{OrderRequest, OrderSide, Position, PositionSide};
use crate::decimal::{lemma_pow10_pos, mul_val, pow10, Dec};
use crate::position_laws::lemma_times_integer;
use crate::risk::{
    daily_loss_hit, exposure_with, result_matches, RiskState, RiskCheckResult, RiskManager, RiskRejectionReason,
};
use vstd::prelude::*;

verus! {

/// Position `p` is in the order's symbol, on the side the order closes: a
/// sell closes a long, a buy closes a short.
pub open spec fn counterpart(p: Position, order: OrderRequest) -> bool {
    &&& p.symbol@ == order.symbol@
    &&& match p.side {
        PositionSide::Long => order.side == OrderSide::Sell,
        PositionSide::Short => order.side == OrderSide::Buy,
    }
}

/// The result refuses the order for the number of positions.
pub open spec fn refused_for_count(r: RiskCheckResult) -> bool {
    r matches RiskCheckResult::Rejected(RiskRejectionReason::MaxPositionsReached { .. })
}

/// With trading on, within the daily loss limit, and as many open positions
/// as allowed (or more), an order gets past the position count only when
/// some open position is in the order's symbol on the side the order closes.
/// In particular an order in a symbol with no open position is refused for
/// the count, reporting how many positions are open and the maximum.
pub proof fn law_full_book_only_closes_held_symbol(
    m: RiskManager,
    order: OrderRequest,
    ps: Seq<Position>,
    r: RiskCheckResult,
)
    requires
        result_matches(r, m.cfg(), m.risk_state(), m.capital_amount(), order, ps),
        m.risk_state().trading_enabled,
        !daily_loss_hit(m.cfg(), m.risk_state(), m.capital_amount()),
        ps.len() >= m.cfg().max_positions,
    ensures
        !refused_for_count(r) ==> exists|i: int|
            0 <= i < ps.len() && counterpart(#[trigger] ps[i], order),
        (forall|i: int| 0 <= i < ps.len() ==> (#[trigger] ps[i]).symbol@ != order.symbol@)
            ==> (r matches RiskCheckResult::Rejected(
            RiskRejectionReason::MaxPositionsReached { current, max },
        ) && current == ps.len() && max == m.cfg().max_positions),
{
    if !refused_for_count(r) {
        let i = choose|i: int|
            0 <= i < ps.len() && crate::risk::closes_position(#[trigger] ps[i], order);
        assert(counterpart(ps[i], order));
    }
}

/// The leverage an order asks for: 1 when it does not say.
pub open spec fn asked_leverage(order: OrderRequest) -> int {
    match order.leverage {
        Some(l) => l as int,
        None => 1,
    }
}

/// The exposure an order adds is its quantity times its price (zero for an
/// order without a price) times the leverage it asks for: it grows linearly
/// with the leverage, on top of the exposure already held.
pub proof fn law_exposure_counts_leverage(state: RiskState, order: OrderRequest)
    ensures
        exposure_with(state, order).0 == state.total_exposure.v() + asked_leverage(order)
            * mul_val(
            order.quantity.v(),
            match order.price {
                Some(p) => p.v(),
                None => 0,
            },
        ),
{
    let price = match order.price {
        Some(p) => p.v(),
        None => 0,
    };
    let base = mul_val(order.quantity.v(), price);
    let ov = crate::risk::order_value(order);
    lemma_pow10_pos(28);
    assert(ov.0 == base) by {
        if order.quantity.v() == 0 || price == 0 {
            assert(order.quantity.v() * price == 0) by (nonlinear_arith)
                requires
                    order.quantity.v() == 0 || price == 0,
            ;
        }
    }
    let lev = asked_leverage(order);
    let pw = pow10(28);
    let lv = crate::risk::levered_value(order);
    assert(lv.0 == lev * base) by {
        lemma_times_integer(ov.0, lev);
        if ov.0 == 0 || lev == 0 {
            assert(lev * base == 0) by (nonlinear_arith)
                requires
                    base == 0 || lev == 0,
                    ov.0 == base,
            ;
        } else {
            assert(lev * pw != 0) by (nonlinear_arith)
                requires
                    lev != 0,
                    pw > 0,
            ;
            assert(lv.0 == mul_val(ov.0, lev * pw));
            assert(ov.0 * lev == lev * base) by (nonlinear_arith)
                requires
                    ov.0 == base,
            ;
        }
    }
}

} // verus!
