//! What repricing a position does to its unrealized P&L, stated over
//! values: the price move times the quantity, in the position's favour,
//! times the leverage.
use crate::decimal::{lemma_pow10_pos, mul_val, pow10, rint, rmul, rsub, Dec};
use crate::entities::{Position, PositionSide};
use crate::position_manager::{
    at_price, direction, pnl_of, repriced, ManagedPosition, PositionEvent, PositionManagerConfig,
};
use vstd::prelude::*;

verus! {

/// +1 for a long, -1 for a short.
pub open spec fn side_sign(side: PositionSide) -> int {
    match side {
        PositionSide::Long => 1,
        PositionSide::Short => -1,
    }
}

/// Multiplying a value (in units of 10^-28) by the decimal integer `k`
/// multiplies it by `k`.
pub proof fn lemma_times_integer(x: int, k: int)
    ensures
        mul_val(x, k * pow10(28)) == x * k,
{
    lemma_pow10_pos(28);
    let p = pow10(28);
    assert(x * (k * p) == p * (x * k)) by (nonlinear_arith);
    vstd::arithmetic::div_mod::lemma_div_multiples_vanish(x * k, p);
}

/// The unrealized P&L of a position is its price move since entry times its
/// quantity, in its favour (+1 long, -1 short), times its leverage: it
/// grows linearly with the leverage.
pub proof fn law_pnl_is_leveraged_move(p: Position)
    ensures
        pnl_of(p).0 == side_sign(p.side) * (p.leverage as int) * mul_val(
            p.current_price.v() - p.entry_price.v(),
            p.quantity.v(),
        ),
{
    let d = rsub(p.current_price.repr(), p.entry_price.repr());
    let a = rmul(d, p.quantity.repr());
    let b = rmul(a, direction(p.side));
    let base = mul_val(p.current_price.v() - p.entry_price.v(), p.quantity.v());
    assert(d.0 == p.current_price.v() - p.entry_price.v());
    assert(a.0 == base) by {
        if d.0 == 0 || p.quantity.v() == 0 {
            assert(base == 0) by {
                lemma_pow10_pos(28);
                assert(d.0 * p.quantity.v() == 0) by (nonlinear_arith)
                    requires
                        d.0 == 0 || p.quantity.v() == 0,
                ;
            }
        }
    }
    let pw = pow10(28);
    lemma_pow10_pos(28);
    let sg = side_sign(p.side);
    assert(direction(p.side).0 == sg * pw);
    assert(direction(p.side).0 != 0) by (nonlinear_arith)
        requires
            direction(p.side).0 == sg * pw,
            sg == 1 || sg == -1,
            pw > 0,
    ;
    assert(b.0 == sg * base) by {
        lemma_times_integer(a.0, sg);
        if a.0 == 0 {
            assert(sg * base == 0) by (nonlinear_arith)
                requires
                    base == 0,
            ;
        } else {
            assert(b.0 == mul_val(a.0, sg * pw));
            assert(a.0 * sg == sg * base) by (nonlinear_arith)
                requires
                    a.0 == base,
            ;
        }
    }
    let lev = p.leverage as int;
    assert(rint(lev).0 == lev * pw);
    assert(pnl_of(p).0 == b.0 * lev) by {
        lemma_times_integer(b.0, lev);
        if b.0 == 0 || lev == 0 {
            assert(b.0 * lev == 0) by (nonlinear_arith)
                requires
                    b.0 == 0 || lev == 0,
            ;
        } else {
            assert(lev * pw != 0) by (nonlinear_arith)
                requires
                    lev != 0,
                    pw > 0,
            ;
            assert(pnl_of(p).0 == mul_val(b.0, lev * pw));
        }
    }
    assert(b.0 * (p.leverage as int) == side_sign(p.side) * (p.leverage as int) * base)
        by (nonlinear_arith)
        requires
            b.0 == side_sign(p.side) * base,
    ;
}

/// Repricing sets the unrealized P&L to the price move from entry to the
/// new price, times the quantity, in the position's favour, times its
/// leverage.
pub proof fn law_reprice_pnl(
    cfg: PositionManagerConfig,
    m: ManagedPosition,
    price: Dec,
    after: ManagedPosition,
    ev: PositionEvent,
)
    requires
        repriced(cfg, m, price, after, ev),
    ensures
        after.position.unrealized_pnl.v() == side_sign(m.position.side) * (
        m.position.leverage as int) * mul_val(
            price.v() - m.position.entry_price.v(),
            m.position.quantity.v(),
        ),
{
    law_pnl_is_leveraged_move(at_price(m, price));
}

/// Which trigger a repricing reports.  A long whose price falls to or below
/// its stop loss, or a short whose price rises to or above it, reports the
/// stop loss; otherwise a long whose price rises to or above its take
/// profit, or a short whose price falls to or below it, reports the take
/// profit.  Neither is reported in any other case.
pub proof fn law_reprice_triggers(
    cfg: PositionManagerConfig,
    m: ManagedPosition,
    price: Dec,
    after: ManagedPosition,
    ev: PositionEvent,
)
    requires
        repriced(cfg, m, price, after, ev),
    ensures
        ({
            let stop_reached = match m.position.stop_loss_price {
                Some(s) => match m.position.side {
                    PositionSide::Long => price.v() <= s.v(),
                    PositionSide::Short => price.v() >= s.v(),
                },
                None => false,
            };
            let target_reached = match m.position.take_profit_price {
                Some(t) => match m.position.side {
                    PositionSide::Long => price.v() >= t.v(),
                    PositionSide::Short => price.v() <= t.v(),
                },
                None => false,
            };
            &&& (ev is StopLossTriggered) == stop_reached
            &&& (ev is TakeProfitTriggered) == (!stop_reached && target_reached)
            &&& stop_reached ==> ev == PositionEvent::StopLossTriggered(m.position.id)
            &&& (!stop_reached && target_reached) ==> ev == PositionEvent::TakeProfitTriggered(
                m.position.id,
            )
        }),
{
}

} // verus!
