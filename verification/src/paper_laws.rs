//! What the simulated exchange pays out, stated over values: the price move
//! times the quantity, in the position's favour, times the leverage.
use crate::decimal::{mul_val, Dec};
use crate::entities::{Order, Position};
use crate::paper::{adds_to, holds_symbol, leveraged_pnl, symbol_index, PaperTradingClient};
use crate::position_laws::{law_pnl_is_leveraged_move, side_sign};
use crate::position_manager::pnl_of;
use vstd::prelude::*;

verus! {

/// The profit of a paper position at an exit price is the move from its
/// entry times its quantity, in its favour (+1 long, -1 short), times its
/// leverage.
pub proof fn law_paper_pnl_is_leveraged_move(pos: Position, exit: Dec)
    ensures
        leveraged_pnl(pos, exit).0 == side_sign(pos.side) * (pos.leverage as int) * mul_val(
            exit.v() - pos.entry_price.v(),
            pos.quantity.v(),
        ),
{
    let p = Position { current_price: exit, ..pos };
    law_pnl_is_leveraged_move(p);
    assert(leveraged_pnl(pos, exit) == pnl_of(p));
}

/// An order against a position that covers all of it closes the position
/// and pays its leveraged profit into the balance: the move from entry to
/// the fill price, times the quantity, in the position's favour, times the
/// leverage.
pub proof fn law_full_close_pays_profit(
    before: PaperTradingClient,
    after: PaperTradingClient,
    order: Order,
    price: Dec,
)
    requires
        PaperTradingClient::filled(&before, &after, order, price),
        holds_symbol(before.held(), order.symbol@),
        !adds_to(order.side, before.held()[symbol_index(before.held(), order.symbol@)].side),
        order.quantity.v() >= before.held()[symbol_index(
            before.held(),
            order.symbol@,
        )].quantity.v(),
    ensures
        ({
            let pos = before.held()[symbol_index(before.held(), order.symbol@)];
            after.cash().v() == before.cash().v() + side_sign(pos.side) * (pos.leverage as int)
                * mul_val(price.v() - pos.entry_price.v(), pos.quantity.v())
        }),
{
    let pos = before.held()[symbol_index(before.held(), order.symbol@)];
    law_paper_pnl_is_leveraged_move(pos, price);
}

} // verus!
