//! A simulated exchange for paper trading: a cash balance, positions by
//! symbol, pending orders by id and a leverage per symbol.  Market orders
//! fill at once at the requested price (or a fixed simulated one); other
//! orders wait until cancelled.
use crate::clock::{new_id, now_millis};
use crate::decimal::{
    add_ok, decimal_quotient, div_ok, mul_ok, radd, reprs, rint, rmul, rsub, rsum, sub_ok,
    sum_all, sum_fits, Dec,
};
use crate::entities::{
    Balance, ExchangeError, ExchangeId, Order, OrderRequest, OrderSide, OrderSource, OrderStatus,
    OrderType, Position, PositionSide, PositionStatus,
};
use crate::text::{int_text, text_is, u64_text};
use vstd::prelude::*;
use vstd::string::*;

verus! {

// ---------------------------------------------------------------------------
// Lookups.

/// The position at `i` is for `symbol`.
pub open spec fn symbol_at(ps: Seq<Position>, symbol: Seq<char>, i: int) -> bool {
    0 <= i < ps.len() && ps[i].symbol@ == symbol
}

/// Some position is for `symbol`.
pub open spec fn holds_symbol(ps: Seq<Position>, symbol: Seq<char>) -> bool {
    exists|i: int| symbol_at(ps, symbol, i)
}

/// The index of the position for `symbol`.
pub open spec fn symbol_index(ps: Seq<Position>, symbol: Seq<char>) -> int {
    choose|i: int| symbol_at(ps, symbol, i)
}

/// No two positions are for the same symbol.
pub open spec fn symbols_unique(ps: Seq<Position>) -> bool {
    forall|i: int, j: int|
        0 <= i < ps.len() && 0 <= j < ps.len() && i != j ==> ps[i].symbol@ != ps[j].symbol@
}

/// The order at `i` has id `id`.
pub open spec fn order_at(os: Seq<Order>, id: Seq<char>, i: int) -> bool {
    0 <= i < os.len() && os[i].id@ == id
}

/// Some order has id `id`.
pub open spec fn holds_order(os: Seq<Order>, id: Seq<char>) -> bool {
    exists|i: int| order_at(os, id, i)
}

/// The index of the order with id `id`.
pub open spec fn order_index(os: Seq<Order>, id: Seq<char>) -> int {
    choose|i: int| order_at(os, id, i)
}

/// No two orders have the same id.
pub open spec fn ids_unique(os: Seq<Order>) -> bool {
    forall|i: int, j: int| 0 <= i < os.len() && 0 <= j < os.len() && i != j ==> os[i].id@ != os[j].id@
}

/// No symbol has two leverage settings.
pub open spec fn leverage_symbols_unique(ls: Seq<(String, u32)>) -> bool {
    forall|i: int, j: int| 0 <= i < ls.len() && 0 <= j < ls.len() && i != j ==> ls[i].0@ != ls[j].0@
}

/// The leverage set for `symbol`, 1 when none is.
pub open spec fn leverage_for(ls: Seq<(String, u32)>, symbol: Seq<char>) -> u32 {
    if exists|i: int| 0 <= i < ls.len() && ls[i].0@ == symbol {
        ls[choose|i: int| 0 <= i < ls.len() && ls[i].0@ == symbol].1
    } else {
        1
    }
}

// ---------------------------------------------------------------------------
// Arithmetic of fills.

/// An order on `side` adds to a position on `pos`.
pub open spec fn adds_to(side: OrderSide, pos: PositionSide) -> bool {
    (side == OrderSide::Buy && pos == PositionSide::Long) || (side == OrderSide::Sell && pos
        == PositionSide::Short)
}

/// The average entry price after adding `q` at `price`.
pub open spec fn averaged_entry(pos: Position, q: Dec, price: Dec) -> (int, nat) {
    decimal_quotient(
        radd(rmul(pos.entry_price.repr(), pos.quantity.repr()), rmul(price.repr(), q.repr())),
        radd(pos.quantity.repr(), q.repr()),
    )
}

/// Adding `q` at `price` needs no rounding but in the quotient.
pub open spec fn average_ok(pos: Position, q: Dec, price: Dec) -> bool {
    let cost = rmul(pos.entry_price.repr(), pos.quantity.repr());
    let added = rmul(price.repr(), q.repr());
    &&& mul_ok(pos.entry_price.repr(), pos.quantity.repr())
    &&& mul_ok(price.repr(), q.repr())
    &&& add_ok(cost, added)
    &&& add_ok(pos.quantity.repr(), q.repr())
    &&& div_ok(radd(cost, added), radd(pos.quantity.repr(), q.repr()))
}

/// +1 for a long position, -1 for a short one.
pub open spec fn direction_of(side: PositionSide) -> (int, nat) {
    match side {
        PositionSide::Long => rint(1),
        PositionSide::Short => rint(-1),
    }
}

/// The profit of a position at `exit`: the price move times the quantity,
/// in the position's direction, times its leverage.
pub open spec fn leveraged_pnl(pos: Position, exit: Dec) -> (int, nat) {
    rmul(
        rmul(
            rmul(rsub(exit.repr(), pos.entry_price.repr()), pos.quantity.repr()),
            direction_of(pos.side),
        ),
        rint(pos.leverage as int),
    )
}

/// Computing `leveraged_pnl` needs no rounding.
pub open spec fn leveraged_pnl_ok(pos: Position, exit: Dec) -> bool {
    let diff = rsub(exit.repr(), pos.entry_price.repr());
    let moved = rmul(diff, pos.quantity.repr());
    let signed = rmul(moved, direction_of(pos.side));
    &&& sub_ok(exit.repr(), pos.entry_price.repr())
    &&& mul_ok(diff, pos.quantity.repr())
    &&& mul_ok(moved, direction_of(pos.side))
    &&& mul_ok(signed, rint(pos.leverage as int))
}

/// The margin of a new position: its notional over the leverage.
pub open spec fn opening_margin(q: Dec, price: Dec, leverage: u32) -> (int, nat) {
    decimal_quotient(rmul(q.repr(), price.repr()), rint(leverage as int))
}

/// Computing `opening_margin` neither rounds the notional nor divides by
/// zero.
pub open spec fn opening_ok(q: Dec, price: Dec, leverage: u32) -> bool {
    &&& mul_ok(q.repr(), price.repr())
    &&& div_ok(rmul(q.repr(), price.repr()), rint(leverage as int))
}

/// The position side an order opens.
pub open spec fn side_opened(side: OrderSide) -> PositionSide {
    match side {
        OrderSide::Buy => PositionSide::Long,
        OrderSide::Sell => PositionSide::Short,
    }
}

/// A fresh position opened by `order` filled at `price`.
pub open spec fn opened_by(p: Position, order: Order, price: Dec, leverage: u32) -> bool {
    &&& p.exchange == ExchangeId::Paper
    &&& p.symbol == order.symbol
    &&& p.side == side_opened(order.side)
    &&& p.quantity == order.quantity
    &&& p.entry_price == price
    &&& p.current_price == price
    &&& p.leverage == leverage
    &&& p.margin.repr() == opening_margin(order.quantity, price, leverage)
    &&& p.unrealized_pnl.v() == 0
    &&& p.unrealized_pnl_pct.v() == 0
    &&& p.realized_pnl.v() == 0
    &&& p.stop_loss_order_id is None
    &&& p.stop_loss_price == order.stop_loss
    &&& p.take_profit_order_id is None
    &&& p.take_profit_price == order.take_profit
    &&& p.entry_order_id == order.id
    &&& p.status == PositionStatus::Open
    &&& p.liquidation_price is None
    &&& p.closed_at is None
    &&& p.updated_at == p.opened_at
}

/// The simulated price of a market order without one.
pub open spec fn simulated_price() -> (int, nat) {
    rint(50000)
}

/// The price a market order fills at: its own, else the simulated one.
pub open spec fn fill_price_ok(request: OrderRequest, price: Dec) -> bool {
    match request.price {
        Some(p) => price == p,
        None => price.repr() == simulated_price(),
    }
}

/// `e` refuses a leverage outside 1 to 125x.
pub open spec fn leverage_refused(e: ExchangeError) -> bool {
    e matches ExchangeError::ApiError { exchange, code, message } && exchange@ == "paper"@
        && code == 0 && message@ == "Leverage must be between 1 and 125x"@
}

/// The client paper trades.
pub struct PaperTradingClient {
    balance: Dec,
    positions: Vec<Position>,
    orders: Vec<Order>,
    leverage: Vec<(String, u32)>,
    order_counter: u64,
}

impl PaperTradingClient {
    /// The cash balance.
    pub closed spec fn cash(&self) -> Dec {
        self.balance
    }

    /// The open positions, at most one per symbol.
    pub closed spec fn held(&self) -> Seq<Position> {
        self.positions@
    }

    /// The pending orders, by id.
    pub closed spec fn pending(&self) -> Seq<Order> {
        self.orders@
    }

    /// The leverage set per symbol.
    pub closed spec fn leverages(&self) -> Seq<(String, u32)> {
        self.leverage@
    }

    /// How many order ids were handed out.
    pub closed spec fn counter(&self) -> u64 {
        self.order_counter
    }

    /// Positions, orders and leverages are each keyed uniquely.
    pub open spec fn wf(&self) -> bool {
        &&& symbols_unique(self.held())
        &&& ids_unique(self.pending())
        &&& leverage_symbols_unique(self.leverages())
    }

    /// Filling `side` for `q` of `symbol` at `price` needs no rounding (but
    /// in quotients) and divides by no zero.
    pub open spec fn fill_ok(&self, symbol: Seq<char>, side: OrderSide, q: Dec, price: Dec) -> bool {
        if holds_symbol(self.held(), symbol) {
            let pos = self.held()[symbol_index(self.held(), symbol)];
            if adds_to(side, pos.side) {
                average_ok(pos, q, price)
            } else if q.v() >= pos.quantity.v() {
                leveraged_pnl_ok(pos, price) && add_ok(
                    self.cash().repr(),
                    leveraged_pnl(pos, price),
                )
            } else {
                sub_ok(pos.quantity.repr(), q.repr())
            }
        } else {
            opening_ok(q, price, leverage_for(self.leverages(), symbol))
        }
    }

    /// What filling `order` at `price` does to the balance and positions.
    pub open spec fn filled(old: &Self, new: &Self, order: Order, price: Dec) -> bool {
        let ps = old.held();
        let symbol = order.symbol@;
        let q = order.quantity;
        &&& new.pending() == old.pending()
        &&& new.leverages() == old.leverages()
        &&& if holds_symbol(ps, symbol) {
            let i = symbol_index(ps, symbol);
            let pos = ps[i];
            if adds_to(order.side, pos.side) {
                &&& new.cash() == old.cash()
                &&& new.held().len() == ps.len()
                &&& new.held() == ps.update(i, new.held()[i])
                &&& new.held()[i] == Position {
                    quantity: new.held()[i].quantity,
                    entry_price: new.held()[i].entry_price,
                    ..pos
                }
                &&& new.held()[i].quantity.repr() == radd(pos.quantity.repr(), q.repr())
                &&& new.held()[i].entry_price.repr() == averaged_entry(pos, q, price)
            } else if q.v() >= pos.quantity.v() {
                &&& new.held() == ps.remove(i)
                &&& new.cash().repr() == radd(old.cash().repr(), leveraged_pnl(pos, price))
            } else {
                &&& new.cash() == old.cash()
                &&& new.held().len() == ps.len()
                &&& new.held() == ps.update(i, new.held()[i])
                &&& new.held()[i] == Position { quantity: new.held()[i].quantity, ..pos }
                &&& new.held()[i].quantity.repr() == rsub(pos.quantity.repr(), q.repr())
            }
        } else {
            &&& new.cash() == old.cash()
            &&& new.held().len() == ps.len() + 1
            &&& new.held().take(ps.len() as int) == ps
            &&& opened_by(new.held().last(), order, price, leverage_for(old.leverages(), symbol))
        }
    }

    /// A client with 10000 in cash.
    pub fn new() -> (r: Self)
        ensures
            r.wf(),
            r.cash().repr() == rint(10000),
            r.held().len() == 0,
            r.pending().len() == 0,
            r.leverages().len() == 0,
            r.counter() == 0,
    {
        Self::with_initial_balance(Dec::from_u32(10000))
    }

    /// A client with `initial_balance` in cash.
    pub fn with_initial_balance(initial_balance: Dec) -> (r: Self)
        ensures
            r.wf(),
            r.cash() == initial_balance,
            r.held().len() == 0,
            r.pending().len() == 0,
            r.leverages().len() == 0,
            r.counter() == 0,
    {
        PaperTradingClient {
            balance: initial_balance,
            positions: Vec::new(),
            orders: Vec::new(),
            leverage: Vec::new(),
            order_counter: 0,
        }
    }

    /// The cash balance.
    pub fn balance(&self) -> (r: Dec)
        ensures
            r == self.cash(),
    {
        self.balance
    }

    /// Sets the cash balance.
    pub fn set_balance(&mut self, balance: Dec)
        ensures
            final(self).cash() == balance,
            final(self).held() == old(self).held(),
            final(self).pending() == old(self).pending(),
            final(self).leverages() == old(self).leverages(),
            final(self).counter() == old(self).counter(),
    {
        self.balance = balance;
    }

    /// The next order id: "PAPER_" and the count of ids handed out.
    fn next_order_id(&mut self) -> (r: String)
        requires
            old(self).counter() < u64::MAX,
        ensures
            final(self).counter() == old(self).counter() + 1,
            r@ == "PAPER_"@ + int_text(final(self).counter() as int),
            final(self).cash() == old(self).cash(),
            final(self).held() == old(self).held(),
            final(self).pending() == old(self).pending(),
            final(self).leverages() == old(self).leverages(),
    {
        self.order_counter = self.order_counter + 1;
        let mut id = "PAPER_".to_string();
        id.append(u64_text(self.order_counter).as_str());
        id
    }

    fn find_position(&self, symbol: &str) -> (r: Option<usize>)
        requires
            symbols_unique(self.held()),
        ensures
            match r {
                Some(i) => holds_symbol(self.held(), symbol@) && i == symbol_index(
                    self.held(),
                    symbol@,
                ),
                None => !holds_symbol(self.held(), symbol@),
            },
    {
        let mut i: usize = 0;
        while i < self.positions.len()
            invariant
                i <= self.positions@.len(),
                symbols_unique(self.held()),
                forall|j: int| 0 <= j < i ==> self.positions@[j].symbol@ != symbol@,
            decreases self.positions@.len() - i,
        {
            if text_is(self.positions[i].symbol.as_str(), symbol) {
                assert(symbol_at(self.held(), symbol@, i as int));
                return Some(i);
            }
            i += 1;
        }
        None
    }

    fn find_order(&self, id: &str) -> (r: Option<usize>)
        requires
            ids_unique(self.pending()),
        ensures
            match r {
                Some(i) => holds_order(self.pending(), id@) && i == order_index(
                    self.pending(),
                    id@,
                ),
                None => !holds_order(self.pending(), id@),
            },
    {
        let mut i: usize = 0;
        while i < self.orders.len()
            invariant
                i <= self.orders@.len(),
                ids_unique(self.pending()),
                forall|j: int| 0 <= j < i ==> self.orders@[j].id@ != id@,
            decreases self.orders@.len() - i,
        {
            if text_is(self.orders[i].id.as_str(), id) {
                assert(order_at(self.pending(), id@, i as int));
                return Some(i);
            }
            i += 1;
        }
        None
    }

    fn leverage_of(&self, symbol: &str) -> (r: u32)
        requires
            leverage_symbols_unique(self.leverages()),
        ensures
            r == leverage_for(self.leverages(), symbol@),
    {
        let mut i: usize = 0;
        while i < self.leverage.len()
            invariant
                i <= self.leverage@.len(),
                leverage_symbols_unique(self.leverages()),
                forall|j: int| 0 <= j < i ==> self.leverage@[j].0@ != symbol@,
            decreases self.leverage@.len() - i,
        {
            if text_is(self.leverage[i].0.as_str(), symbol) {
                proof {
                    let ls = self.leverages();
                    let k = choose|k: int| 0 <= k < ls.len() && ls[k].0@ == symbol@;
                    assert(k == i);
                }
                return self.leverage[i].1;
            }
            i += 1;
        }
        1
    }

    /// The leveraged profit of a position at `exit_price`.
    pub fn calculate_pnl(pos: &Position, exit_price: Dec) -> (r: Dec)
        requires
            leveraged_pnl_ok(*pos, exit_price),
        ensures
            r.repr() == leveraged_pnl(*pos, exit_price),
    {
        let diff = exit_price.sub(pos.entry_price);
        let direction = match pos.side {
            PositionSide::Long => Dec::one(),
            PositionSide::Short => Dec::one().neg(),
        };
        diff.mul(pos.quantity).mul(direction).mul(Dec::from_u32(pos.leverage))
    }

    /// Fills a market order at `price`: the order is filled in full, and the
    /// position for its symbol grows (at the averaged entry), shrinks, or
    /// closes (its profit paid into the balance); with no position one is
    /// opened at the leverage set for the symbol.
    pub fn execute_market_order(&mut self, order: &mut Order, price: Dec)
        requires
            old(self).wf(),
            old(self).fill_ok(old(order).symbol@, old(order).side, old(order).quantity, price),
        ensures
            final(self).wf(),
            final(order).filled_at is Some,
            *final(order) == (Order {
                status: OrderStatus::Filled,
                filled_quantity: old(order).quantity,
                average_fill_price: Some(price),
                filled_at: final(order).filled_at,
                ..*old(order)
            }),
            Self::filled(old(self), final(self), *old(order), price),
            final(self).counter() == old(self).counter(),
    {
        let now = now_millis();
        order.status = OrderStatus::Filled;
        order.filled_quantity = order.quantity;
        order.average_fill_price = Some(price);
        order.filled_at = Some(now);
        let q = order.filled_quantity;
        match self.find_position(order.symbol.as_str()) {
            Some(i) => {
                let pos = self.positions[i].duplicate();
                let adds = match (order.side, pos.side) {
                    (OrderSide::Buy, PositionSide::Long) => true,
                    (OrderSide::Sell, PositionSide::Short) => true,
                    _ => false,
                };
                if adds {
                    let total_value = pos.entry_price.mul(pos.quantity).add(price.mul(q));
                    let quantity = pos.quantity.add(q);
                    let entry_price = total_value.div(quantity);
                    let updated = Position { quantity, entry_price, ..pos };
                    self.positions.set(i, updated);
                    proof {
                        assert forall|a: int, b: int|
                            0 <= a < self.positions@.len() && 0 <= b < self.positions@.len() && a
                                != b implies self.positions@[a].symbol@
                            != self.positions@[b].symbol@ by {
                            assert(old(self).positions@[a].symbol@ == self.positions@[a].symbol@);
                            assert(old(self).positions@[b].symbol@ == self.positions@[b].symbol@);
                        }
                    }
                } else if q.ge(&pos.quantity) {
                    let pnl = Self::calculate_pnl(&pos, price);
                    self.balance = self.balance.add(pnl);
                    self.positions.remove(i);
                    proof {
                        let ops = old(self).positions@;
                        assert forall|a: int, b: int|
                            0 <= a < self.positions@.len() && 0 <= b < self.positions@.len() && a
                                != b implies self.positions@[a].symbol@
                            != self.positions@[b].symbol@ by {
                            let oa = if a < i { a } else { a + 1 };
                            let ob = if b < i { b } else { b + 1 };
                            assert(self.positions@[a] == ops[oa]);
                            assert(self.positions@[b] == ops[ob]);
                        }
                    }
                } else {
                    let quantity = pos.quantity.sub(q);
                    let updated = Position { quantity, ..pos };
                    self.positions.set(i, updated);
                    proof {
                        assert forall|a: int, b: int|
                            0 <= a < self.positions@.len() && 0 <= b < self.positions@.len() && a
                                != b implies self.positions@[a].symbol@
                            != self.positions@[b].symbol@ by {
                            assert(old(self).positions@[a].symbol@ == self.positions@[a].symbol@);
                            assert(old(self).positions@[b].symbol@ == self.positions@[b].symbol@);
                        }
                    }
                }
            },
            None => {
                let leverage = self.leverage_of(order.symbol.as_str());
                let side = match order.side {
                    OrderSide::Buy => PositionSide::Long,
                    OrderSide::Sell => PositionSide::Short,
                };
                let opened = now_millis();
                let new_position = Position {
                    id: new_id(),
                    exchange: ExchangeId::Paper,
                    symbol: order.symbol.clone(),
                    side,
                    quantity: q,
                    entry_price: price,
                    current_price: price,
                    leverage,
                    margin: q.mul(price).div(Dec::from_u32(leverage)),
                    unrealized_pnl: Dec::zero(),
                    unrealized_pnl_pct: Dec::zero(),
                    realized_pnl: Dec::zero(),
                    stop_loss_order_id: None,
                    stop_loss_price: order.stop_loss,
                    take_profit_order_id: None,
                    take_profit_price: order.take_profit,
                    entry_order_id: order.id.clone(),
                    status: PositionStatus::Open,
                    liquidation_price: None,
                    opened_at: opened,
                    closed_at: None,
                    updated_at: opened,
                };
                self.positions.push(new_position);
                proof {
                    assert(self.positions@.take(old(self).positions@.len() as int)
                        =~= old(self).positions@);
                    assert forall|a: int, b: int|
                        0 <= a < self.positions@.len() && 0 <= b < self.positions@.len() && a
                            != b implies self.positions@[a].symbol@
                        != self.positions@[b].symbol@ by {
                        let n = old(self).positions@.len() as int;
                        if a == n {
                            assert(!symbol_at(old(self).positions@, order.symbol@, b));
                        } else if b == n {
                            assert(!symbol_at(old(self).positions@, order.symbol@, a));
                        }
                    }
                }
            },
        }
    }
}

/// An order is still open: submitted or partially filled.
pub open spec fn is_open(o: Order) -> bool {
    o.status == OrderStatus::Submitted || o.status == OrderStatus::PartiallyFilled
}

/// An open order, of `symbol` when one is given.
pub open spec fn open_for(o: Order, symbol: Option<Seq<char>>) -> bool {
    is_open(o) && match symbol {
        Some(s) => o.symbol@ == s,
        None => true,
    }
}

/// The open orders among `os`, of `symbol` when one is given, in order.
pub open spec fn open_orders_of(os: Seq<Order>, symbol: Option<Seq<char>>) -> Seq<Order> {
    os.filter(|o: Order| open_for(o, symbol))
}

/// The margins of some positions.
pub open spec fn margins(ps: Seq<Position>) -> Seq<Dec> {
    ps.map_values(|p: Position| p.margin)
}

impl PaperTradingClient {
    /// The exchange simulated.
    pub fn exchange_id(&self) -> (r: ExchangeId)
        ensures
            r == ExchangeId::Paper,
    {
        ExchangeId::Paper
    }

    /// Always paper trading.
    pub fn is_paper_trading(&self) -> (r: bool)
        ensures
            r,
    {
        true
    }

    /// Submits an order: it gets the next "PAPER_" id as its client and
    /// exchange id and a fresh id of its own; a market order fills at once
    /// at its price (the simulated 50000 when it has none), any other order
    /// waits among the pending ones.
    pub fn submit_order(&mut self, request: OrderRequest) -> (r: Order)
        requires
            old(self).wf(),
            old(self).counter() < u64::MAX,
            request.order_type == OrderType::Market ==> match request.price {
                Some(p) => old(self).fill_ok(request.symbol@, request.side, request.quantity, p),
                None => exists|p: Dec|
                    p.repr() == simulated_price() && #[trigger] old(self).fill_ok(
                        request.symbol@,
                        request.side,
                        request.quantity,
                        p,
                    ),
            },
        ensures
            final(self).wf(),
            final(self).counter() == old(self).counter() + 1,
            r.client_order_id@ == "PAPER_"@ + int_text(final(self).counter() as int),
            r.exchange_order_id == Some(r.client_order_id),
            r.exchange == ExchangeId::Paper,
            r.symbol == request.symbol,
            r.side == request.side,
            r.order_type == request.order_type,
            r.quantity == request.quantity,
            r.price == request.price,
            r.stop_price == request.stop_price,
            r.stop_loss == request.stop_loss,
            r.take_profit == request.take_profit,
            r.time_in_force == request.time_in_force,
            r.source matches OrderSource::Manual { nota } && nota is None,
            r.error_message is None,
            r.submitted_at == Some(r.created_at),
            r.updated_at == r.created_at,
            request.order_type == OrderType::Market ==> {
                &&& r.status == OrderStatus::Filled
                &&& r.filled_quantity == request.quantity
                &&& r.filled_at is Some
                &&& r.average_fill_price matches Some(price) && fill_price_ok(request, price)
                    && Self::filled(old(self), final(self), r, price)
            },
            request.order_type != OrderType::Market ==> {
                &&& r.status == OrderStatus::Submitted
                &&& r.filled_quantity.v() == 0
                &&& r.average_fill_price is None
                &&& r.filled_at is None
                &&& final(self).cash() == old(self).cash()
                &&& final(self).held() == old(self).held()
                &&& final(self).leverages() == old(self).leverages()
                &&& final(self).pending() == with_pending(old(self).pending(), r)
            },
    {
        let order_id = self.next_order_id();
        let now = now_millis();
        let mut order = Order {
            id: new_id(),
            client_order_id: order_id.clone(),
            exchange_order_id: Some(order_id),
            exchange: ExchangeId::Paper,
            symbol: request.symbol.clone(),
            side: request.side,
            order_type: request.order_type,
            quantity: request.quantity,
            price: request.price,
            stop_price: request.stop_price,
            stop_loss: request.stop_loss,
            take_profit: request.take_profit,
            time_in_force: request.time_in_force,
            status: OrderStatus::Submitted,
            filled_quantity: Dec::zero(),
            average_fill_price: None,
            source: OrderSource::Manual { nota: None },
            error_message: None,
            created_at: now,
            submitted_at: Some(now),
            filled_at: None,
            updated_at: now,
        };
        if request.order_type == OrderType::Market {
            let price = match request.price {
                Some(p) => p,
                None => Dec::from_u32(50000),
            };
            proof {
                if request.price is None {
                    let w = choose|p: Dec|
                        p.repr() == simulated_price() && #[trigger] old(self).fill_ok(
                            request.symbol@,
                            request.side,
                            request.quantity,
                            p,
                        );
                    assert(old(self).fill_ok(request.symbol@, request.side, request.quantity, w));
                    assert(price.repr() == w.repr());
                }
            }
            self.execute_market_order(&mut order, price);
        } else {
            let stored = order.duplicate();
            match self.find_order(order.id.as_str()) {
                Some(i) => {
                    self.orders.set(i, stored);
                    proof {
                        assert forall|a: int, b: int|
                            0 <= a < self.orders@.len() && 0 <= b < self.orders@.len() && a != b
                            implies self.orders@[a].id@ != self.orders@[b].id@ by {
                            assert(old(self).orders@[a].id@ == self.orders@[a].id@);
                            assert(old(self).orders@[b].id@ == self.orders@[b].id@);
                        }
                    }
                },
                None => {
                    self.orders.push(stored);
                    proof {
                        assert forall|a: int, b: int|
                            0 <= a < self.orders@.len() && 0 <= b < self.orders@.len() && a != b
                            implies self.orders@[a].id@ != self.orders@[b].id@ by {
                            let n = old(self).orders@.len() as int;
                            if a == n {
                                assert(!order_at(old(self).orders@, order.id@, b));
                            } else if b == n {
                                assert(!order_at(old(self).orders@, order.id@, a));
                            }
                        }
                    }
                },
            }
        }
        order
    }

    /// Cancels a pending order: true when there was one with `order_id`,
    /// which is then no longer pending.
    pub fn cancel_order(&mut self, order_id: &str) -> (r: bool)
        requires
            old(self).wf(),
        ensures
            final(self).wf(),
            r == holds_order(old(self).pending(), order_id@),
            r ==> final(self).pending() == old(self).pending().remove(
                order_index(old(self).pending(), order_id@),
            ),
            !r ==> final(self).pending() == old(self).pending(),
            final(self).cash() == old(self).cash(),
            final(self).held() == old(self).held(),
            final(self).leverages() == old(self).leverages(),
            final(self).counter() == old(self).counter(),
    {
        match self.find_order(order_id) {
            Some(i) => {
                self.orders.remove(i);
                proof {
                    let os = old(self).orders@;
                    assert forall|a: int, b: int|
                        0 <= a < self.orders@.len() && 0 <= b < self.orders@.len() && a != b
                        implies self.orders@[a].id@ != self.orders@[b].id@ by {
                        let oa = if a < i { a } else { a + 1 };
                        let ob = if b < i { b } else { b + 1 };
                        assert(self.orders@[a] == os[oa]);
                        assert(self.orders@[b] == os[ob]);
                    }
                }
                true
            },
            None => false,
        }
    }

    /// The pending order with `order_id`, or an error naming it.
    pub fn get_order_status(&self, order_id: &str) -> (r: Result<Order, ExchangeError>)
        requires
            self.wf(),
        ensures
            holds_order(self.pending(), order_id@) ==> r == Ok::<Order, ExchangeError>(
                self.pending()[order_index(self.pending(), order_id@)],
            ),
            !holds_order(self.pending(), order_id@) ==> (r matches Err(
                ExchangeError::ApiError { exchange, code, message },
            ) && exchange@ == "paper"@ && code == 0 && message@ == "Ordem "@ + order_id@
                + " não encontrada"@),
    {
        match self.find_order(order_id) {
            Some(i) => Ok(self.orders[i].duplicate()),
            None => {
                let mut message = "Ordem ".to_string();
                message.append(order_id);
                message.append(" não encontrada");
                Err(ExchangeError::ApiError { exchange: "paper".to_string(), code: 0, message })
            },
        }
    }

    /// The pending orders still open (submitted or partially filled), of
    /// `symbol` when one is given, in the order they were placed.
    pub fn get_open_orders(&self, symbol: Option<&str>) -> (r: Vec<Order>)
        ensures
            r@ == open_orders_of(
                self.pending(),
                match symbol {
                    Some(s) => Some(s@),
                    None => None,
                },
            ),
    {
        let ghost wanted = match symbol {
            Some(s) => Some(s@),
            None => None,
        };
        let mut out: Vec<Order> = Vec::new();
        let mut i: usize = 0;
        assert(self.orders@.take(0) =~= Seq::<Order>::empty());
        proof {
            reveal(Seq::filter);
        }
        while i < self.orders.len()
            invariant
                i <= self.orders@.len(),
                wanted == match symbol {
                    Some(s) => Some(s@),
                    None => None::<Seq<char>>,
                },
                out@ == open_orders_of(self.orders@.take(i as int), wanted),
            decreases self.orders@.len() - i,
        {
            let o = &self.orders[i];
            let open = o.status == OrderStatus::Submitted || o.status
                == OrderStatus::PartiallyFilled;
            let matches = match symbol {
                Some(s) => text_is(o.symbol.as_str(), s),
                None => true,
            };
            proof {
                reveal(Seq::filter);
                assert(self.orders@.take(i as int + 1).drop_last() =~= self.orders@.take(
                    i as int,
                ));
                assert(self.orders@.take(i as int + 1).last() == self.orders@[i as int]);
            }
            if open && matches {
                out.push(o.duplicate());
            }
            i += 1;
        }
        assert(self.orders@.take(self.orders@.len() as int) =~= self.orders@);
        out
    }

    /// The open positions.
    pub fn get_positions(&self) -> (r: Vec<Position>)
        ensures
            r@ == self.held(),
    {
        let mut out: Vec<Position> = Vec::new();
        let mut i: usize = 0;
        while i < self.positions.len()
            invariant
                i <= self.positions@.len(),
                out@ == self.positions@.take(i as int),
            decreases self.positions@.len() - i,
        {
            out.push(self.positions[i].duplicate());
            assert(self.positions@.take(i as int + 1) =~= self.positions@.take(i as int).push(
                self.positions@[i as int],
            ));
            i += 1;
        }
        assert(self.positions@.take(self.positions@.len() as int) =~= self.positions@);
        out
    }

    /// The position for `symbol`, if any.
    pub fn get_position(&self, symbol: &str) -> (r: Option<Position>)
        requires
            self.wf(),
        ensures
            holds_symbol(self.held(), symbol@) ==> r == Some(
                self.held()[symbol_index(self.held(), symbol@)],
            ),
            !holds_symbol(self.held(), symbol@) ==> r is None,
    {
        match self.find_position(symbol) {
            Some(i) => Some(self.positions[i].duplicate()),
            None => None,
        }
    }

    /// One balance, of USDT: the cash less the margin of the positions is
    /// free, that margin is locked.
    pub fn get_balances(&self) -> (r: Vec<Balance>)
        requires
            sum_fits(reprs(margins(self.held()))),
            sub_ok(self.cash().repr(), rsum(reprs(margins(self.held())))),
        ensures
            r@.len() == 1,
            r@[0].asset@ == "USDT"@,
            r@[0].locked.repr() == rsum(reprs(margins(self.held()))),
            r@[0].free.repr() == rsub(self.cash().repr(), rsum(reprs(margins(self.held())))),
    {
        let mut all: Vec<Dec> = Vec::new();
        let mut i: usize = 0;
        while i < self.positions.len()
            invariant
                i <= self.positions@.len(),
                all@ == margins(self.positions@.take(i as int)),
            decreases self.positions@.len() - i,
        {
            all.push(self.positions[i].margin);
            assert(margins(self.positions@.take(i as int + 1)) =~= margins(
                self.positions@.take(i as int),
            ).push(self.positions@[i as int].margin));
            i += 1;
        }
        assert(self.positions@.take(self.positions@.len() as int) =~= self.positions@);
        let used = sum_all(&all);
        let balance = Balance {
            asset: "USDT".to_string(),
            free: self.balance.sub(used),
            locked: used,
        };
        let mut out: Vec<Balance> = Vec::new();
        out.push(balance);
        out
    }

    /// Sets the leverage of `symbol`: from 1 to 125x; any other value is
    /// refused and changes nothing.
    pub fn set_leverage(&mut self, symbol: &str, leverage: u32) -> (r: Result<(), ExchangeError>)
        requires
            old(self).wf(),
        ensures
            final(self).wf(),
            r is Ok <==> 1 <= leverage <= 125,
            r matches Err(e) ==> leverage_refused(e),
            r is Err ==> *final(self) == *old(self),
            r is Ok ==> leverage_for(final(self).leverages(), symbol@) == leverage,
            r is Ok ==> forall|other: Seq<char>|
                other != symbol@ ==> leverage_for(final(self).leverages(), other) == leverage_for(
                    old(self).leverages(),
                    other,
                ),
            final(self).cash() == old(self).cash(),
            final(self).held() == old(self).held(),
            final(self).pending() == old(self).pending(),
            final(self).counter() == old(self).counter(),
    {
        if leverage == 0 || leverage > 125 {
            return Err(
                ExchangeError::ApiError {
                    exchange: "paper".to_string(),
                    code: 0,
                    message: "Leverage must be between 1 and 125x".to_string(),
                },
            );
        }
        self.store_leverage(symbol, leverage);
        Ok(())
    }

    /// Records `leverage` for `symbol`.
    fn store_leverage(&mut self, symbol: &str, leverage: u32)
        requires
            old(self).wf(),
        ensures
            final(self).wf(),
            leverage_for(final(self).leverages(), symbol@) == leverage,
            forall|other: Seq<char>|
                other != symbol@ ==> leverage_for(final(self).leverages(), other) == leverage_for(
                    old(self).leverages(),
                    other,
                ),
            final(self).cash() == old(self).cash(),
            final(self).held() == old(self).held(),
            final(self).pending() == old(self).pending(),
            final(self).counter() == old(self).counter(),
    {
        let mut i: usize = 0;
        while i < self.leverage.len()
            invariant
                i <= self.leverage@.len(),
                self.leverage@ == old(self).leverage@,
                self.positions@ == old(self).positions@,
                self.orders@ == old(self).orders@,
                self.balance == old(self).balance,
                self.order_counter == old(self).order_counter,
                old(self).wf(),
                leverage_symbols_unique(self.leverages()),
                forall|j: int| 0 <= j < i ==> self.leverage@[j].0@ != symbol@,
            decreases self.leverage@.len() - i,
        {
            if text_is(self.leverage[i].0.as_str(), symbol) {
                let entry = (symbol.to_string(), leverage);
                self.leverage.set(i, entry);
                proof {
                    let ls = self.leverage@;
                    let os = old(self).leverage@;
                    assert forall|a: int, b: int|
                        0 <= a < ls.len() && 0 <= b < ls.len() && a != b implies ls[a].0@
                        != ls[b].0@ by {
                        assert(ls[a].0@ == os[a].0@);
                        assert(ls[b].0@ == os[b].0@);
                    }
                    let k = choose|k: int| 0 <= k < ls.len() && ls[k].0@ == symbol@;
                    assert(ls[i as int].0@ == symbol@);
                    assert(k == i);
                    assert forall|other: Seq<char>| other != symbol@ implies leverage_for(
                        ls,
                        other,
                    ) == leverage_for(os, other) by {
                        if exists|j: int| 0 <= j < os.len() && os[j].0@ == other {
                            let j = choose|j: int| 0 <= j < os.len() && os[j].0@ == other;
                            assert(ls[j].0@ == other);
                            let j2 = choose|j: int| 0 <= j < ls.len() && ls[j].0@ == other;
                            assert(j2 == j);
                        } else {
                            assert forall|j: int| 0 <= j < ls.len() implies ls[j].0@ != other by {
                                if j != i {
                                    assert(ls[j] == os[j]);
                                }
                            }
                        }
                    }
                }
                return;
            }
            i += 1;
        }
        self.leverage.push((symbol.to_string(), leverage));
        proof {
            let ls = self.leverage@;
            let os = old(self).leverage@;
            let n = os.len() as int;
            assert forall|a: int, b: int|
                0 <= a < ls.len() && 0 <= b < ls.len() && a != b implies ls[a].0@ != ls[b].0@ by {
                if a == n {
                    assert(os[b].0@ != symbol@);
                } else if b == n {
                    assert(os[a].0@ != symbol@);
                } else {
                    assert(ls[a] == os[a]);
                    assert(ls[b] == os[b]);
                }
            }
            assert(ls[n].0@ == symbol@);
            let k = choose|k: int| 0 <= k < ls.len() && ls[k].0@ == symbol@;
            assert(k == n);
            assert forall|other: Seq<char>| other != symbol@ implies leverage_for(ls, other)
                == leverage_for(os, other) by {
                if exists|j: int| 0 <= j < os.len() && os[j].0@ == other {
                    let j = choose|j: int| 0 <= j < os.len() && os[j].0@ == other;
                    assert(ls[j] == os[j]);
                    let j2 = choose|j: int| 0 <= j < ls.len() && ls[j].0@ == other;
                    assert(j2 == j);
                } else {
                    assert forall|j: int| 0 <= j < ls.len() implies ls[j].0@ != other by {
                        if j < n {
                            assert(ls[j] == os[j]);
                        }
                    }
                }
            }
        }
    }

    /// Always reachable.
    pub fn ping(&self) -> (r: Result<(), ExchangeError>)
        ensures
            r is Ok,
    {
        Ok(())
    }
}

/// Repricing a position at `price` needs no rounding but in the quotient,
/// and divides by no zero.
pub open spec fn reprice_ok(pos: Position, price: Dec) -> bool {
    let notional = rmul(pos.entry_price.repr(), pos.quantity.repr());
    &&& leveraged_pnl_ok(pos, price)
    &&& pos.entry_price.v() != 0 ==> {
        &&& mul_ok(pos.entry_price.repr(), pos.quantity.repr())
        &&& div_ok(leveraged_pnl(pos, price), notional)
        &&& mul_ok(decimal_quotient(leveraged_pnl(pos, price), notional), rint(100))
    }
}

impl PaperTradingClient {
    /// Reprices the position for `symbol`, if any: its current price, its
    /// leveraged unrealized profit and, when its entry price is not zero,
    /// that profit as a percentage of its notional.
    pub fn update_position_price(&mut self, symbol: &str, current_price: Dec)
        requires
            old(self).wf(),
            holds_symbol(old(self).held(), symbol@) ==> reprice_ok(
                old(self).held()[symbol_index(old(self).held(), symbol@)],
                current_price,
            ),
        ensures
            final(self).wf(),
            final(self).cash() == old(self).cash(),
            final(self).pending() == old(self).pending(),
            final(self).leverages() == old(self).leverages(),
            final(self).counter() == old(self).counter(),
            !holds_symbol(old(self).held(), symbol@) ==> final(self).held() == old(self).held(),
            holds_symbol(old(self).held(), symbol@) ==> {
                let i = symbol_index(old(self).held(), symbol@);
                let pos = old(self).held()[i];
                let p = final(self).held()[i];
                &&& final(self).held().len() == old(self).held().len()
                &&& final(self).held() == old(self).held().update(i, p)
                &&& p == Position {
                    current_price: current_price,
                    unrealized_pnl: p.unrealized_pnl,
                    unrealized_pnl_pct: p.unrealized_pnl_pct,
                    updated_at: p.updated_at,
                    ..pos
                }
                &&& p.unrealized_pnl.repr() == leveraged_pnl(pos, current_price)
                &&& pos.entry_price.v() == 0 ==> p.unrealized_pnl_pct == pos.unrealized_pnl_pct
                &&& pos.entry_price.v() != 0 ==> p.unrealized_pnl_pct.repr() == rmul(
                    decimal_quotient(
                        leveraged_pnl(pos, current_price),
                        rmul(pos.entry_price.repr(), pos.quantity.repr()),
                    ),
                    rint(100),
                )
            },
    {
        match self.find_position(symbol) {
            Some(i) => {
                let pos = self.positions[i].duplicate();
                let pnl = Self::calculate_pnl(&pos, current_price);
                let pct = if !pos.entry_price.is_zero() {
                    pnl.div(pos.entry_price.mul(pos.quantity)).mul(Dec::from_u32(100))
                } else {
                    pos.unrealized_pnl_pct
                };
                let updated = Position {
                    current_price,
                    unrealized_pnl: pnl,
                    unrealized_pnl_pct: pct,
                    updated_at: now_millis(),
                    ..pos
                };
                self.positions.set(i, updated);
                proof {
                    assert forall|a: int, b: int|
                        0 <= a < self.positions@.len() && 0 <= b < self.positions@.len() && a != b
                        implies self.positions@[a].symbol@ != self.positions@[b].symbol@ by {
                        assert(old(self).positions@[a].symbol@ == self.positions@[a].symbol@);
                        assert(old(self).positions@[b].symbol@ == self.positions@[b].symbol@);
                    }
                }
            },
            None => {},
        }
    }
}

/// Once a pending order is cancelled, no pending order has its id: asking
/// for it fails.
pub proof fn law_cancelled_order_is_gone(os: Seq<Order>, id: Seq<char>)
    requires
        ids_unique(os),
        holds_order(os, id),
    ensures
        !holds_order(os.remove(order_index(os, id)), id),
        ids_unique(os.remove(order_index(os, id))),
{
    let i = order_index(os, id);
    let rest = os.remove(i);
    assert forall|k: int| !order_at(rest, id, k) by {
        if order_at(rest, id, k) {
            let ok = if k < i { k } else { k + 1 };
            assert(rest[k] == os[ok]);
        }
    }
    assert forall|a: int, b: int|
        0 <= a < rest.len() && 0 <= b < rest.len() && a != b implies rest[a].id@ != rest[b].id@ by {
        let oa = if a < i { a } else { a + 1 };
        let ob = if b < i { b } else { b + 1 };
        assert(rest[a] == os[oa]);
        assert(rest[b] == os[ob]);
    }
}

/// A fill that closes the position of a symbol leaves no position for that
/// symbol, and the others as they were.
pub proof fn law_closed_symbol_is_gone(ps: Seq<Position>, symbol: Seq<char>)
    requires
        symbols_unique(ps),
        holds_symbol(ps, symbol),
    ensures
        !holds_symbol(ps.remove(symbol_index(ps, symbol)), symbol),
        forall|other: Seq<char>|
            other != symbol ==> (holds_symbol(ps.remove(symbol_index(ps, symbol)), other)
                <==> holds_symbol(ps, other)),
{
    let i = symbol_index(ps, symbol);
    let rest = ps.remove(i);
    assert forall|k: int| !symbol_at(rest, symbol, k) by {
        if symbol_at(rest, symbol, k) {
            let ok = if k < i { k } else { k + 1 };
            assert(rest[k] == ps[ok]);
        }
    }
    assert forall|other: Seq<char>| other != symbol implies (holds_symbol(rest, other)
        <==> holds_symbol(ps, other)) by {
        if holds_symbol(rest, other) {
            let k = choose|k: int| symbol_at(rest, other, k);
            let ok = if k < i { k } else { k + 1 };
            assert(rest[k] == ps[ok]);
            assert(symbol_at(ps, other, ok));
        }
        if holds_symbol(ps, other) {
            let k = choose|k: int| symbol_at(ps, other, k);
            assert(k != i);
            let rk = if k < i { k } else { k - 1 };
            assert(rest[rk] == ps[k]);
            assert(symbol_at(rest, other, rk));
        }
    }
}

/// The pending orders after a non-market order is submitted: it replaces
/// the order with its id, or joins the end.
pub open spec fn with_pending(os: Seq<Order>, o: Order) -> Seq<Order> {
    if holds_order(os, o.id@) {
        os.update(order_index(os, o.id@), o)
    } else {
        os.push(o)
    }
}

/// A non-market order just submitted is pending, and asking for its id
/// gives it back; the ids stay unique.
pub proof fn law_submitted_order_is_found(os: Seq<Order>, o: Order)
    requires
        ids_unique(os),
    ensures
        holds_order(with_pending(os, o), o.id@),
        with_pending(os, o)[order_index(with_pending(os, o), o.id@)] == o,
        ids_unique(with_pending(os, o)),
{
    let after = with_pending(os, o);
    if holds_order(os, o.id@) {
        let i = order_index(os, o.id@);
        assert(order_at(after, o.id@, i));
        let j = order_index(after, o.id@);
        assert(j == i);
        assert forall|a: int, b: int|
            0 <= a < after.len() && 0 <= b < after.len() && a != b implies after[a].id@
                != after[b].id@ by {
            if a != i && b != i {
                assert(after[a] == os[a] && after[b] == os[b]);
            } else if a == i {
                assert(after[b] == os[b]);
                assert(os[i].id@ == o.id@);
            } else {
                assert(after[a] == os[a]);
                assert(os[i].id@ == o.id@);
            }
        }
    } else {
        let n = os.len() as int;
        assert(order_at(after, o.id@, n));
        let j = order_index(after, o.id@);
        if j != n {
            assert(after[j] == os[j]);
            assert(order_at(os, o.id@, j));
        }
        assert forall|a: int, b: int|
            0 <= a < after.len() && 0 <= b < after.len() && a != b implies after[a].id@
                != after[b].id@ by {
            if a < n && b < n {
                assert(after[a] == os[a] && after[b] == os[b]);
            } else if a == n {
                assert(after[b] == os[b]);
                assert(!order_at(os, o.id@, b));
            } else {
                assert(after[a] == os[a]);
                assert(!order_at(os, o.id@, a));
            }
        }
    }
}

} // verus!
