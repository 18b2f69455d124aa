//! A deterministic stand-in for an exchange, for tests: it holds fixed
//! prices and balances, accepts nothing and reports nothing.
use crate::decimal::{pow10, Dec};
use crate::entities::{Balance, ExchangeError, Order, OrderRequest, Position};
use vstd::prelude::*;
use vstd::string::*;

verus! {

/// An exchange that always answers the same.
pub struct MockExchangeClient {
    fixed_prices: Vec<(String, Dec)>,
    balances: Vec<(String, Dec)>,
}

/// The text of the errors of what the mock does not do.
pub open spec fn not_implemented(e: ExchangeError) -> bool {
    e matches ExchangeError::InternalError { message } && message@
        == "Mock not fully implemented yet"@
}

fn not_implemented_error() -> (r: ExchangeError)
    ensures
        not_implemented(r),
{
    ExchangeError::InternalError { message: "Mock not fully implemented yet".to_string() }
}

impl MockExchangeClient {
    /// The fixed prices, by symbol.
    pub closed spec fn prices(&self) -> Seq<(Seq<char>, (int, nat))> {
        self.fixed_prices@.map_values(|p: (String, Dec)| (p.0@, p.1.repr()))
    }

    /// The fixed balances, by asset.
    pub closed spec fn held(&self) -> Seq<(Seq<char>, (int, nat))> {
        self.balances@.map_values(|p: (String, Dec)| (p.0@, p.1.repr()))
    }

    /// No prices and no balances.
    pub fn new() -> (r: Self)
        ensures
            r.prices().len() == 0,
            r.held().len() == 0,
    {
        MockExchangeClient { fixed_prices: Vec::new(), balances: Vec::new() }
    }

    /// The same as `new`.
    pub fn default() -> (r: Self)
        ensures
            r.prices().len() == 0,
            r.held().len() == 0,
    {
        Self::new()
    }

    /// BTCUSDT fixed at 50000.0, and no balances.
    pub fn deterministic() -> (r: Self)
        ensures
            r.prices() == seq![("BTCUSDT"@, (500000 * pow10(27), 1nat))],
            r.held().len() == 0,
    {
        let mut prices: Vec<(String, Dec)> = Vec::new();
        prices.push(("BTCUSDT".to_string(), Dec::new(500000, 1)));
        let r = MockExchangeClient { fixed_prices: prices, balances: Vec::new() };
        assert(r.prices() =~= seq![("BTCUSDT"@, (500000 * pow10(27), 1nat))]);
        r
    }

    /// Always paper trading.
    pub fn is_paper_trading(&self) -> (r: bool)
        ensures
            r,
    {
        true
    }

    /// Orders are not accepted.
    pub fn submit_order(&self, request: OrderRequest) -> (r: Result<Order, ExchangeError>)
        ensures
            r matches Err(e) && not_implemented(e),
    {
        Err(not_implemented_error())
    }

    /// Nothing is cancelled.
    pub fn cancel_order(&self, order_id: &str) -> (r: Result<bool, ExchangeError>)
        ensures
            r == Ok::<bool, ExchangeError>(false),
    {
        Ok(false)
    }

    /// No order is known.
    pub fn get_order_status(&self, order_id: &str) -> (r: Result<Order, ExchangeError>)
        ensures
            r matches Err(e) && not_implemented(e),
    {
        Err(not_implemented_error())
    }

    /// No open orders.
    pub fn get_open_orders(&self, symbol: Option<&str>) -> (r: Result<Vec<Order>, ExchangeError>)
        ensures
            r matches Ok(v) && v@.len() == 0,
    {
        Ok(Vec::new())
    }

    /// No positions.
    pub fn get_positions(&self) -> (r: Result<Vec<Position>, ExchangeError>)
        ensures
            r matches Ok(v) && v@.len() == 0,
    {
        Ok(Vec::new())
    }

    /// No position for any symbol.
    pub fn get_position(&self, symbol: &str) -> (r: Result<Option<Position>, ExchangeError>)
        ensures
            r == Ok::<Option<Position>, ExchangeError>(None),
    {
        Ok(None)
    }

    /// No balances.
    pub fn get_balances(&self) -> (r: Result<Vec<Balance>, ExchangeError>)
        ensures
            r matches Ok(v) && v@.len() == 0,
    {
        Ok(Vec::new())
    }

    /// Leverage is accepted and ignored.
    pub fn set_leverage(&self, symbol: &str, leverage: u32) -> (r: Result<(), ExchangeError>)
        ensures
            r is Ok,
    {
        Ok(())
    }

    /// Always reachable.
    pub fn ping(&self) -> (r: Result<(), ExchangeError>)
        ensures
            r is Ok,
    {
        Ok(())
    }
}

} // verus!
