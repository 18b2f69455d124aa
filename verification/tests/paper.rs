use robotrade::decimal::Dec;
use robotrade::entities::{OrderRequest, OrderSide, OrderStatus, OrderType, PositionSide, TimeInForce};
use robotrade::paper::PaperTradingClient;

fn make_order_request(
    symbol: &str,
    side: OrderSide,
    order_type: OrderType,
    quantity: Dec,
    price: Option<Dec>,
) -> OrderRequest {
    OrderRequest {
        symbol: symbol.to_string(),
        side,
        order_type,
        quantity,
        price,
        stop_price: None,
        stop_loss: None,
        take_profit: None,
        time_in_force: TimeInForce::GTC,
        leverage: None,
        reduce_only: false,
    }
}

#[test]
fn test_paper_trading_market_order() {
    let mut client = PaperTradingClient::new();
    let request = make_order_request(
        "BTCUSDT",
        OrderSide::Buy,
        OrderType::Market,
        Dec::new(1, 1),
        Some(Dec::new(50000, 0)),
    );
    let order = client.submit_order(request);
    assert_eq!(order.status, OrderStatus::Filled);
    assert!(order.filled_quantity == Dec::new(1, 1));
    let positions = client.get_positions();
    assert_eq!(positions.len(), 1);
    assert_eq!(positions[0].symbol, "BTCUSDT");
    assert!(positions[0].quantity == Dec::new(1, 1));
}

#[test]
fn test_paper_trading_limit_order() {
    let mut client = PaperTradingClient::new();
    let request = make_order_request(
        "BTCUSDT",
        OrderSide::Buy,
        OrderType::Limit,
        Dec::new(1, 1),
        Some(Dec::new(45000, 0)),
    );
    let order = client.submit_order(request);
    assert_eq!(order.status, OrderStatus::Submitted);
    let open_orders = client.get_open_orders(None);
    assert_eq!(open_orders.len(), 1);
}

#[test]
fn test_paper_trading_close_position() {
    let mut client = PaperTradingClient::new();
    let open_request = make_order_request(
        "BTCUSDT",
        OrderSide::Buy,
        OrderType::Market,
        Dec::new(1, 1),
        Some(Dec::new(50000, 0)),
    );
    client.submit_order(open_request);
    let close_request = make_order_request(
        "BTCUSDT",
        OrderSide::Sell,
        OrderType::Market,
        Dec::new(1, 1),
        Some(Dec::new(55000, 0)),
    );
    client.submit_order(close_request);
    let positions = client.get_positions();
    assert!(positions.is_empty());
    let balances = client.get_balances();
    assert!(balances[0].free.gt(&Dec::new(10000, 0)));
    // 0.1 * (55000 - 50000) at leverage 1
    assert!(client.balance() == Dec::new(10500, 0));
}

#[test]
fn test_paper_trading_leverage() {
    let mut client = PaperTradingClient::new();
    client.set_leverage("BTCUSDT", 10).unwrap();
    let request = make_order_request(
        "BTCUSDT",
        OrderSide::Buy,
        OrderType::Market,
        Dec::new(1, 1),
        Some(Dec::new(50000, 0)),
    );
    client.submit_order(request);
    let positions = client.get_positions();
    assert_eq!(positions[0].leverage, 10);
    assert!(positions[0].margin == Dec::new(500, 0));
}

#[test]
fn paper_market_order_without_price_fills_at_simulated_price() {
    let mut client = PaperTradingClient::new();
    let request = make_order_request("ETHUSDT", OrderSide::Sell, OrderType::Market, Dec::new(2, 0), None);
    let order = client.submit_order(request);
    assert!(order.average_fill_price.unwrap() == Dec::new(50000, 0));
    let position = client.get_position("ETHUSDT").unwrap();
    assert_eq!(position.side, PositionSide::Short);
    assert_eq!(order.client_order_id, "PAPER_1");
    assert_eq!(order.exchange_order_id, Some("PAPER_1".to_string()));
}

#[test]
fn paper_adding_to_a_position_averages_its_entry() {
    let mut client = PaperTradingClient::new();
    client.submit_order(make_order_request("BTCUSDT", OrderSide::Buy, OrderType::Market, Dec::new(1, 0), Some(Dec::new(100, 0))));
    client.submit_order(make_order_request("BTCUSDT", OrderSide::Buy, OrderType::Market, Dec::new(1, 0), Some(Dec::new(200, 0))));
    let position = client.get_position("BTCUSDT").unwrap();
    assert!(position.quantity == Dec::new(2, 0));
    assert!(position.entry_price == Dec::new(150, 0));
}

#[test]
fn paper_partial_reduction_keeps_the_rest() {
    let mut client = PaperTradingClient::new();
    client.submit_order(make_order_request("BTCUSDT", OrderSide::Buy, OrderType::Market, Dec::new(3, 0), Some(Dec::new(100, 0))));
    client.submit_order(make_order_request("BTCUSDT", OrderSide::Sell, OrderType::Market, Dec::new(1, 0), Some(Dec::new(120, 0))));
    let position = client.get_position("BTCUSDT").unwrap();
    assert!(position.quantity == Dec::new(2, 0));
    assert!(client.balance() == Dec::new(10000, 0));
}

#[test]
fn paper_cancel_and_status() {
    let mut client = PaperTradingClient::new();
    let order = client.submit_order(make_order_request("BTCUSDT", OrderSide::Buy, OrderType::Limit, Dec::new(1, 0), Some(Dec::new(100, 0))));
    assert!(client.get_order_status(&order.id).is_ok());
    assert_eq!(client.get_open_orders(Some("ETHUSDT")).len(), 0);
    assert_eq!(client.get_open_orders(Some("BTCUSDT")).len(), 1);
    assert!(client.cancel_order(&order.id));
    assert!(!client.cancel_order(&order.id));
    match client.get_order_status(&order.id) {
        Err(robotrade::entities::ExchangeError::ApiError { exchange, code, message }) => {
            assert_eq!(exchange, "paper");
            assert_eq!(code, 0);
            assert_eq!(message, format!("Ordem {} não encontrada", order.id));
        }
        _ => panic!("expected an error"),
    }
}

#[test]
fn paper_reprices_a_position() {
    let mut client = PaperTradingClient::new();
    client.submit_order(make_order_request("BTCUSDT", OrderSide::Buy, OrderType::Market, Dec::new(2, 0), Some(Dec::new(100, 0))));
    client.update_position_price("BTCUSDT", Dec::new(110, 0));
    let position = client.get_position("BTCUSDT").unwrap();
    assert!(position.current_price == Dec::new(110, 0));
    assert!(position.unrealized_pnl == Dec::new(20, 0));
    assert!(position.unrealized_pnl_pct == Dec::new(10, 0));
}

#[test]
fn test_paper_leverage_outside_range_is_refused() {
    let mut client = PaperTradingClient::new();
    client.set_leverage("BTCUSDT", 125).unwrap();
    assert!(client.set_leverage("BTCUSDT", 0).is_err());
    assert!(client.set_leverage("BTCUSDT", 126).is_err());
    let request = make_order_request(
        "BTCUSDT",
        OrderSide::Buy,
        OrderType::Market,
        Dec::new(1, 1),
        Some(Dec::new(50000, 0)),
    );
    client.submit_order(request);
    assert_eq!(client.get_positions()[0].leverage, 125);
}
