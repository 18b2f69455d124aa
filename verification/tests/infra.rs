use robotrade::config::{
    default_symbols, join_path, log_filter, AppConfig, DatabaseConfig, LoggingConfig,
};
use robotrade::decimal::Dec;
use robotrade::entities::{ExchangeId, OrderSide, OrderSource, OrderStatus, OrderType, PositionSide, PositionStatus, TimeInForce};
use robotrade::market_data::{parse_api_item, request_url, ApiDataItem, MarketDataError};
use robotrade::mock::MockExchangeClient;
use robotrade::records::{
    exchange_id_to_string, order_from_record, order_status_to_string, order_type_to_string,
    parse_exchange_id, parse_order_source, parse_order_status, parse_order_type,
    position_from_record, position_status_to_string, OrderRecord, PositionRecord,
};

#[test]
fn test_default_config() {
    let config = AppConfig::default();
    assert_eq!(config.general.theme, "dark");
    assert_eq!(config.trading.default_leverage, 5);
    assert!(config.exchange.use_testnet);
}

#[test]
fn config_defaults_in_detail() {
    let config = AppConfig::default();
    assert_eq!(config.general.language, "pt-BR");
    assert_eq!(config.trading.default_mode, "paper");
    assert!(config.trading.default_stop_loss_pct == Dec::new(2, 0));
    assert_eq!(config.data_collection.symbols, default_symbols());
    assert_eq!(config.data_collection.timeframes, vec!["1h".to_string(), "4h".to_string(), "1d".to_string()]);
    assert_eq!(config.logging.retention_days, 7);
    assert_eq!(config.exchange.max_retries, 3);
}

#[test]
fn paths_and_database_settings() {
    assert_eq!(join_path("/home/u/.config/robotrade", "config.toml"), "/home/u/.config/robotrade/config.toml");
    assert_eq!(join_path("/data/", "logs"), "/data/logs");
    assert_eq!(join_path("", "logs"), "logs");
    let db = DatabaseConfig::with_path("/tmp/x.db".to_string());
    assert_eq!(db.max_connections, 5);
    assert_eq!(db.connection_url(), "sqlite:/tmp/x.db");
}

#[test]
fn log_filter_lowers_the_level() {
    let mut logging = LoggingConfig::default();
    logging.level = "DEBUG".to_string();
    assert_eq!(log_filter(&logging), "robotrade=debug,warn");
}

#[test]
fn test_parse_api_item() {
    let item = ApiDataItem {
        value: "25".to_string(),
        value_classification: "Extreme Fear".to_string(),
        timestamp: "1704067200".to_string(),
        time_until_update: None,
    };
    let data = parse_api_item(&item).unwrap();
    assert_eq!(data.value, 25);
    let first_of_2024 = chrono::NaiveDate::from_ymd_opt(2024, 1, 1).unwrap();
    let epoch = chrono::NaiveDate::from_ymd_opt(1970, 1, 1).unwrap();
    assert_eq!(data.day, first_of_2024.signed_duration_since(epoch).num_days());
}

#[test]
fn parse_api_item_errors() {
    let item = |v: &str, t: &str| ApiDataItem {
        value: v.to_string(),
        value_classification: String::new(),
        timestamp: t.to_string(),
        time_until_update: None,
    };
    match parse_api_item(&item("300", "1")) {
        Err(MarketDataError::ParseError(m)) => assert!(m.starts_with("Valor inválido: ")),
        other => panic!("unexpected {:?}", other),
    }
    match parse_api_item(&item("3", "x")) {
        Err(MarketDataError::ParseError(m)) => assert!(m.starts_with("Timestamp inválido: ")),
        other => panic!("unexpected {:?}", other),
    }
    match parse_api_item(&item("3", "9223372036854775807")) {
        Err(MarketDataError::ParseError(m)) => assert_eq!(m, "Timestamp inválido"),
        other => panic!("unexpected {:?}", other),
    }
    assert_eq!(request_url(Some(7)), "https://api.alternative.me/fng/?limit=7");
    assert_eq!(request_url(None), "https://api.alternative.me/fng/");
}

#[test]
fn stored_texts_read_back() {
    for id in [ExchangeId::BinanceFutures, ExchangeId::BinanceSpot, ExchangeId::KrakenFutures, ExchangeId::Paper, ExchangeId::Okx, ExchangeId::Bybit] {
        assert_eq!(parse_exchange_id(&exchange_id_to_string(id)), Ok(id));
    }
    for t in [OrderType::Market, OrderType::Limit, OrderType::StopLoss, OrderType::StopLossLimit, OrderType::TakeProfit, OrderType::TakeProfitLimit, OrderType::TrailingStop] {
        assert_eq!(parse_order_type(&order_type_to_string(t)), Ok(t));
    }
    for s in [OrderStatus::Pending, OrderStatus::Submitted, OrderStatus::PartiallyFilled, OrderStatus::Filled, OrderStatus::Cancelled, OrderStatus::Rejected, OrderStatus::Expired, OrderStatus::Failed] {
        assert_eq!(parse_order_status(&order_status_to_string(s)), Ok(s));
    }
    assert_eq!(position_status_to_string(PositionStatus::Liquidated), "liquidated");
    assert_eq!(parse_exchange_id("nasdaq"), Err("Unknown exchange: nasdaq".to_string()));
    assert_eq!(parse_order_type("stoploss"), Ok(OrderType::StopLoss));
}

const ID: &str = "67e55044-10b1-426f-9247-bb680e5fe0c8";

fn position_record() -> PositionRecord {
    PositionRecord {
        id: ID.to_string(),
        exchange: "paper".to_string(),
        symbol: "BTCUSDT".to_string(),
        side: "long".to_string(),
        quantity: "0.5".to_string(),
        entry_price: "50000".to_string(),
        current_price: "51000".to_string(),
        leverage: 3,
        margin: "100".to_string(),
        unrealized_pnl: "500".to_string(),
        unrealized_pnl_pct: "1".to_string(),
        realized_pnl: "0".to_string(),
        stop_loss_order_id: None,
        stop_loss_price: Some("49000".to_string()),
        take_profit_order_id: None,
        take_profit_price: None,
        entry_order_id: ID.to_uppercase(),
        status: "open".to_string(),
        liquidation_price: None,
        opened_at: "2024-01-01T00:00:00Z".to_string(),
        closed_at: None,
        updated_at: "2024-01-01T00:00:01Z".to_string(),
    }
}

#[test]
fn reads_a_stored_position() {
    let p = position_from_record(position_record()).unwrap();
    assert_eq!(p.id, ID);
    assert_eq!(p.entry_order_id, ID);
    assert_eq!(p.exchange, ExchangeId::Paper);
    assert_eq!(p.side, PositionSide::Long);
    assert!(p.quantity == Dec::new(5, 1));
    assert!(p.stop_loss_price.unwrap() == Dec::new(49000, 0));
    assert_eq!(p.opened_at, 1704067200000);
    assert_eq!(p.updated_at, 1704067201000);
    assert_eq!(p.status, PositionStatus::Open);
}

#[test]
fn a_stored_position_fails_at_its_first_bad_field() {
    let mut row = position_record();
    row.side = "flat".to_string();
    row.quantity = "lots".to_string();
    assert_eq!(position_from_record(row).err(), Some("Invalid position side: flat".to_string()));
    let mut row = position_record();
    row.quantity = "lots".to_string();
    assert!(position_from_record(row).err().unwrap().starts_with("Invalid quantity: "));
    let mut row = position_record();
    row.id = "nope".to_string();
    assert!(position_from_record(row).err().unwrap().starts_with("Invalid position id: "));
    let mut row = position_record();
    row.closed_at = Some("yesterday".to_string());
    assert!(position_from_record(row).err().unwrap().starts_with("Invalid closed_at: "));
}

fn order_record() -> OrderRecord {
    OrderRecord {
        id: ID.to_string(),
        client_order_id: "c1".to_string(),
        exchange_order_id: Some("e1".to_string()),
        exchange: "binance_futures".to_string(),
        symbol: "BTCUSDT".to_string(),
        side: "sell".to_string(),
        order_type: "take_profit_limit".to_string(),
        quantity: "1".to_string(),
        price: Some("60000".to_string()),
        stop_price: None,
        stop_loss: None,
        take_profit: None,
        time_in_force: "IOC".to_string(),
        status: "partiallyfilled".to_string(),
        filled_quantity: "0.25".to_string(),
        average_fill_price: None,
        source_type: "signal".to_string(),
        source_data: Some(format!("{}|momentum", ID)),
        error_message: None,
        created_at: "2024-01-01T00:00:00Z".to_string(),
        submitted_at: Some("2024-01-01T00:00:00.5Z".to_string()),
        filled_at: None,
        updated_at: "2024-01-01T00:00:02Z".to_string(),
    }
}

#[test]
fn reads_a_stored_order() {
    let o = order_from_record(order_record()).unwrap();
    assert_eq!(o.side, OrderSide::Sell);
    assert_eq!(o.order_type, OrderType::TakeProfitLimit);
    assert_eq!(o.time_in_force, TimeInForce::IOC);
    assert_eq!(o.status, OrderStatus::PartiallyFilled);
    assert_eq!(o.submitted_at, Some(1704067200500));
    match o.source {
        OrderSource::Signal { signal_id, strategy_id } => {
            assert_eq!(signal_id, ID);
            assert_eq!(strategy_id, "momentum");
        }
        other => panic!("unexpected {:?}", other),
    }
}

#[test]
fn order_sources() {
    assert!(matches!(parse_order_source("manual", Some("note")), Ok(OrderSource::Manual { nota: Some(_) })));
    assert_eq!(parse_order_source("signal", None).err(), Some("Signal source requires data".to_string()));
    assert_eq!(parse_order_source("signal", Some("a|b|c")).err(), Some("Invalid signal source data format".to_string()));
    assert_eq!(parse_order_source("signal", Some("ab")).err(), Some("Invalid signal source data format".to_string()));
    assert!(parse_order_source("signal", Some("x|y")).err().unwrap().starts_with("Invalid signal_id: "));
    assert_eq!(parse_order_source("stop_loss", None).err(), Some("StopLoss source requires position_id".to_string()));
    assert!(matches!(parse_order_source("take_profit", Some(ID)), Ok(OrderSource::TakeProfit { .. })));
    assert_eq!(parse_order_source("bot", None).err(), Some("Invalid source type: bot".to_string()));
    let mut row = order_record();
    row.source_type = "bot".to_string();
    row.created_at = "never".to_string();
    assert_eq!(order_from_record(row).err(), Some("Invalid source type: bot".to_string()));
}

#[test]
fn history_is_newest_day_first_and_skips_unreadable_items() {
    let item = |v: &str, t: &str| ApiDataItem {
        value: v.to_string(),
        value_classification: String::new(),
        timestamp: t.to_string(),
        time_until_update: None,
    };
    let items = vec![
        item("10", "1704067200"),
        item("bad", "1704153600"),
        item("30", "1704240000"),
        item("20", "1704153600"),
        item("11", "1704067300"),
    ];
    let history = robotrade::market_data::history_from_items(&items);
    let seen: Vec<(u8, i64)> = history.iter().map(|d| (d.value, d.day)).collect();
    assert_eq!(seen, vec![(30, 19725), (20, 19724), (10, 19723), (11, 19723)]);
}

#[test]
fn mock_exchange_answers_the_same() {
    let mock = MockExchangeClient::deterministic();
    assert!(mock.is_paper_trading());
    assert_eq!(mock.cancel_order("x").unwrap(), false);
    assert!(mock.get_open_orders(None).unwrap().is_empty());
    assert!(mock.get_positions().unwrap().is_empty());
    assert!(mock.get_position("BTCUSDT").unwrap().is_none());
    assert!(mock.get_balances().unwrap().is_empty());
    assert!(mock.set_leverage("BTCUSDT", 5).is_ok());
    assert!(mock.ping().is_ok());
    match mock.get_order_status("x") {
        Err(robotrade::entities::ExchangeError::InternalError { message }) => {
            assert_eq!(message, "Mock not fully implemented yet")
        }
        _ => panic!("expected an internal error"),
    }
}
