use base64::engine::general_purpose::STANDARD as BASE64;
use base64::Engine;
use robotrade::binance::{
    self, parse_decimal, AccountUpdateData, BalanceData, BinanceWsEvent, BinanceWsMessage,
    OrderUpdateData, PositionData,
};
use robotrade::decimal::Dec;
use robotrade::entities::{ExchangeError, ExchangeId, OrderStatus, OrderType, PositionSide};
use robotrade::kraken::{
    self, KrakenCandle, KrakenError, KrakenOrder, KrakenPosition, KrakenWsEvent, KrakenWsMessage,
    NewOrderRequest,
};

#[test]
fn test_client_creation() {
    assert_eq!(binance::exchange_id(true), ExchangeId::Paper);
    assert_eq!(binance::base_url(true), "https://testnet.binancefuture.com");
}

#[test]
fn test_mainnet_client() {
    assert_eq!(binance::exchange_id(false), ExchangeId::BinanceFutures);
    assert_eq!(binance::base_url(false), "https://fapi.binance.com");
}

#[test]
fn test_client_creation_demo() {
    assert_eq!(kraken::exchange_id(true), ExchangeId::Paper);
    assert_eq!(kraken::base_url(true), "https://demo-futures.kraken.com");
}

#[test]
fn test_client_creation_mainnet() {
    assert_eq!(kraken::exchange_id(false), ExchangeId::KrakenFutures);
    assert_eq!(kraken::base_url(false), "https://futures.kraken.com");
}

#[test]
fn test_endpoint_url() {
    let url = kraken::endpoint_url(&kraken::base_url(true), "/accounts");
    assert_eq!(url, "https://demo-futures.kraken.com/derivatives/api/v3/accounts");
    assert_eq!(kraken::endpoint_path("/sendorder"), "/derivatives/api/v3/sendorder");
}

#[test]
fn test_new_order_request_market() {
    let request = NewOrderRequest::market("PI_XBTUSD", "buy", Dec::new(1, 0));
    assert_eq!(request.order_type, "mkt");
    assert_eq!(request.symbol, "PI_XBTUSD");
    assert_eq!(request.side, "buy");
    assert!(request.limit_price.is_none());
}

#[test]
fn test_new_order_request_limit() {
    let request = NewOrderRequest::limit("PI_XBTUSD", "sell", Dec::new(1, 0), Dec::new(50000, 0));
    assert_eq!(request.order_type, "lmt");
    assert_eq!(request.limit_price, Some("50000".to_string()));
}

#[test]
fn test_sign_basic() {
    let secret = BASE64.encode("test_secret_key");
    let signature = kraken::sign(&secret, "symbol=PI_XBTUSD&side=buy&size=1", "1699999999999", "/derivatives/api/v3/sendorder");
    assert!(BASE64.decode(&signature).is_ok());
    assert!(!signature.is_empty());
}

#[test]
fn test_sign_empty_post_data() {
    let secret = BASE64.encode("test_secret");
    let signature = kraken::sign(&secret, "", "1699999999999", "/derivatives/api/v3/accounts");
    assert!(BASE64.decode(&signature).is_ok());
}

#[test]
fn test_sign_consistency() {
    let secret = BASE64.encode("consistent_secret");
    let sig1 = kraken::sign(&secret, "param=value", "1700000000000", "/test/endpoint");
    let sig2 = kraken::sign(&secret, "param=value", "1700000000000", "/test/endpoint");
    assert_eq!(sig1, sig2);
}

#[test]
fn kraken_signature_is_a_sha512_tag() {
    let secret = BASE64.encode("k");
    let signature = kraken::sign(&secret, "a=1", "2", "/p");
    assert_eq!(BASE64.decode(&signature).unwrap().len(), 64);
    assert_eq!(signature.len(), 88);
    let other = kraken::sign(&secret, "a=2", "2", "/p");
    assert_ne!(signature, other);
    assert!(kraken::try_sign("not base64!", "a=1", "2", "/p").is_none());
    assert_eq!(kraken::try_sign(&secret, "a=1", "2", "/p"), Some(signature));
}

#[test]
fn websocket_test_parse_decimal() {
    assert!(parse_decimal("100.5") == Dec::new(1005, 1));
    assert!(parse_decimal("invalid") == Dec::zero());
}

fn account_update_message() -> BinanceWsMessage {
    BinanceWsMessage {
        event_type: "ACCOUNT_UPDATE".to_string(),
        event_time: 1564745798939,
        transaction_time: Some(1564745798938),
        account_update: Some(AccountUpdateData {
            balances: vec![BalanceData {
                asset: "USDT".to_string(),
                wallet_balance: "100.0".to_string(),
                cross_wallet_balance: "100.0".to_string(),
                balance_change: "0".to_string(),
            }],
            positions: vec![PositionData {
                symbol: "BTCUSDT".to_string(),
                position_amount: "0.1".to_string(),
                entry_price: "50000".to_string(),
                unrealized_pnl: "100".to_string(),
                margin_type: "cross".to_string(),
                position_side: "LONG".to_string(),
            }],
        }),
        order_update: None,
    }
}

#[test]
fn test_parse_account_update() {
    let msg = account_update_message();
    assert_eq!(msg.event_type, "ACCOUNT_UPDATE");
    assert!(msg.account_update.is_some());
    match binance::parse_message(&msg) {
        BinanceWsEvent::AccountUpdate(data) => {
            assert_eq!(data.balances.len(), 1);
            assert_eq!(data.positions.len(), 1);
            assert!(data.positions[0].position_amount == Dec::new(1, 1));
        }
        other => panic!("unexpected {:?}", other),
    }
}

fn order_update_message() -> BinanceWsMessage {
    BinanceWsMessage {
        event_type: "ORDER_TRADE_UPDATE".to_string(),
        event_time: 1564745798939,
        transaction_time: Some(1564745798938),
        account_update: None,
        order_update: Some(OrderUpdateData {
            symbol: "BTCUSDT".to_string(),
            client_order_id: "abc123".to_string(),
            side: "BUY".to_string(),
            order_type: "LIMIT".to_string(),
            time_in_force: "GTC".to_string(),
            original_quantity: "0.1".to_string(),
            original_price: "50000".to_string(),
            average_price: "50000".to_string(),
            stop_price: "0".to_string(),
            execution_type: "TRADE".to_string(),
            order_status: "FILLED".to_string(),
            order_id: 12345,
            last_filled_quantity: "0.1".to_string(),
            cumulative_filled_quantity: "0.1".to_string(),
            last_filled_price: "50000".to_string(),
            commission_asset: Some("USDT".to_string()),
            commission: "0.5".to_string(),
            order_trade_time: 1564745798938,
            trade_id: 67890,
            realized_profit: "0".to_string(),
        }),
    }
}

#[test]
fn test_parse_order_update() {
    let msg = order_update_message();
    assert_eq!(msg.event_type, "ORDER_TRADE_UPDATE");
    assert!(msg.order_update.is_some());
    match binance::parse_message(&msg) {
        BinanceWsEvent::OrderUpdate(data) => {
            assert_eq!(data.symbol, "BTCUSDT");
            assert_eq!(data.order_status, "FILLED");
            assert!(data.commission == Dec::new(5, 1));
        }
        other => panic!("unexpected {:?}", other),
    }
}

#[test]
fn kraken_parses_fills_and_events() {
    let text = r#"{"feed":"fills","fills":[{"fill_id":"f1","instrument":"PI_XBTUSD","side":"buy","price":"50000.5","size":"2","order_id":"o1","fillType":"maker","time":1700000000000},{"fill_id":"f2"}]}"#;
    match kraken::parse_message(text) {
        KrakenWsMessage::Event(KrakenWsEvent::Fills(fills)) => {
            assert_eq!(fills.len(), 1);
            assert_eq!(fills[0].fill_id, "f1");
            assert!(fills[0].price == Dec::new(500005, 1));
            assert_eq!(fills[0].fill_time, 1700000000000);
        }
        other => panic!("unexpected {:?}", other),
    }
    match kraken::parse_message(r#"{"event":"challenge","message":"abc"}"#) {
        KrakenWsMessage::Challenge(c) => assert_eq!(c, "abc"),
        other => panic!("unexpected {:?}", other),
    }
    match kraken::parse_message(r#"{"event":"subscribed"}"#) {
        KrakenWsMessage::Event(KrakenWsEvent::Subscribed { feed }) => assert_eq!(feed, "unknown"),
        other => panic!("unexpected {:?}", other),
    }
    assert!(matches!(kraken::parse_message(r#"{"event":"pong"}"#), KrakenWsMessage::Nothing));
    assert!(matches!(kraken::parse_message("not json"), KrakenWsMessage::Nothing));
    match kraken::parse_message(r#"{"feed":"balances","flex_futures":{"currencies":{"usd":{"quantity":"10","available":"4"},"xbt":7}}}"#) {
        KrakenWsMessage::Event(KrakenWsEvent::Balances(bs)) => {
            assert_eq!(bs.len(), 1);
            assert_eq!(bs[0].currency, "usd");
            assert!(bs[0].available == Dec::new(4, 0));
        }
        other => panic!("unexpected {:?}", other),
    }
}

#[test]
fn kraken_maps_errors() {
    let e = |m: &str| KrakenError { result: "error".to_string(), error: Some(m.to_string()), server_time: None };
    assert!(matches!(kraken::map_kraken_error(&e("Insufficient funds")), ExchangeError::InsufficientBalance { .. }));
    match kraken::map_kraken_error(&e("Invalid order quantity")) {
        ExchangeError::InvalidQuantity { reason, .. } => assert_eq!(reason, "Invalid order quantity"),
        other => panic!("unexpected {:?}", other),
    }
    match kraken::map_kraken_error(&e("nonceBelowThreshold")) {
        ExchangeError::ApiError { code, .. } => assert_eq!(code, -1),
        other => panic!("unexpected {:?}", other),
    }
    let none = KrakenError { result: "error".to_string(), error: None, server_time: None };
    match kraken::map_kraken_error(&none) {
        ExchangeError::ApiError { code, message, .. } => {
            assert_eq!(code, 0);
            assert_eq!(message, "Unknown error");
        }
        other => panic!("unexpected {:?}", other),
    }
    assert_eq!(none.to_text(), "Kraken error: Unknown error");
}

#[test]
fn kraken_converts_orders_positions_candles() {
    let ko = KrakenOrder {
        order_id: "o1".to_string(),
        cli_ord_id: None,
        order_type: "lmt".to_string(),
        symbol: "PI_XBTUSD".to_string(),
        side: "buy".to_string(),
        quantity: "3".to_string(),
        filled: "1".to_string(),
        limit_price: Some("100.5".to_string()),
        stop_price: Some("bad".to_string()),
        reduce_only: false,
        last_update_time: None,
        status: "partiallyFilled".to_string(),
    };
    let order = kraken::convert_kraken_order(&ko, ExchangeId::KrakenFutures);
    assert_eq!(order.status, OrderStatus::PartiallyFilled);
    assert_eq!(order.order_type, OrderType::Limit);
    assert_eq!(order.client_order_id, "");
    assert!(order.price.unwrap() == Dec::new(1005, 1));
    assert!(order.stop_price.is_none());
    let kp = KrakenPosition {
        side: "short".to_string(),
        symbol: "PI_ETHUSD".to_string(),
        price: "2000".to_string(),
        fill_time: "t".to_string(),
        size: "-5".to_string(),
        unrealized_funding: None,
        pnl: Some("12.5".to_string()),
    };
    let position = kraken::convert_kraken_position(&kp, ExchangeId::KrakenFutures);
    assert_eq!(position.side, PositionSide::Short);
    assert!(position.quantity == Dec::new(5, 0));
    assert!(position.unrealized_pnl == Dec::new(125, 1));
    let kc = KrakenCandle {
        time: 1700000000000,
        open: "1".to_string(),
        high: "2".to_string(),
        low: "x".to_string(),
        close: "1.5".to_string(),
        volume: "10".to_string(),
    };
    let candle = kraken::convert_candle(&kc);
    assert!(candle.low == Dec::zero());
    assert_eq!(candle.open_time, 1700000000000);
}

#[test]
fn hex_is_lower_case_two_digits_per_byte() {
    assert_eq!(robotrade::binance::hex_lower(&vec![0x00, 0x0f, 0xab, 0xff]), "000fabff");
    assert_eq!(robotrade::binance::hex_lower(&Vec::new()), "");
}

#[test]
fn query_joins_pairs_without_encoding() {
    let params = vec![
        ("symbol".to_string(), "BTCUSDT".to_string()),
        ("price".to_string(), "1.5 x".to_string()),
    ];
    assert_eq!(robotrade::binance::query_string(&params), "symbol=BTCUSDT&price=1.5 x");
    assert_eq!(robotrade::binance::query_string(&Vec::new()), "");
}

#[test]
fn binance_signature_matches_documented_example() {
    let secret = "NhqPtmdSJYdKjVHjA7PZj4Mge3R5YNiP1e3UZjInClVN65XAbvqqM6A7H5fATj0j";
    let query = "symbol=LTCBTC&side=BUY&type=LIMIT&timeInForce=GTC&quantity=1&price=0.1&recvWindow=5000&timestamp=1499827319559";
    assert_eq!(
        robotrade::binance::sign_query(secret, query),
        "c8db56825ae71d6d79447849e617115f4a920fa2acdcab2b053c4b2838bd6b71"
    );
}

#[test]
fn signed_query_stamps_then_signs() {
    let params = vec![("symbol".to_string(), "BTCUSDT".to_string())];
    let signed = robotrade::binance::signed_query(&params, "secret", 1_700_000_000_000, 5000);
    let query = "symbol=BTCUSDT&timestamp=1700000000000&recvWindow=5000";
    let expected = format!(
        "{}&signature={}",
        query,
        robotrade::binance::sign_query("secret", query)
    );
    assert_eq!(signed, expected);
}

#[test]
fn finds_the_first_ticker_of_a_symbol() {
    let ticker = |s: &str, last: &str| kraken::Ticker {
        symbol: s.to_string(),
        tag: None,
        pair: None,
        mark_price: None,
        bid: None,
        bid_size: None,
        ask: None,
        ask_size: None,
        vol24h: None,
        open_interest: None,
        last: Some(last.to_string()),
        last_time: None,
        last_size: None,
        suspended: None,
        funding_rate: None,
        funding_rate_prediction: None,
    };
    let tickers = vec![ticker("PI_ETHUSD", "1"), ticker("PI_XBTUSD", "2"), ticker("PI_XBTUSD", "3")];
    assert_eq!(kraken::find_ticker(&tickers, "PI_XBTUSD"), Some(1));
    assert_eq!(kraken::find_ticker(&tickers, "PF_SOLUSD"), None);
}

#[test]
fn klines_body_skips_short_rows() {
    let body = r#"[[1700000000000,"100.5","110","95","105","1000",1700000059999,"105000",42,"1","1","0"],[1,2],[1700000060000,"105","106","104","105.5","10",1700000119999,"1000",7,"1","1","0"]]"#;
    let candles = binance::klines_from_body(body).unwrap();
    assert_eq!(candles.len(), 2);
    assert!(candles[0].open == Dec::new(1005, 1));
    assert_eq!(candles[0].open_time, 1700000000000);
    assert_eq!(candles[0].trade_count, Some(42));
    assert_eq!(candles[1].close_time, 1700000119999);
    assert!(binance::klines_from_body(r#"[[1,2],{"a":1}]"#).is_none());
    assert!(binance::klines_from_body("not json").is_none());
}
