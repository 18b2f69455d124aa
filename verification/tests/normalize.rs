use robotrade::binance::{AccountUpdateEvent, BalanceUpdate, BinanceWsEvent, PositionUpdate};
use robotrade::decimal::Dec;
use robotrade::kraken::{KrakenAccountLogEntry, KrakenFillEvent, KrakenWsEvent};
use robotrade::normalize::{normalize_binance_event, normalize_kraken_event};
use robotrade::ws_manager::{
    timestamp_to_datetime, AccountLogType, Exchange, NormalizedEvent, OrderSide, PositionSide,
    WsConnectionState,
};

#[test]
fn test_timestamp_conversion() {
    let ts = 1700000000000i64;
    assert_eq!(timestamp_to_datetime(ts), ts);
}

#[test]
fn binance_account_update_gives_balances_then_positions() {
    let event = BinanceWsEvent::AccountUpdate(AccountUpdateEvent {
        event_time: 1700000000000,
        transaction_time: 1700000000000,
        balances: vec![BalanceUpdate {
            asset: "USDT".to_string(),
            wallet_balance: Dec::new(100, 0),
            cross_wallet_balance: Dec::new(90, 0),
            balance_change: Dec::new(-5, 0),
        }],
        positions: vec![PositionUpdate {
            symbol: "BTCUSDT".to_string(),
            position_amount: Dec::new(-2, 1),
            entry_price: Dec::new(50000, 0),
            unrealized_pnl: Dec::new(10, 0),
            margin_type: "cross".to_string(),
            position_side: "BOTH".to_string(),
        }],
    });
    let (events, state) = normalize_binance_event(event, WsConnectionState::Connected);
    assert_eq!(state, WsConnectionState::Connected);
    assert_eq!(events.len(), 2);
    match &events[0] {
        NormalizedEvent::BalanceUpdate(b) => {
            assert_eq!(b.exchange, Exchange::Binance);
            assert!(b.available == Dec::new(90, 0));
            assert_eq!(b.timestamp, 1700000000000);
        }
        other => panic!("unexpected {:?}", other),
    }
    match &events[1] {
        NormalizedEvent::PositionUpdate(p) => {
            assert_eq!(p.side, PositionSide::Both);
            assert!(p.size == Dec::new(2, 1));
        }
        other => panic!("unexpected {:?}", other),
    }
}

#[test]
fn binance_disconnection_and_expiry() {
    let (events, state) = normalize_binance_event(BinanceWsEvent::ListenKeyExpired, WsConnectionState::Connected);
    assert_eq!(state, WsConnectionState::Disconnected);
    match &events[0] {
        NormalizedEvent::ConnectionStateChanged(c) => assert_eq!(c.reason, Some("Listen key expired".to_string())),
        other => panic!("unexpected {:?}", other),
    }
    let (events, state) = normalize_binance_event(BinanceWsEvent::Error { message: "boom".to_string() }, WsConnectionState::Connected);
    assert_eq!(state, WsConnectionState::Connected);
    assert!(matches!(&events[0], NormalizedEvent::Error(e) if e.recoverable && e.message == "boom"));
    let (events, _) = normalize_binance_event(BinanceWsEvent::MarginCall { event_time: 1 }, WsConnectionState::Connected);
    assert!(events.is_empty());
}

#[test]
fn kraken_subscription_fills_and_log() {
    let (events, state) = normalize_kraken_event(KrakenWsEvent::Subscribed { feed: "fills".to_string() }, WsConnectionState::Connected);
    assert_eq!(state, WsConnectionState::Authenticated);
    assert_eq!(events.len(), 1);
    let (events, state) = normalize_kraken_event(KrakenWsEvent::Subscribed { feed: "balances".to_string() }, WsConnectionState::Connected);
    assert_eq!(state, WsConnectionState::Connected);
    assert!(events.is_empty());
    let fill = KrakenFillEvent {
        fill_id: "f1".to_string(),
        symbol: "PI_XBTUSD".to_string(),
        side: "Buy".to_string(),
        price: Dec::new(50000, 0),
        size: Dec::new(1, 0),
        order_id: "o1".to_string(),
        fill_type: "maker".to_string(),
        fill_time: 1700000000000,
    };
    let (events, _) = normalize_kraken_event(KrakenWsEvent::Fills(vec![fill]), WsConnectionState::Authenticated);
    match &events[0] {
        NormalizedEvent::TradeExecuted(t) => {
            assert_eq!(t.side, OrderSide::Buy);
            assert_eq!(t.commission_asset, "USD");
            assert!(t.commission == Dec::zero());
        }
        other => panic!("unexpected {:?}", other),
    }
    let entry = KrakenAccountLogEntry {
        id: "1".to_string(),
        log_type: "Funding Fee".to_string(),
        asset: "usd".to_string(),
        amount: Dec::new(-3, 0),
        balance: Dec::new(97, 0),
        timestamp: 0,
    };
    let other = KrakenAccountLogEntry { log_type: "Rebate".to_string(), ..entry.clone() };
    let (events, _) = normalize_kraken_event(KrakenWsEvent::AccountLog(vec![entry, other]), WsConnectionState::Authenticated);
    match (&events[0], &events[1]) {
        (NormalizedEvent::AccountLogEntry(a), NormalizedEvent::AccountLogEntry(b)) => {
            assert_eq!(a.log_type, AccountLogType::FundingFee);
            assert_eq!(a.description, Some("Funding Fee".to_string()));
            assert_eq!(b.log_type, AccountLogType::Other("rebate".to_string()));
        }
        other => panic!("unexpected {:?}", other),
    }
}


#[test]
fn reconnects_until_attempts_are_used_up() {
    assert_eq!(robotrade::ws_manager::reconnect_attempt(0, 10), Ok(1));
    assert_eq!(robotrade::ws_manager::reconnect_attempt(9, 10), Ok(10));
    assert_eq!(
        robotrade::ws_manager::reconnect_attempt(10, 10),
        Err("Máximo de tentativas de reconexão atingido".to_string())
    );
}
