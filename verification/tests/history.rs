use robotrade::entities::{SignalStatus, SignalStrength, SignalType, TradeCloseReason, TradeDirection};
use robotrade::history_records::{
    direction_to_string, parse_close_reason, parse_direction, parse_signal_type, parse_status,
    parse_strength, signal_from_record, status_to_string, strength_to_string, trade_from_record,
    SignalRecord, TradeRecord,
};
use robotrade::kraken::{form_body, needs_heartbeat};
use robotrade::ws_manager::timestamp_to_datetime;
use robotrade::market_data::{fear_greed_from_record, FearGreedRecord};

const ID: &str = "550e8400-e29b-41d4-a716-446655440000";
const T0: &str = "2024-01-01T00:00:00Z";
const T0_MS: i64 = 1_704_067_200_000;

fn signal_record() -> SignalRecord {
    SignalRecord {
        id: ID.to_string(),
        strategy_id: "s1".to_string(),
        strategy_name: "Breakout".to_string(),
        symbol: "BTCUSDT".to_string(),
        signal_type: r#"{"Custom":{"name":"breakout","description":"range break"}}"#.to_string(),
        direction: "long".to_string(),
        strength: "strong".to_string(),
        trigger_price: "100.5".to_string(),
        suggested_entry: Some("100".to_string()),
        suggested_stop_loss: None,
        suggested_take_profit: Some("110".to_string()),
        risk_reward_ratio: None,
        reason: "test".to_string(),
        confidence: 80,
        status: "awaiting_confirmation".to_string(),
        requires_confirmation: 1,
        metadata: Some(r#"{"k":1}"#.to_string()),
        generated_at: T0.to_string(),
        expires_at: T0.to_string(),
        confirmed_at: None,
        executed_at: Some(T0.to_string()),
    }
}

fn trade_record() -> TradeRecord {
    TradeRecord {
        id: ID.to_string(),
        exchange: "binance_futures".to_string(),
        symbol: "BTCUSDT".to_string(),
        side: "short".to_string(),
        position_id: ID.to_string(),
        signal_id: None,
        entry_order_id: ID.to_string(),
        exit_order_id: ID.to_string(),
        quantity: "0.1".to_string(),
        entry_price: "50000".to_string(),
        exit_price: "49000".to_string(),
        gross_pnl: "100".to_string(),
        total_fees: "5".to_string(),
        net_pnl: "95".to_string(),
        pnl_pct: "2".to_string(),
        roi_pct: "20".to_string(),
        leverage: 10,
        close_reason: r#""TakeProfit""#.to_string(),
        duration_seconds: 60,
        entered_at: T0.to_string(),
        exited_at: T0.to_string(),
        metadata: None,
    }
}

#[test]
fn test_signal_record_reads_back() {
    let s = signal_from_record(signal_record()).unwrap();
    assert_eq!(s.id, ID);
    assert_eq!(s.direction, TradeDirection::Long);
    assert_eq!(s.strength, SignalStrength::Strong);
    assert_eq!(s.status, SignalStatus::AwaitingConfirmation);
    assert_eq!(s.trigger_price.to_text(), "100.5");
    assert!(s.suggested_stop_loss.is_none());
    assert_eq!(s.confidence, 80);
    assert!(s.requires_confirmation);
    assert_eq!(s.generated_at, T0_MS);
    assert_eq!(s.executed_at, Some(T0_MS));
    match s.signal_type {
        SignalType::Custom { name, description } => {
            assert_eq!(name, "breakout");
            assert_eq!(description, "range break");
        }
    }
}

#[test]
fn test_signal_record_first_bad_field() {
    let mut row = signal_record();
    row.direction = "up".to_string();
    row.status = "bogus".to_string();
    assert_eq!(signal_from_record(row).unwrap_err(), "Invalid direction: up");
    let mut row = signal_record();
    row.signal_type = r#"{"Other":{}}"#.to_string();
    assert_eq!(signal_from_record(row).unwrap_err(), "Invalid signal type: unknown signal type");
    let mut row = signal_record();
    row.trigger_price = "abc".to_string();
    assert!(signal_from_record(row).unwrap_err().starts_with("Invalid trigger price: "));
    let mut row = signal_record();
    row.metadata = Some("{".to_string());
    assert!(signal_from_record(row).unwrap_err().starts_with("Invalid metadata: "));
}

#[test]
fn test_signal_text_parsers() {
    assert_eq!(parse_direction("short"), Ok(TradeDirection::Short));
    assert_eq!(parse_strength("moderate"), Ok(SignalStrength::Moderate));
    assert_eq!(parse_strength("huge").unwrap_err(), "Invalid strength: huge");
    assert_eq!(parse_status("cancelled"), Ok(SignalStatus::Cancelled));
    assert_eq!(parse_status("done").unwrap_err(), "Invalid status: done");
    assert!(parse_signal_type("not json").unwrap_err().starts_with("Invalid signal type: "));
}

#[test]
fn test_trade_record_reads_back() {
    let t = trade_from_record(trade_record()).unwrap();
    assert_eq!(t.leverage, 10);
    assert_eq!(t.fees.to_text(), "5");
    assert_eq!(t.roi_pct.to_text(), "20");
    assert_eq!(t.duration_seconds, 60);
    assert_eq!(t.exited_at, T0_MS);
    assert!(matches!(t.close_reason, TradeCloseReason::TakeProfit));
}

#[test]
fn test_trade_record_first_bad_field() {
    let mut row = trade_record();
    row.exchange = "ftx".to_string();
    assert_eq!(trade_from_record(row).unwrap_err(), "Unknown exchange: ftx");
    let mut row = trade_record();
    row.close_reason = r#""Boredom""#.to_string();
    assert_eq!(
        trade_from_record(row).unwrap_err(),
        "Invalid close reason: unknown close reason"
    );
}

#[test]
fn test_close_reason_texts() {
    match parse_close_reason(r#"{"Manual":{"nota":"by hand"}}"#).unwrap() {
        TradeCloseReason::Manual { nota } => assert_eq!(nota, Some("by hand".to_string())),
        _ => panic!("expected a manual close"),
    }
    assert!(matches!(parse_close_reason(r#""Liquidation""#).unwrap(), TradeCloseReason::Liquidation));
}

#[test]
fn test_needs_heartbeat_at_interval() {
    assert!(!needs_heartbeat(29_999, 30_000));
    assert!(needs_heartbeat(30_000, 30_000));
}

#[test]
fn test_fear_greed_record_reads_back() {
    let row = FearGreedRecord {
        value: 72,
        classification: "greed".to_string(),
        date: "2024-01-02".to_string(),
        collected_at: T0.to_string(),
    };
    let d = fear_greed_from_record(row.clone()).unwrap();
    assert_eq!(d.value, 72);
    assert_eq!(d.day, 19_724);
    assert_eq!(d.collected_at, T0_MS);
    let mut bad = row;
    bad.date = "2024/01/02".to_string();
    assert!(fear_greed_from_record(bad).unwrap_err().starts_with("Data inválida: "));
}

#[test]
fn test_timestamp_kept_up_to_chrono_limit() {
    assert_eq!(timestamp_to_datetime(8_210_266_876_799_999), 8_210_266_876_799_999);
    assert_eq!(timestamp_to_datetime(-8_334_601_228_800_000), -8_334_601_228_800_000);
    assert_ne!(timestamp_to_datetime(8_210_266_876_800_000), 8_210_266_876_800_000);
    assert_ne!(timestamp_to_datetime(-8_334_601_228_800_001), -8_334_601_228_800_001);
}

#[test]
fn test_form_body_percent_encodes_values() {
    let params = vec![
        ("a".to_string(), "x y".to_string()),
        ("b".to_string(), "\u{e9}-._~/".to_string()),
    ];
    assert_eq!(form_body(&params), "a=x%20y&b=%C3%A9-._~%2F");
}

#[test]
fn test_signal_texts_read_back() {
    for d in [TradeDirection::Long, TradeDirection::Short] {
        assert_eq!(parse_direction(&direction_to_string(d)), Ok(d));
    }
    for g in [SignalStrength::Weak, SignalStrength::Moderate, SignalStrength::Strong] {
        assert_eq!(parse_strength(&strength_to_string(g)), Ok(g));
    }
    assert_eq!(status_to_string(SignalStatus::AwaitingConfirmation), "awaiting_confirmation");
    assert_eq!(parse_status(&status_to_string(SignalStatus::Expired)), Ok(SignalStatus::Expired));
}
