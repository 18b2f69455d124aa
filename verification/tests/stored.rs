use robotrade::decimal::Dec;
use robotrade::entities::ExchangeId;
use robotrade::ledger_service::LedgerEntryType;
use robotrade::pnl_calculator::{AcquisitionType, PositionSide};
use robotrade::rows::{ExchangeRow, SymbolRow};
use robotrade::store_records::{
    candle_from_record, exchange_from_record, instant_of_secs, ledger_entry_from_record, symbol_from_record,
    sync_state_from_record, tax_lot_from_record, CandleRecord, LedgerEntryRecord,
    SyncStateRecord, TaxLotRecord,
};
use robotrade::sync_engine::{SyncDataType, SyncStatus};
use robotrade::ws_manager::Exchange;

const T0_SECS: i64 = 1_704_067_200;
const T0_MS: i64 = 1_704_067_200_000;

fn ledger_row() -> LedgerEntryRecord {
    LedgerEntryRecord {
        id: "e1".to_string(),
        exchange_id: "Binance".to_string(),
        account_id: None,
        entry_type: "TRADE_PNL".to_string(),
        asset: "USDT".to_string(),
        amount: "-12.5".to_string(),
        balance_after: "987.5".to_string(),
        reference_type: Some("trade".to_string()),
        reference_id: Some("t1".to_string()),
        external_id: None,
        description: None,
        metadata: None,
        timestamp: T0_SECS,
        created_at: T0_SECS,
    }
}

#[test]
fn test_ledger_entry_record_reads_back() {
    let e = ledger_entry_from_record(ledger_row()).unwrap();
    assert_eq!(e.exchange, Exchange::Binance);
    assert_eq!(e.entry_type, LedgerEntryType::TradePnL);
    assert!(e.amount == Dec::new(-125, 1));
    assert_eq!(e.timestamp, T0_MS);
    assert_eq!(e.reference_id, Some("t1".to_string()));
}

#[test]
fn test_ledger_entry_record_first_bad_field() {
    let mut row = ledger_row();
    row.entry_type = "BONUS".to_string();
    row.amount = "x".to_string();
    assert_eq!(ledger_entry_from_record(row).unwrap_err(), "entry_type inválido: BONUS");
    let mut row = ledger_row();
    row.timestamp = i64::MAX;
    assert_eq!(ledger_entry_from_record(row).unwrap_err(), "timestamp inválido");
    let mut row = ledger_row();
    row.balance_after = "abc".to_string();
    assert!(ledger_entry_from_record(row).unwrap_err().starts_with("balance_after inválido: "));
}

fn lot_row() -> TaxLotRecord {
    TaxLotRecord {
        id: "l1".to_string(),
        exchange_id: "Kraken".to_string(),
        symbol: "PI_XBTUSD".to_string(),
        side: "short".to_string(),
        quantity: "2".to_string(),
        remaining_quantity: "0.5".to_string(),
        cost_per_unit: "40000".to_string(),
        total_cost: "80000".to_string(),
        acquisition_type: "airdrop".to_string(),
        acquisition_date: T0_SECS,
        reference_id: "t9".to_string(),
        is_closed: 0,
    }
}

#[test]
fn test_tax_lot_record_reads_back() {
    let l = tax_lot_from_record(lot_row()).unwrap();
    assert_eq!(l.exchange, Exchange::Kraken);
    assert_eq!(l.side, PositionSide::Short);
    assert_eq!(l.acquisition_type, AcquisitionType::Airdrop);
    assert_eq!(l.remaining_quantity.to_text(), "0.5");
    assert_eq!(l.acquired_at, T0_MS);
    assert!(!l.is_closed);
    let mut row = lot_row();
    row.side = "flat".to_string();
    assert_eq!(tax_lot_from_record(row).unwrap_err(), "side inválido: flat");
}

#[test]
fn test_candle_record_reads_back() {
    let row = CandleRecord {
        open_time: "2024-01-01T00:00:00Z".to_string(),
        close_time: "2024-01-01T00:00:59Z".to_string(),
        open: "100.5".to_string(),
        high: "101".to_string(),
        low: "99".to_string(),
        close: "NaN".to_string(),
        volume: "12".to_string(),
        quote_volume: None,
        trade_count: Some(7),
    };
    let c = candle_from_record(row.clone()).unwrap();
    assert_eq!(c.open_time, T0_MS);
    assert_eq!(c.close_time, T0_MS + 59_000);
    assert_eq!(c.open.to_text(), "100.5");
    assert!(c.close == Dec::zero());
    assert_eq!(c.trade_count, Some(7));
    let mut bad = row;
    bad.close_time = "yesterday".to_string();
    assert!(candle_from_record(bad).unwrap_err().starts_with("close_time inválido: "));
}

#[test]
fn test_sync_state_record_reads_back() {
    let row = SyncStateRecord {
        id: "s1".to_string(),
        exchange_id: "Binance".to_string(),
        data_type: "deposits".to_string(),
        last_sync_id: Some("d7".to_string()),
        last_sync_timestamp: Some(T0_SECS),
        cursor: None,
        sync_start_time: None,
        sync_end_time: None,
        status: "in_progress".to_string(),
        error_message: None,
        retry_count: 0,
        total_records: None,
        processed_records: Some(42),
        last_success_at: None,
        updated_at: T0_SECS + 10,
    };
    let st = sync_state_from_record(row.clone()).unwrap();
    assert_eq!(st.data_type, SyncDataType::Deposits);
    assert_eq!(st.status, SyncStatus::InProgress);
    assert_eq!(st.last_timestamp, Some(T0_MS));
    assert_eq!(st.items_synced, 42);
    assert_eq!(st.started_at, T0_MS + 10_000);
    let mut bad = row;
    bad.status = "done".to_string();
    assert_eq!(sync_state_from_record(bad).unwrap_err(), "status inválido: done");
}

fn symbol_row() -> SymbolRow {
    SymbolRow {
        id: 3,
        exchange_id: "binance_futures".to_string(),
        symbol: "BTCUSDT".to_string(),
        base_asset: "BTC".to_string(),
        quote_asset: "USDT".to_string(),
        symbol_type: "perpetual".to_string(),
        status: "trading".to_string(),
        price_precision: 2,
        quantity_precision: 3,
        quote_precision: 8,
        min_quantity: "0.001".to_string(),
        max_quantity: None,
        min_notional: "5".to_string(),
        max_notional: None,
        tick_size: "0.1".to_string(),
        step_size: "0.001".to_string(),
        contract_type: Some("PERPETUAL".to_string()),
        contract_size: None,
        margin_asset: Some("USDT".to_string()),
        maintenance_margin_rate: Some("0.004".to_string()),
        max_leverage: Some(125),
        maker_fee: "0.0002".to_string(),
        taker_fee: "0.0004".to_string(),
        metadata: Some("not json".to_string()),
        created_at: "2024-01-01T00:00:00Z".to_string(),
        updated_at: "2024-01-01 00:00:10".to_string(),
    }
}

#[test]
fn test_symbol_record_reads_back() {
    let s = symbol_from_record(symbol_row()).unwrap();
    assert_eq!(s.exchange_id, ExchangeId::BinanceFutures);
    assert_eq!(s.tick_size.to_text(), "0.1");
    assert_eq!(s.max_leverage, Some(125));
    assert_eq!(s.metadata, None);
    assert_eq!(s.created_at, T0_MS);
    assert_eq!(s.updated_at, T0_MS + 10_000);
    let mut bad = symbol_row();
    bad.exchange_id = "kraken_futures".to_string();
    assert_eq!(symbol_from_record(bad).unwrap_err(), "Exchange ID inválido: kraken_futures");
    let mut bad = symbol_row();
    bad.updated_at = "01/01/2024".to_string();
    assert!(symbol_from_record(bad).unwrap_err().starts_with("Data inválida: "));
}

#[test]
fn test_stored_seconds_within_chrono_range() {
    assert_eq!(instant_of_secs(T0_SECS), Some(T0_MS));
    assert_eq!(instant_of_secs(8_210_266_876_799), Some(8_210_266_876_799_000));
    assert_eq!(instant_of_secs(8_210_266_876_800), None);
}

#[test]
fn test_exchange_record_reads_back() {
    let row = ExchangeRow {
        id: "paper".to_string(),
        name: "Paper".to_string(),
        exchange_type: "simulated".to_string(),
        api_base_url: None,
        ws_base_url: None,
        status: "active".to_string(),
        rate_limit_requests: 1200,
        rate_limit_orders: 50,
        supported_features: Some(r#"["futures","margin"]"#.to_string()),
        metadata: Some(r#"{"a":1}"#.to_string()),
        created_at: "2024-01-01T00:00:00Z".to_string(),
        updated_at: "2024-01-01T00:00:00Z".to_string(),
    };
    let x = exchange_from_record(row.clone()).unwrap();
    assert_eq!(x.id, ExchangeId::Paper);
    assert_eq!(x.supported_features, vec!["futures".to_string(), "margin".to_string()]);
    assert_eq!(x.metadata, Some(r#"{"a":1}"#.to_string()));
    assert_eq!(x.rate_limit_requests, 1200);
    let mut mixed = row.clone();
    mixed.supported_features = Some(r#"["futures",3]"#.to_string());
    assert!(exchange_from_record(mixed).unwrap().supported_features.is_empty());
    let mut bad = row;
    bad.id = "kraken_futures".to_string();
    assert_eq!(exchange_from_record(bad).unwrap_err(), "Exchange ID inválido: kraken_futures");
}
