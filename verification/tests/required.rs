use robotrade::binance::ConnectionState as BinanceConnectionState;
use robotrade::config::{parse_level, Level};
use robotrade::kraken::ConnectionState as KrakenConnectionState;
use robotrade::ledger_service::LedgerEntryType;
use robotrade::pnl_calculator::CostBasisMethod;
use robotrade::reconciliation_service::DiscrepancyType;
use robotrade::sync_engine::SyncDataType;
use robotrade::ws_manager::{Exchange, WsManagerConfig};

#[test]
fn test_connection_state() {
    assert_eq!(BinanceConnectionState::Disconnected, BinanceConnectionState::Disconnected);
    assert_ne!(BinanceConnectionState::Connected, BinanceConnectionState::Disconnected);
}

#[test]
fn websocket_test_connection_state() {
    assert_eq!(KrakenConnectionState::Disconnected, KrakenConnectionState::Disconnected);
    assert_ne!(KrakenConnectionState::Connected, KrakenConnectionState::Authenticated);
}

#[test]
fn test_parse_level() {
    assert_eq!(parse_level("debug"), Level::Debug);
    assert_eq!(parse_level("INFO"), Level::Info);
    assert_eq!(parse_level("Warning"), Level::Warn);
    assert_eq!(parse_level("invalid"), Level::Info);
}

#[test]
fn test_ledger_entry_type_display() {
    assert_eq!(LedgerEntryType::Deposit.to_text(), "DEPOSIT");
    assert_eq!(LedgerEntryType::TradePnL.to_text(), "TRADE_PNL");
}

#[test]
fn test_cost_basis_method_default() {
    let method = CostBasisMethod::default();
    assert_eq!(method, CostBasisMethod::FIFO);
}

#[test]
fn test_discrepancy_type() {
    assert_eq!(DiscrepancyType::LedgerHigher, DiscrepancyType::LedgerHigher);
    assert_ne!(DiscrepancyType::LedgerHigher, DiscrepancyType::ExchangeHigher);
}

#[test]
fn test_sync_data_type_display() {
    assert_eq!(SyncDataType::Trades.to_text(), "trades");
    assert_eq!(SyncDataType::Funding.to_text(), "funding");
}

#[test]
fn test_exchange_display() {
    assert_eq!(Exchange::Binance.to_text(), "Binance");
    assert_eq!(Exchange::Kraken.to_text(), "Kraken");
}

#[test]
fn test_config_default() {
    let config = WsManagerConfig::default();
    assert!(config.enable_binance);
    assert!(config.enable_kraken);
    assert_eq!(config.channel_buffer_size, 1000);
}
