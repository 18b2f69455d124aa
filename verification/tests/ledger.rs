use robotrade::decimal::Dec;
use robotrade::ledger_service::{LedgerEntryType, LedgerFilters, LedgerService, LedgerStore};
use robotrade::memory_ledger::MemoryLedgerStore;
use robotrade::reconciliation_service::{
    BalanceSnapshot, ReconciliationConfig, ReconciliationService, ReconciliationStatus,
};
use robotrade::sync_engine::{SyncedDeposit, SyncedFunding, SyncedTrade, SyncedWithdrawal};
use robotrade::ws_manager::{Exchange, OrderSide, TradeEvent};

fn deposit(id: &str, amount: i64) -> SyncedDeposit {
    SyncedDeposit {
        exchange: Exchange::Binance,
        deposit_id: id.to_string(),
        asset: "USDT".to_string(),
        amount: Dec::new(amount, 0),
        status: "completed".to_string(),
        tx_id: Some("tx9".to_string()),
        timestamp: 1_000,
    }
}

fn trade(id: &str) -> SyncedTrade {
    SyncedTrade {
        exchange: Exchange::Binance,
        trade_id: id.to_string(),
        order_id: "o1".to_string(),
        symbol: "BTCUSDT".to_string(),
        side: "Buy".to_string(),
        price: Dec::new(50000, 0),
        quantity: Dec::new(1, 1),
        commission: Dec::new(10, 0),
        commission_asset: "USDT".to_string(),
        realized_pnl: Some(Dec::new(50, 0)),
        timestamp: 3_000,
    }
}

fn service_with_deposit() -> LedgerService<MemoryLedgerStore> {
    let mut ledger = LedgerService::new(MemoryLedgerStore::new());
    ledger.process_deposit(&deposit("dep1", 1000)).unwrap();
    ledger
}

#[test]
fn deposit_sets_the_balance() {
    let mut ledger = LedgerService::new(MemoryLedgerStore::new());
    assert!(ledger.get_balance(Exchange::Binance, "USDT") == Dec::zero());
    let entry = ledger.process_deposit(&deposit("dep1", 1000)).unwrap();
    assert_eq!(entry.entry_type, LedgerEntryType::Deposit);
    assert!(entry.amount == Dec::new(1000, 0));
    assert!(entry.balance_after == Dec::new(1000, 0));
    assert_eq!(entry.reference_id, Some("dep1".to_string()));
    assert_eq!(entry.reference_type, Some("deposit".to_string()));
    assert_eq!(entry.description, Some("Deposit TX: tx9".to_string()));
    assert!(ledger.get_balance(Exchange::Binance, "USDT") == Dec::new(1000, 0));
    assert!(ledger.get_balance(Exchange::Kraken, "USDT") == Dec::zero());
}

#[test]
fn deposit_booked_twice_is_refused() {
    let mut ledger = service_with_deposit();
    let again = ledger.process_deposit(&deposit("dep1", 1000));
    assert_eq!(again.unwrap_err(), "Deposit dep1 already processed");
    assert_eq!(ledger.count_entries(&LedgerFilters::default()), 1);
    assert!(ledger.get_balance(Exchange::Binance, "USDT") == Dec::new(1000, 0));
}

#[test]
fn withdrawal_debits_amount_and_fee() {
    let mut ledger = service_with_deposit();
    let w = SyncedWithdrawal {
        exchange: Exchange::Binance,
        withdrawal_id: "w1".to_string(),
        asset: "USDT".to_string(),
        amount: Dec::new(100, 0),
        fee: Dec::new(1, 0),
        status: "completed".to_string(),
        tx_id: None,
        address: None,
        timestamp: 2_000,
    };
    let entry = ledger.process_withdrawal(&w).unwrap();
    assert!(entry.amount == Dec::new(-101, 0));
    assert!(entry.balance_after == Dec::new(899, 0));
    assert_eq!(entry.description, Some("Withdrawal to unknown (fee: 1)".to_string()));
    assert_eq!(
        ledger.process_withdrawal(&w).unwrap_err(),
        "Withdrawal w1 already processed"
    );
}

#[test]
fn trade_books_commission_then_pnl() {
    let mut ledger = service_with_deposit();
    let entries = ledger.process_trade(&trade("t1")).unwrap();
    assert_eq!(entries.len(), 2);
    assert_eq!(entries[0].entry_type, LedgerEntryType::Commission);
    assert!(entries[0].amount == Dec::new(-10, 0));
    assert!(entries[0].balance_after == Dec::new(990, 0));
    assert_eq!(
        entries[0].description,
        Some("Commission for Buy 0.1 BTCUSDT".to_string())
    );
    assert_eq!(entries[1].entry_type, LedgerEntryType::TradePnL);
    assert!(entries[1].amount == Dec::new(50, 0));
    assert!(entries[1].balance_after == Dec::new(1040, 0));
    assert_eq!(
        entries[1].description,
        Some("Realized P&L for Buy 0.1 BTCUSDT @ 50000".to_string())
    );
    assert!(ledger.get_balance(Exchange::Binance, "USDT") == Dec::new(1040, 0));
}

#[test]
fn trade_booked_twice_books_nothing() {
    let mut ledger = service_with_deposit();
    ledger.process_trade(&trade("t1")).unwrap();
    let again = ledger.process_trade(&trade("t1")).unwrap();
    assert!(again.is_empty());
    assert_eq!(ledger.count_entries(&LedgerFilters::default()), 3);
}

#[test]
fn trade_without_commission_or_pnl_books_nothing() {
    let mut ledger = service_with_deposit();
    let mut t = trade("t2");
    t.commission = Dec::zero();
    t.realized_pnl = Some(Dec::zero());
    assert!(ledger.process_trade(&t).unwrap().is_empty());
    assert_eq!(ledger.count_entries(&LedgerFilters::default()), 1);
}

#[test]
fn trade_event_names_the_side() {
    let mut ledger = service_with_deposit();
    let event = TradeEvent {
        exchange: Exchange::Binance,
        trade_id: "t3".to_string(),
        symbol: "ETHUSDT".to_string(),
        order_id: "o3".to_string(),
        side: OrderSide::Sell,
        price: Dec::new(2000, 0),
        quantity: Dec::new(2, 0),
        commission: Dec::new(1, 0),
        commission_asset: "BNB".to_string(),
        realized_pnl: None,
        timestamp: 4_000,
    };
    let entries = ledger.process_trade_event(&event).unwrap();
    assert_eq!(entries.len(), 1);
    assert_eq!(entries[0].asset, "BNB");
    assert!(entries[0].balance_after == Dec::new(-1, 0));
    assert_eq!(
        entries[0].description,
        Some("Commission for Sell 2 ETHUSDT".to_string())
    );
}

#[test]
fn funding_is_booked_in_usdt() {
    let mut ledger = service_with_deposit();
    let f = SyncedFunding {
        exchange: Exchange::Binance,
        funding_id: "f1".to_string(),
        symbol: "BTCUSDT".to_string(),
        amount: Dec::new(-5, 0),
        funding_rate: Dec::new(1, 4),
        position_size: Dec::new(2, 0),
        timestamp: 5_000,
    };
    let entry = ledger.process_funding(&f).unwrap();
    assert_eq!(entry.asset, "USDT");
    assert!(entry.balance_after == Dec::new(995, 0));
    assert_eq!(
        entry.description,
        Some("Funding BTCUSDT @ 0.0001 (position: 2)".to_string())
    );
    assert_eq!(ledger.process_funding(&f).unwrap_err(), "Funding f1 already processed");
}

#[test]
fn entries_are_filtered_and_paged() {
    let mut ledger = service_with_deposit();
    ledger.process_trade(&trade("t1")).unwrap();
    let mut filters = LedgerFilters::default();
    filters.entry_type = Some(LedgerEntryType::Commission);
    let commissions = ledger.get_entries(&filters);
    assert_eq!(commissions.len(), 1);
    assert_eq!(ledger.count_entries(&filters), 1);
    let mut paged = LedgerFilters::default();
    paged.offset = Some(1);
    paged.limit = Some(1);
    let page = ledger.get_entries(&paged);
    assert_eq!(page.len(), 1);
    assert_eq!(page[0].entry_type, LedgerEntryType::Commission);
    assert_eq!(ledger.count_entries(&paged), 3);
}

#[test]
fn summary_totals_the_period() {
    let mut ledger = service_with_deposit();
    ledger.process_trade(&trade("t1")).unwrap();
    let summary = ledger.get_summary(Exchange::Binance, "USDT", None, None);
    assert!(summary.total_deposits == Dec::new(1000, 0));
    assert!(summary.total_commissions == Dec::new(10, 0));
    assert!(summary.total_realized_pnl == Dec::new(50, 0));
    assert!(summary.net_change == Dec::new(1040, 0));
    assert!(summary.current_balance == Dec::new(1040, 0));
    let later = ledger.get_summary(Exchange::Binance, "USDT", Some(2_000), None);
    assert!(later.total_deposits == Dec::zero());
    assert!(later.net_change == Dec::new(40, 0));
    let all = ledger.get_all_summaries(Exchange::Binance, None, None);
    assert_eq!(all.len(), 1);
    assert_eq!(all[0].asset, "USDT");
}

#[test]
fn balances_and_recalculation_agree() {
    let mut ledger = service_with_deposit();
    ledger.process_trade(&trade("t1")).unwrap();
    let balances = ledger.get_all_balances(Exchange::Binance);
    assert_eq!(balances.len(), 1);
    assert!(balances[0].balance == Dec::new(1040, 0));
    assert_eq!(balances[0].last_updated, 3_000);
    let totals = ledger.recalculate_balances(Exchange::Binance).unwrap();
    assert_eq!(totals.len(), 1);
    assert_eq!(totals[0].0, "USDT");
    assert!(totals[0].1 == Dec::new(1040, 0));
    assert!(ledger.get_all_balances(Exchange::Kraken).is_empty());
}

#[test]
fn identical_sides_reconcile_as_matched() {
    let side = vec![
        BalanceSnapshot { asset: "USDT".to_string(), balance: Dec::new(1000, 0) },
        BalanceSnapshot { asset: "BTC".to_string(), balance: Dec::new(5, 1) },
    ];
    let service = ReconciliationService::new(ReconciliationConfig::default());
    assert!(service.compare_balances(&side, &side).is_empty());
    let snapshot = service.build_snapshot(Exchange::Binance, side.clone(), side, 1_000);
    assert_eq!(snapshot.status, ReconciliationStatus::Matched);
    assert!(snapshot.total_discrepancy_value == Dec::zero());
}

#[test]
fn memory_store_keeps_batches_and_finds_entries() {
    let mut source = LedgerService::new(MemoryLedgerStore::new());
    let first = source.process_deposit(&deposit("a", 5)).unwrap();
    let second = source.process_deposit(&deposit("b", 7)).unwrap();
    let mut store = MemoryLedgerStore::new();
    store.insert_entries(&vec![first.clone(), second.clone()]).unwrap();
    assert_eq!(store.count_entries(&LedgerFilters::default()), 2);
    assert_eq!(store.get_entry(&second.id).unwrap().reference_id, Some("b".to_string()));
    assert!(store.get_entry("missing").is_none());
    let last = store.get_last_entry(Exchange::Binance, "USDT").unwrap();
    assert!(last.balance_after == Dec::new(12, 0));
    assert!(store.get_last_entry(Exchange::Binance, "BTC").is_none());
}

