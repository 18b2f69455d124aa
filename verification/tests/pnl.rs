use robotrade::decimal::Dec;
use robotrade::memory_lots::MemoryTaxLotStore;
use robotrade::pnl_calculator::{CostBasisMethod, PnLCalculator, PositionSide, TaxLotStore};
use robotrade::ws_manager::Exchange;

const DAY_MS: i64 = 86_400_000;

fn calculator(method: CostBasisMethod) -> PnLCalculator<MemoryTaxLotStore> {
    let mut calc = PnLCalculator::new(MemoryTaxLotStore::new(), method);
    calc.process_open(
        Exchange::Binance,
        "BTCUSDT".to_string(),
        PositionSide::Long,
        Dec::new(1, 0),
        Dec::new(100, 0),
        0,
        "t1".to_string(),
    )
    .unwrap();
    calc.process_open(
        Exchange::Binance,
        "BTCUSDT".to_string(),
        PositionSide::Long,
        Dec::new(1, 0),
        Dec::new(200, 0),
        DAY_MS,
        "t2".to_string(),
    )
    .unwrap();
    calc
}

#[test]
fn test_fifo_close_takes_oldest_lot() {
    let mut calc = calculator(CostBasisMethod::FIFO);
    let realized = calc
        .process_close(
            Exchange::Binance,
            "BTCUSDT".to_string(),
            PositionSide::Long,
            Dec::new(15, 1),
            Dec::new(300, 0),
            2 * DAY_MS,
            "c1".to_string(),
        )
        .unwrap();
    assert_eq!(realized.len(), 2);
    assert_eq!(realized[0].quantity.to_text(), "1");
    assert_eq!(realized[0].gain_loss.to_text(), "200");
    assert_eq!(realized[1].quantity.to_text(), "0.5");
    assert_eq!(realized[1].gain_loss.to_text(), "50.0");
    assert!(realized[0].is_short_term);
}

#[test]
fn test_lifo_close_takes_newest_lot() {
    let mut calc = calculator(CostBasisMethod::LIFO);
    let realized = calc
        .process_close(
            Exchange::Binance,
            "BTCUSDT".to_string(),
            PositionSide::Long,
            Dec::new(1, 0),
            Dec::new(300, 0),
            2 * DAY_MS,
            "c1".to_string(),
        )
        .unwrap();
    assert_eq!(realized.len(), 1);
    assert_eq!(realized[0].cost_basis.to_text(), "200");
    assert_eq!(realized[0].gain_loss.to_text(), "100");
}

#[test]
fn test_close_without_lots_fails() {
    let mut calc = PnLCalculator::new(MemoryTaxLotStore::new(), CostBasisMethod::FIFO);
    let err = calc
        .process_close(
            Exchange::Binance,
            "ETHUSDT".to_string(),
            PositionSide::Short,
            Dec::new(1, 0),
            Dec::new(300, 0),
            0,
            "c1".to_string(),
        )
        .unwrap_err();
    assert_eq!(err, "No open SHORT lots to close for ETHUSDT");
}

#[test]
fn test_close_beyond_lots_reports_remaining() {
    let mut calc = calculator(CostBasisMethod::FIFO);
    let err = calc
        .process_close(
            Exchange::Binance,
            "BTCUSDT".to_string(),
            PositionSide::Long,
            Dec::new(3, 0),
            Dec::new(300, 0),
            2 * DAY_MS,
            "c1".to_string(),
        )
        .unwrap_err();
    assert_eq!(err, "Could not fully close 3 BTCUSDT - 1 remaining");
    assert!(calc
        .calculate_unrealized(Exchange::Binance, "BTCUSDT", PositionSide::Long, Dec::new(300, 0))
        .is_none());
}

#[test]
fn test_unrealized_and_summary_after_close() {
    let mut calc = calculator(CostBasisMethod::FIFO);
    calc.process_close(
        Exchange::Binance,
        "BTCUSDT".to_string(),
        PositionSide::Long,
        Dec::new(1, 0),
        Dec::new(300, 0),
        2 * DAY_MS,
        "c1".to_string(),
    )
    .unwrap();
    let open = calc
        .calculate_unrealized(Exchange::Binance, "BTCUSDT", PositionSide::Long, Dec::new(300, 0))
        .unwrap();
    assert_eq!(open.quantity.to_text(), "1");
    assert_eq!(open.cost_basis.to_text(), "200");
    assert_eq!(open.unrealized_gain_loss.to_text(), "100");
    assert_eq!(open.oldest_lot_date, Some(DAY_MS));
    let summary = calc.get_summary(Some(Exchange::Binance), Some("BTCUSDT"), 0, 3 * DAY_MS);
    assert_eq!(summary.num_trades, 1);
    assert_eq!(summary.total_realized.to_text(), "200");
    assert_eq!(summary.short_term_gains.to_text(), "200");
    assert_eq!(summary.symbol, Some("BTCUSDT".to_string()));
}

#[test]
fn test_memory_store_orders_lots_by_acquisition() {
    let mut store = MemoryTaxLotStore::new();
    let late = robotrade::pnl_calculator::TaxLot::new(
        Exchange::Binance,
        "BTCUSDT".to_string(),
        PositionSide::Long,
        Dec::new(1, 0),
        Dec::new(1, 0),
        20,
        "late".to_string(),
    );
    let early = robotrade::pnl_calculator::TaxLot::new(
        Exchange::Binance,
        "BTCUSDT".to_string(),
        PositionSide::Long,
        Dec::new(1, 0),
        Dec::new(1, 0),
        10,
        "early".to_string(),
    );
    store.insert_lot(&late).unwrap();
    store.insert_lot(&early).unwrap();
    let fifo = store.get_open_lots(Exchange::Binance, "BTCUSDT", PositionSide::Long);
    assert_eq!(fifo[0].trade_id, "early");
    let lifo = store.get_open_lots_lifo(Exchange::Binance, "BTCUSDT", PositionSide::Long);
    assert_eq!(lifo[0].trade_id, "late");
    assert_eq!(
        store
            .get_average_cost(Exchange::Binance, "BTCUSDT", PositionSide::Long)
            .to_text(),
        "1"
    );
}
