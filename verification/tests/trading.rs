use robotrade::circuit_breaker::{CircuitBreaker, CircuitBreakerConfig, CircuitState, FailureType};
use robotrade::decimal::Dec;
use robotrade::entities::{
    ExchangeId, OrderRequest, OrderSide, OrderType, Position, PositionSide, Signal,
    SignalStrength, SignalType, TimeInForce, Trade, TradeCloseReason, TradeDirection,
};
use robotrade::job_queue::{signal_to_order, Job, JobPayload, JobPriority, JobQueue, JobType};
use robotrade::position_manager::{PositionEvent, PositionManager};
use robotrade::risk::{RiskCheckResult, RiskConfig, RiskManager, RiskRejectionReason};
use robotrade::scheduler::{Scheduler, SchedulerConfig, SchedulerEvent};
use robotrade::ledger_service::LedgerFilters;
use robotrade::pnl_calculator::{PositionSide as LotSide, TaxLot};
use robotrade::reconciliation_service::ReconciliationConfig;
use robotrade::records::parse_exchange_id;
use robotrade::sync_engine::SyncConfig;
use robotrade::ws_manager::Exchange;

const T0: i64 = 1_700_000_000_000;

#[test]
fn test_initial_state() {
    let mut cb = CircuitBreaker::default();
    assert_eq!(cb.get_state(), CircuitState::Closed);
    assert!(cb.is_allowed_at(T0));
}

#[test]
fn test_opens_after_failures() {
    let mut config = CircuitBreakerConfig::default();
    config.failure_threshold = 3;
    let mut cb = CircuitBreaker::new(config);
    assert_eq!(cb.get_state(), CircuitState::Closed);
    cb.record_failure_at(FailureType::ConnectionError, T0);
    cb.record_failure_at(FailureType::ConnectionError, T0 + 1);
    assert_eq!(cb.get_state(), CircuitState::Closed);
    cb.record_failure_at(FailureType::ConnectionError, T0 + 2);
    assert_eq!(cb.get_state(), CircuitState::Open);
}

#[test]
fn test_rapid_loss_opens() {
    let mut config = CircuitBreakerConfig::default();
    config.rapid_loss_threshold = Dec::new(100, 0);
    config.failure_threshold = 100;
    let mut cb = CircuitBreaker::new(config);
    cb.record_loss_at(Dec::new(50, 0), T0);
    assert_eq!(cb.get_state(), CircuitState::Closed);
    cb.record_loss_at(Dec::new(60, 0), T0 + 1);
    assert_eq!(cb.get_state(), CircuitState::Open);
}

#[test]
fn test_manual_reset() {
    let mut config = CircuitBreakerConfig::default();
    config.failure_threshold = 1;
    let mut cb = CircuitBreaker::new(config);
    cb.record_failure_at(FailureType::ConnectionError, T0);
    assert_eq!(cb.get_state(), CircuitState::Open);
    cb.reset();
    assert_eq!(cb.get_state(), CircuitState::Closed);
    assert_eq!(cb.failure_count(), 0);
}

#[test]
fn test_half_open_success_closes() {
    let mut config = CircuitBreakerConfig::default();
    config.failure_threshold = 1;
    config.success_threshold = 2;
    config.recovery_timeout_secs = 0;
    let mut cb = CircuitBreaker::new(config);
    cb.record_failure_at(FailureType::ConnectionError, T0);
    assert_eq!(cb.get_state(), CircuitState::Open);
    let _ = cb.is_allowed_at(T0 + 10);
    assert_eq!(cb.get_state(), CircuitState::HalfOpen);
    cb.record_success();
    assert_eq!(cb.get_state(), CircuitState::HalfOpen);
    cb.record_success();
    assert_eq!(cb.get_state(), CircuitState::Closed);
}

#[test]
fn test_half_open_failure_reopens() {
    let mut config = CircuitBreakerConfig::default();
    config.failure_threshold = 1;
    config.recovery_timeout_secs = 0;
    let mut cb = CircuitBreaker::new(config);
    cb.record_failure_at(FailureType::ConnectionError, T0);
    let _ = cb.is_allowed_at(T0 + 10);
    assert_eq!(cb.get_state(), CircuitState::HalfOpen);
    cb.record_failure_at(FailureType::ConnectionError, T0 + 20);
    assert_eq!(cb.get_state(), CircuitState::Open);
}

fn create_test_signal() -> Signal {
    Signal::new(
        "test_strategy",
        "Test Strategy",
        "BTCUSDT",
        SignalType::Custom { name: "test".to_string(), description: "Test signal".to_string() },
        TradeDirection::Long,
        SignalStrength::Strong,
        Dec::new(50000, 0),
        "Test signal",
    )
    .with_targets(Dec::new(50000, 0), Dec::new(49000, 0), Dec::new(52000, 0))
}

#[test]
fn test_enqueue_dequeue() {
    let mut queue = JobQueue::default();
    let job = Job::new(JobType::ProcessSignal, JobPriority::Normal, JobPayload::Empty);
    let job_id = queue.enqueue(job).unwrap();
    assert_eq!(queue.pending_count(), 1);
    let dequeued = queue.dequeue().unwrap();
    assert_eq!(dequeued.id, job_id);
    assert_eq!(queue.pending_count(), 0);
    assert_eq!(queue.processing_count(), 1);
}

#[test]
fn test_priority_ordering() {
    let mut queue = JobQueue::default();
    queue.enqueue(Job::new(JobType::UpdatePosition, JobPriority::Low, JobPayload::Empty)).unwrap();
    queue.enqueue(Job::new(JobType::ProcessSignal, JobPriority::Normal, JobPayload::Empty)).unwrap();
    queue.enqueue(Job::new(JobType::ExecuteOrder, JobPriority::High, JobPayload::Empty)).unwrap();
    queue.enqueue(Job::new(JobType::CheckStopLoss, JobPriority::Critical, JobPayload::Empty)).unwrap();
    assert_eq!(queue.dequeue().unwrap().priority, JobPriority::Critical);
    assert_eq!(queue.dequeue().unwrap().priority, JobPriority::High);
    assert_eq!(queue.dequeue().unwrap().priority, JobPriority::Normal);
    assert_eq!(queue.dequeue().unwrap().priority, JobPriority::Low);
}

#[test]
fn test_complete_and_fail() {
    let mut queue = JobQueue::default();
    let job = Job::new(JobType::ProcessSignal, JobPriority::Normal, JobPayload::Empty);
    let job_id = queue.enqueue(job).unwrap();
    let _dequeued = queue.dequeue().unwrap();
    queue.complete(job_id);
    let stats = queue.stats();
    assert_eq!(stats.completed, 1);
    assert_eq!(stats.processing, 0);
}

#[test]
fn test_signal_enqueue() {
    let mut queue = JobQueue::default();
    let _job_id = queue.enqueue_signal(create_test_signal()).unwrap();
    assert!(queue.pending_count() > 0);
}

#[test]
fn test_signal_to_order_conversion() {
    let signal = create_test_signal();
    let order = signal_to_order(&signal, Dec::new(1, 1)).unwrap();
    assert_eq!(order.symbol, "BTCUSDT");
    assert_eq!(order.side, OrderSide::Buy);
    assert!(order.stop_loss.unwrap() == Dec::new(49000, 0));
}

fn create_test_order() -> OrderRequest {
    OrderRequest {
        symbol: "BTCUSDT".to_string(),
        side: OrderSide::Buy,
        order_type: OrderType::Market,
        quantity: Dec::new(1, 2),
        price: Some(Dec::new(50000, 0)),
        stop_price: None,
        stop_loss: None,
        take_profit: None,
        time_in_force: TimeInForce::GTC,
        leverage: Some(10),
        reduce_only: false,
    }
}

fn create_test_position(side: PositionSide, entry_price: Dec) -> Position {
    Position::from_entry_order(
        ExchangeId::BinanceFutures,
        "BTCUSDT".to_string(),
        side,
        Dec::new(1, 1),
        entry_price,
        10,
        "00000000-0000-0000-0000-000000000001".to_string(),
    )
}

#[test]
fn test_validate_order_approved() {
    let manager = RiskManager::new(RiskConfig::default(), Dec::new(100000, 0));
    let result = manager.validate_order(&create_test_order(), &vec![]);
    assert!(matches!(result, RiskCheckResult::Approved));
}

#[test]
fn test_validate_order_leverage_too_high() {
    let mut config = RiskConfig::default();
    config.max_leverage = 5;
    let manager = RiskManager::new(config, Dec::new(10000, 0));
    let mut order = create_test_order();
    order.leverage = Some(20);
    let result = manager.validate_order(&order, &vec![]);
    assert!(matches!(result, RiskCheckResult::Rejected(RiskRejectionReason::LeverageTooHigh { .. })));
}

#[test]
fn test_validate_order_max_positions() {
    let mut config = RiskConfig::default();
    config.max_positions = 1;
    let manager = RiskManager::new(config, Dec::new(10000, 0));
    let positions = vec![create_test_position(PositionSide::Long, Dec::new(50000, 0))];
    let result = manager.validate_order(&create_test_order(), &positions);
    assert!(matches!(result, RiskCheckResult::Rejected(RiskRejectionReason::MaxPositionsReached { .. })));
}

#[test]
fn test_daily_loss_limit() {
    let mut config = RiskConfig::default();
    config.max_daily_loss = Dec::new(100, 0);
    let mut manager = RiskManager::new(config, Dec::new(10000, 0));
    let trade = Trade::from_closed_position(
        ExchangeId::BinanceFutures,
        "BTCUSDT".to_string(),
        PositionSide::Long,
        "00000000-0000-0000-0000-000000000002".to_string(),
        None,
        "00000000-0000-0000-0000-000000000003".to_string(),
        "00000000-0000-0000-0000-000000000004".to_string(),
        Dec::new(1, 1),
        Dec::new(50000, 0),
        Dec::new(49000, 0),
        Dec::new(5, 0),
        10,
        TradeCloseReason::StopLoss,
        T0,
    );
    manager.record_trade(&trade);
    assert!(!manager.get_state().trading_enabled);
}

#[test]
fn test_enable_disable_trading() {
    let mut manager = RiskManager::default();
    manager.disable_trading("Test reason");
    let state = manager.get_state();
    assert!(!state.trading_enabled);
    assert_eq!(state.disabled_reason, Some("Test reason".to_string()));
    manager.enable_trading();
    let state = manager.get_state();
    assert!(state.trading_enabled);
    assert!(state.disabled_reason.is_none());
}

#[test]
fn test_open_and_close_position() {
    let mut manager = PositionManager::default();
    let position = create_test_position(PositionSide::Long, Dec::new(50000, 0));
    let position_id = position.id.clone();
    manager.open_position(position).unwrap();
    assert_eq!(manager.position_count(), 1);
    let trade = manager.close_position(&position_id, Dec::new(51000, 0), TradeCloseReason::Manual { nota: None });
    let trade = trade.unwrap();
    assert!(trade.net_pnl.is_positive());
    assert_eq!(manager.position_count(), 0);
}

#[test]
fn test_pnl_calculation_long() {
    let mut manager = PositionManager::default();
    let position = create_test_position(PositionSide::Long, Dec::new(50000, 0));
    let position_id = position.id.clone();
    manager.open_position(position).unwrap();
    manager.update_price(&position_id, Dec::new(51000, 0));
    let pos = manager.get_position(&position_id).unwrap();
    assert!(pos.unrealized_pnl.is_positive());
}

#[test]
fn test_pnl_calculation_short() {
    let mut manager = PositionManager::default();
    let position = create_test_position(PositionSide::Short, Dec::new(50000, 0));
    let position_id = position.id.clone();
    manager.open_position(position).unwrap();
    manager.update_price(&position_id, Dec::new(49000, 0));
    let pos = manager.get_position(&position_id).unwrap();
    assert!(pos.unrealized_pnl.is_positive());
}

#[test]
fn test_stop_loss_trigger() {
    let mut manager = PositionManager::default();
    let mut position = create_test_position(PositionSide::Long, Dec::new(50000, 0));
    position.stop_loss_price = Some(Dec::new(49000, 0));
    let position_id = position.id.clone();
    manager.open_position(position).unwrap();
    let event = manager.update_price(&position_id, Dec::new(48500, 0));
    assert!(matches!(event, Some(PositionEvent::StopLossTriggered(_))));
}

#[test]
fn test_take_profit_trigger() {
    let mut manager = PositionManager::default();
    let mut position = create_test_position(PositionSide::Long, Dec::new(50000, 0));
    position.take_profit_price = Some(Dec::new(52000, 0));
    let position_id = position.id.clone();
    manager.open_position(position).unwrap();
    let event = manager.update_price(&position_id, Dec::new(52500, 0));
    assert!(matches!(event, Some(PositionEvent::TakeProfitTriggered(_))));
}

#[test]
fn test_scheduler_start_stop() {
    let mut scheduler = Scheduler::with_config(SchedulerConfig {
        fear_greed_interval_secs: 1,
        price_update_interval_secs: 1,
        position_check_interval_secs: 1,
        strategy_interval_secs: 1,
    });
    assert!(!scheduler.is_running());
    scheduler.start();
    assert!(scheduler.is_running());
    let events = scheduler.drain_events();
    assert!(matches!(events.first(), Some(SchedulerEvent::Started)));
    scheduler.stop();
    assert!(!scheduler.is_running());
}

#[test]
fn test_scheduler_emits_events() {
    let mut scheduler = Scheduler::with_config(SchedulerConfig {
        fear_greed_interval_secs: 100,
        price_update_interval_secs: 100,
        position_check_interval_secs: 100,
        strategy_interval_secs: 100,
    });
    let tasks = scheduler.start();
    let events = scheduler.drain_events();
    assert!(events.len() >= 1);
    assert!(!tasks.is_empty());
}

#[test]
fn test_tax_lot_is_long_term() {
    let now = std::time::SystemTime::now()
        .duration_since(std::time::UNIX_EPOCH)
        .unwrap()
        .as_millis() as i64;
    let day: i64 = 86_400_000;
    let lot = TaxLot::new(
        Exchange::Binance,
        "BTCUSDT".to_string(),
        LotSide::Long,
        Dec::new(10, 1),
        Dec::new(50000, 0),
        now - 400 * day,
        "trade1".to_string(),
    );
    assert!(lot.is_long_term(now));
    let recent_lot = TaxLot::new(
        Exchange::Binance,
        "BTCUSDT".to_string(),
        LotSide::Long,
        Dec::new(10, 1),
        Dec::new(50000, 0),
        now - 100 * day,
        "trade2".to_string(),
    );
    assert!(!recent_lot.is_long_term(now));
}

#[test]
fn test_ledger_filters_default() {
    let filters = LedgerFilters::default();
    assert!(filters.exchange.is_none());
    assert!(filters.limit.is_none());
}

#[test]
fn test_sync_config_default() {
    let config = SyncConfig::default();
    assert_eq!(config.batch_size, 1000);
    assert_eq!(config.max_retries, 3);
    assert_eq!(config.data_types.len(), 7);
}

#[test]
fn test_reconciliation_config_default() {
    let config = ReconciliationConfig::default();
    assert!(config.tolerance_pct == Dec::new(1, 3));
    assert!(config.auto_resolve_dust);
}

#[test]
fn test_parse_exchange_id() {
    assert_eq!(parse_exchange_id("binance_futures").unwrap(), ExchangeId::BinanceFutures);
    assert_eq!(parse_exchange_id("paper").unwrap(), ExchangeId::Paper);
    assert!(parse_exchange_id("invalid").is_err());
}
