//! Historical sync: the records fetched from exchanges and the resumable
//! state of each (exchange, data kind) sync.  Fetching, storing and pacing
//! are done by the application; the decisions between them are here.
//! Instants are milliseconds since the Unix epoch.
use crate::clock::{duration_from_secs, seconds_duration};
use crate::decimal::{pow10, Dec};
use crate::ws_manager::Exchange;
use core::time::Duration;
use vstd::prelude::*;

verus! {

/// A kind of data to sync.
#[derive(Clone, Copy, Debug, PartialEq, Eq, Structural, Hash)]
pub enum SyncDataType {
    Trades,
    Orders,
    Positions,
    Balances,
    Deposits,
    Withdrawals,
    Funding,
}

/// The lower-case name of a data kind.
pub open spec fn data_type_name(t: SyncDataType) -> Seq<char> {
    match t {
        SyncDataType::Trades => "trades"@,
        SyncDataType::Orders => "orders"@,
        SyncDataType::Positions => "positions"@,
        SyncDataType::Balances => "balances"@,
        SyncDataType::Deposits => "deposits"@,
        SyncDataType::Withdrawals => "withdrawals"@,
        SyncDataType::Funding => "funding"@,
    }
}

impl SyncDataType {
    /// "trades", "orders", "positions", "balances", "deposits",
    /// "withdrawals" or "funding".
    pub fn to_text(&self) -> (r: String)
        ensures
            r@ == data_type_name(*self),
    {
        match self {
            SyncDataType::Trades => "trades".to_string(),
            SyncDataType::Orders => "orders".to_string(),
            SyncDataType::Positions => "positions".to_string(),
            SyncDataType::Balances => "balances".to_string(),
            SyncDataType::Deposits => "deposits".to_string(),
            SyncDataType::Withdrawals => "withdrawals".to_string(),
            SyncDataType::Funding => "funding".to_string(),
        }
    }
}

/// Where a sync is.
#[derive(Clone, Copy, Debug, PartialEq, Eq, Structural)]
pub enum SyncStatus {
    Pending,
    InProgress,
    Completed,
    Failed,
    Paused,
}

/// Progress report of a sync.
#[derive(Clone, Debug)]
pub struct SyncProgressEvent {
    pub exchange: Exchange,
    pub data_type: SyncDataType,
    pub status: SyncStatus,
    pub items_synced: u64,
    pub total_items: Option<u64>,
    pub current_timestamp: Option<i64>,
    pub error: Option<String>,
}

/// Sync settings.  The rate limit is in requests per second.
#[derive(Clone, Debug)]
pub struct SyncConfig {
    pub start_time: Option<i64>,
    pub end_time: Option<i64>,
    pub batch_size: usize,
    pub rate_limit: Dec,
    pub max_retries: u32,
    pub initial_retry_delay: Duration,
    pub max_retry_delay: Duration,
    pub data_types: Vec<SyncDataType>,
    pub progress_buffer_size: usize,
}

impl SyncConfig {
    /// From the beginning to now, batches of 1000, 5 requests per second,
    /// 3 retries from 1 s to 30 s, every data kind, 100 progress events.
    pub fn default() -> (r: Self)
        ensures
            r.start_time is None,
            r.end_time is None,
            r.batch_size == 1000,
            r.rate_limit.repr() == (50 * pow10(27), 1nat),
            r.max_retries == 3,
            r.initial_retry_delay == seconds_duration(1),
            r.max_retry_delay == seconds_duration(30),
            r.data_types@ == seq![
                SyncDataType::Trades,
                SyncDataType::Orders,
                SyncDataType::Positions,
                SyncDataType::Balances,
                SyncDataType::Deposits,
                SyncDataType::Withdrawals,
                SyncDataType::Funding,
            ],
            r.progress_buffer_size == 100,
    {
        let mut data_types: Vec<SyncDataType> = Vec::new();
        data_types.push(SyncDataType::Trades);
        data_types.push(SyncDataType::Orders);
        data_types.push(SyncDataType::Positions);
        data_types.push(SyncDataType::Balances);
        data_types.push(SyncDataType::Deposits);
        data_types.push(SyncDataType::Withdrawals);
        data_types.push(SyncDataType::Funding);
        SyncConfig {
            start_time: None,
            end_time: None,
            batch_size: 1000,
            rate_limit: Dec::new(50, 1),
            max_retries: 3,
            initial_retry_delay: duration_from_secs(1),
            max_retry_delay: duration_from_secs(30),
            data_types,
            progress_buffer_size: 100,
        }
    }
}

/// The resumable state of one sync.
#[derive(Clone, Debug)]
pub struct SyncState {
    pub exchange: Exchange,
    pub data_type: SyncDataType,
    pub status: SyncStatus,
    pub last_timestamp: Option<i64>,
    pub last_id: Option<String>,
    pub items_synced: u64,
    pub started_at: i64,
    pub updated_at: i64,
    pub error: Option<String>,
}

#[derive(Clone, Debug)]
pub struct SyncedTrade {
    pub exchange: Exchange,
    pub trade_id: String,
    pub order_id: String,
    pub symbol: String,
    pub side: String,
    pub price: Dec,
    pub quantity: Dec,
    pub commission: Dec,
    pub commission_asset: String,
    pub realized_pnl: Option<Dec>,
    pub timestamp: i64,
}

#[derive(Clone, Debug)]
pub struct SyncedOrder {
    pub exchange: Exchange,
    pub order_id: String,
    pub client_order_id: Option<String>,
    pub symbol: String,
    pub side: String,
    pub order_type: String,
    pub status: String,
    pub price: Dec,
    pub quantity: Dec,
    pub filled_quantity: Dec,
    pub avg_price: Dec,
    pub created_at: i64,
    pub updated_at: i64,
}

#[derive(Clone, Debug)]
pub struct SyncedPosition {
    pub exchange: Exchange,
    pub symbol: String,
    pub side: String,
    pub size: Dec,
    pub entry_price: Dec,
    pub unrealized_pnl: Dec,
    pub leverage: Dec,
    pub margin_type: String,
    pub timestamp: i64,
}

#[derive(Clone, Debug)]
pub struct SyncedBalance {
    pub exchange: Exchange,
    pub asset: String,
    pub total: Dec,
    pub available: Dec,
    pub timestamp: i64,
}

#[derive(Clone, Debug)]
pub struct SyncedDeposit {
    pub exchange: Exchange,
    pub deposit_id: String,
    pub asset: String,
    pub amount: Dec,
    pub status: String,
    pub tx_id: Option<String>,
    pub timestamp: i64,
}

#[derive(Clone, Debug)]
pub struct SyncedWithdrawal {
    pub exchange: Exchange,
    pub withdrawal_id: String,
    pub asset: String,
    pub amount: Dec,
    pub fee: Dec,
    pub status: String,
    pub tx_id: Option<String>,
    pub address: Option<String>,
    pub timestamp: i64,
}

#[derive(Clone, Debug)]
pub struct SyncedFunding {
    pub exchange: Exchange,
    pub funding_id: String,
    pub symbol: String,
    pub amount: Dec,
    pub funding_rate: Dec,
    pub position_size: Dec,
    pub timestamp: i64,
}

/// A fetched batch.
#[derive(Clone, Debug)]
pub enum SyncedData {
    Trades(Vec<SyncedTrade>),
    Orders(Vec<SyncedOrder>),
    Positions(Vec<SyncedPosition>),
    Balances(Vec<SyncedBalance>),
    Deposits(Vec<SyncedDeposit>),
    Withdrawals(Vec<SyncedWithdrawal>),
    Funding(Vec<SyncedFunding>),
}

/// A command to the running sync.
#[derive(Clone, Copy, Debug, PartialEq, Eq, Structural)]
pub enum SyncCommand {
    Stop,
    Pause,
    Resume,
}

/// Whether the sync runs and whether it is paused.
#[derive(Clone, Copy, Debug, PartialEq, Eq, Structural)]
pub struct SyncControl {
    pub is_running: bool,
    pub is_paused: bool,
}

impl SyncControl {
    /// Running, not paused.
    pub fn new() -> (r: Self)
        ensures
            r.is_running,
            !r.is_paused,
    {
        SyncControl { is_running: true, is_paused: false }
    }

    /// Applies a command: stop ends the run, pause and resume toggle the
    /// pause.
    pub fn apply(&mut self, cmd: SyncCommand)
        ensures
            *final(self) == match cmd {
                SyncCommand::Stop => SyncControl { is_running: false, ..*old(self) },
                SyncCommand::Pause => SyncControl { is_paused: true, ..*old(self) },
                SyncCommand::Resume => SyncControl { is_paused: false, ..*old(self) },
            },
    {
        match cmd {
            SyncCommand::Stop => {
                self.is_running = false;
            },
            SyncCommand::Pause => {
                self.is_paused = true;
            },
            SyncCommand::Resume => {
                self.is_paused = false;
            },
        }
    }

    /// Applies a command received while paused: only stop and resume count.
    pub fn apply_while_paused(&mut self, cmd: SyncCommand)
        ensures
            *final(self) == match cmd {
                SyncCommand::Stop => SyncControl { is_running: false, ..*old(self) },
                SyncCommand::Resume => SyncControl { is_paused: false, ..*old(self) },
                SyncCommand::Pause => *old(self),
            },
    {
        match cmd {
            SyncCommand::Stop => {
                self.is_running = false;
            },
            SyncCommand::Resume => {
                self.is_paused = false;
            },
            SyncCommand::Pause => {},
        }
    }
}

impl SyncState {
    /// A fresh pending sync starting at `start_time`, created at `now`.
    pub fn initial(exchange: Exchange, data_type: SyncDataType, start_time: Option<i64>, now: i64) -> (r: Self)
        ensures
            r.exchange == exchange,
            r.data_type == data_type,
            r.status == SyncStatus::Pending,
            r.last_timestamp == start_time,
            r.last_id is None,
            r.items_synced == 0,
            r.started_at == now,
            r.updated_at == now,
            r.error is None,
    {
        SyncState {
            exchange,
            data_type,
            status: SyncStatus::Pending,
            last_timestamp: start_time,
            last_id: None,
            items_synced: 0,
            started_at: now,
            updated_at: now,
            error: None,
        }
    }

    /// The progress report of this state.
    pub fn progress_event(&self) -> (r: SyncProgressEvent)
        ensures
            r.exchange == self.exchange,
            r.data_type == self.data_type,
            r.status == self.status,
            r.items_synced == self.items_synced,
            r.total_items is None,
            r.current_timestamp == self.last_timestamp,
            r.error == self.error,
    {
        SyncProgressEvent {
            exchange: self.exchange,
            data_type: self.data_type,
            status: self.status,
            items_synced: self.items_synced,
            total_items: None,
            current_timestamp: self.last_timestamp,
            error: match &self.error {
                Some(e) => Some(e.clone()),
                None => None,
            },
        }
    }

    /// Records a fetched batch of `count` items at `now`, the last of them
    /// at `last` (instant and id); true when another batch is to be
    /// fetched, which is when the batch was full.
    pub fn record_batch(&mut self, count: usize, last: Option<(i64, String)>, batch_size: usize, now: i64) -> (more: bool)
        requires
            old(self).items_synced + count <= u64::MAX,
        ensures
            more == (count >= batch_size),
            final(self).items_synced == old(self).items_synced + count,
            final(self).updated_at == now,
            final(self).last_timestamp == match last {
                Some(l) => Some(l.0),
                None => old(self).last_timestamp,
            },
            final(self).last_id == match last {
                Some(l) => Some(l.1),
                None => old(self).last_id,
            },
            final(self).exchange == old(self).exchange,
            final(self).data_type == old(self).data_type,
            final(self).status == old(self).status,
            final(self).started_at == old(self).started_at,
            final(self).error == old(self).error,
    {
        match last {
            Some((ts, id)) => {
                self.last_timestamp = Some(ts);
                self.last_id = Some(id);
            },
            None => {},
        }
        self.items_synced = self.items_synced + count as u64;
        self.updated_at = now;
        count >= batch_size
    }

    /// Ends the sync at `now`: completed with no error, or failed with the
    /// error.
    pub fn finish(&mut self, outcome: Result<(), String>, now: i64)
        ensures
            final(self).updated_at == now,
            match outcome {
                Ok(()) => final(self).status == SyncStatus::Completed && final(self).error is None,
                Err(e) => final(self).status == SyncStatus::Failed && final(self).error == Some(e),
            },
            final(self).exchange == old(self).exchange,
            final(self).data_type == old(self).data_type,
            final(self).items_synced == old(self).items_synced,
            final(self).last_timestamp == old(self).last_timestamp,
            final(self).last_id == old(self).last_id,
            final(self).started_at == old(self).started_at,
    {
        match outcome {
            Ok(()) => {
                self.status = SyncStatus::Completed;
                self.error = None;
            },
            Err(e) => {
                self.status = SyncStatus::Failed;
                self.error = Some(e);
            },
        }
        self.updated_at = now;
    }
}

/// Starts the sync of one data kind at `now` from its stored state (a fresh
/// one from `start_time` when none is stored): None when it is already
/// completed, else the state marked in progress.
pub fn begin_sync(
    stored: Option<SyncState>,
    exchange: Exchange,
    data_type: SyncDataType,
    start_time: Option<i64>,
    now: i64,
) -> (r: Option<SyncState>)
    ensures
        match stored {
            Some(s) => if s.status == SyncStatus::Completed {
                r is None
            } else {
                r == Some(SyncState { status: SyncStatus::InProgress, updated_at: now, ..s })
            },
            None => r matches Some(s) && s.exchange == exchange && s.data_type == data_type
                && s.status == SyncStatus::InProgress && s.last_timestamp == start_time
                && s.last_id is None && s.items_synced == 0 && s.started_at == now && s.updated_at
                == now && s.error is None,
        },
{
    let mut state = match stored {
        Some(s) => s,
        None => SyncState::initial(exchange, data_type, start_time, now),
    };
    if state.status == SyncStatus::Completed {
        return None;
    }
    state.status = SyncStatus::InProgress;
    state.updated_at = now;
    Some(state)
}

} // verus!
