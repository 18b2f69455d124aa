//! Stored ledger entries, tax lots, candles and sync states: the texts and
//! numbers a repository keeps for each field, and the conversions from a
//! stored row back to the library's value.  A row that cannot be read gives
//! the message of the first field that fails.  Instants stored as Unix
//! seconds are read as milliseconds.
use crate::decimal::{decimal_from_text, Dec};
use crate::entities::{Candle, ExchangeId};
use crate::json::{json_parse, parse_json_or_error, JsonValue};
use crate::rows::{ExchangeRow, SymbolRow};
use crate::ledger_service::{LedgerEntry, LedgerEntryType};
use crate::market_data::{
    chrono_secs_in_range, naive_datetime_error_text, naive_datetime_from_text,
    parse_naive_datetime, parse_rfc3339, rfc3339_error_text, rfc3339_from_text,
};
use crate::pnl_calculator::{AcquisitionType, PositionSide, TaxLot};
use crate::records::{dec_err, name_err, opt_dec_err, opt_dec_is, or_else, read_dec, read_opt_dec, with_label};
use crate::sync_engine::{SyncDataType, SyncState, SyncStatus};
use crate::text::text_is;
use crate::ws_manager::Exchange;
use vstd::prelude::*;
use vstd::string::*;

verus! {

// ---------------------------------------------------------------------------
// Instants stored as Unix seconds.

/// The instant, in milliseconds, of a stored Unix second that chrono can
/// hold.
pub open spec fn secs_instant(secs: i64) -> Option<i64> {
    if chrono_secs_in_range(secs) {
        Some((secs * 1000) as i64)
    } else {
        None
    }
}

/// The message `msg` when a stored second is out of chrono's range.
pub open spec fn secs_err(secs: i64, msg: Seq<char>) -> Option<Seq<char>> {
    if chrono_secs_in_range(secs) {
        None
    } else {
        Some(msg)
    }
}

/// An optional stored second read as an instant; one out of range reads
/// as none.
pub open spec fn opt_secs_instant(secs: Option<i64>) -> Option<i64> {
    match secs {
        Some(s) => secs_instant(s),
        None => None,
    }
}

/// Reads a stored Unix second (what `Utc.timestamp_opt(secs, 0).single()`
/// accepts), in milliseconds.
pub fn instant_of_secs(secs: i64) -> (r: Option<i64>)
    ensures
        r == secs_instant(secs),
{
    if -8334601228800 <= secs && secs <= 8210266876799 {
        Some(secs * 1000)
    } else {
        None
    }
}

fn opt_instant_of_secs(secs: Option<i64>) -> (r: Option<i64>)
    ensures
        r == opt_secs_instant(secs),
{
    match secs {
        Some(s) => instant_of_secs(s),
        None => None,
    }
}

fn read_secs(secs: i64, msg: &str) -> (r: Result<i64, String>)
    ensures
        match secs_err(secs, msg@) {
            Some(m) => r matches Err(e) && e@ == m,
            None => r == Ok::<i64, String>(secs_instant(secs).unwrap()),
        },
{
    match instant_of_secs(secs) {
        Some(t) => Ok(t),
        None => Err(msg.to_string()),
    }
}

// ---------------------------------------------------------------------------
// Stored names.

/// The exchange a stored name names: "Binance" or "Kraken".
pub open spec fn exchange_named(s: Seq<char>) -> Option<Exchange> {
    if s == "Binance"@ {
        Some(Exchange::Binance)
    } else if s == "Kraken"@ {
        Some(Exchange::Kraken)
    } else {
        None
    }
}

/// Reads an exchange from its stored name.
pub fn parse_exchange_name(s: &str, label: &str) -> (r: Result<Exchange, String>)
    ensures
        match exchange_named(s@) {
            Some(x) => r == Ok::<Exchange, String>(x),
            None => r matches Err(e) && e@ == label@ + s@,
        },
{
    if text_is(s, "Binance") {
        Ok(Exchange::Binance)
    } else if text_is(s, "Kraken") {
        Ok(Exchange::Kraken)
    } else {
        Err(with_label(label, s.to_string()))
    }
}

/// The ledger entry kind a stored name names, in upper case.
pub open spec fn entry_type_named(s: Seq<char>) -> Option<LedgerEntryType> {
    if s == "DEPOSIT"@ {
        Some(LedgerEntryType::Deposit)
    } else if s == "WITHDRAWAL"@ {
        Some(LedgerEntryType::Withdrawal)
    } else if s == "TRADE_PNL"@ {
        Some(LedgerEntryType::TradePnL)
    } else if s == "FUNDING"@ {
        Some(LedgerEntryType::Funding)
    } else if s == "COMMISSION"@ {
        Some(LedgerEntryType::Commission)
    } else if s == "TRANSFER"@ {
        Some(LedgerEntryType::Transfer)
    } else if s == "ADJUSTMENT"@ {
        Some(LedgerEntryType::Adjustment)
    } else {
        None
    }
}

/// Reads a ledger entry kind from its stored name.
pub fn parse_entry_type(s: &str) -> (r: Result<LedgerEntryType, String>)
    ensures
        match entry_type_named(s@) {
            Some(x) => r == Ok::<LedgerEntryType, String>(x),
            None => r matches Err(e) && e@ == "entry_type inválido: "@ + s@,
        },
{
    if text_is(s, "DEPOSIT") {
        Ok(LedgerEntryType::Deposit)
    } else if text_is(s, "WITHDRAWAL") {
        Ok(LedgerEntryType::Withdrawal)
    } else if text_is(s, "TRADE_PNL") {
        Ok(LedgerEntryType::TradePnL)
    } else if text_is(s, "FUNDING") {
        Ok(LedgerEntryType::Funding)
    } else if text_is(s, "COMMISSION") {
        Ok(LedgerEntryType::Commission)
    } else if text_is(s, "TRANSFER") {
        Ok(LedgerEntryType::Transfer)
    } else if text_is(s, "ADJUSTMENT") {
        Ok(LedgerEntryType::Adjustment)
    } else {
        Err(with_label("entry_type inválido: ", s.to_string()))
    }
}

/// The lot side a stored name names.
pub open spec fn lot_side_named(s: Seq<char>) -> Option<PositionSide> {
    if s == "long"@ {
        Some(PositionSide::Long)
    } else if s == "short"@ {
        Some(PositionSide::Short)
    } else {
        None
    }
}

/// Reads a lot side from its stored name.
pub fn parse_lot_side(s: &str) -> (r: Result<PositionSide, String>)
    ensures
        match lot_side_named(s@) {
            Some(x) => r == Ok::<PositionSide, String>(x),
            None => r matches Err(e) && e@ == "side inválido: "@ + s@,
        },
{
    if text_is(s, "long") {
        Ok(PositionSide::Long)
    } else if text_is(s, "short") {
        Ok(PositionSide::Short)
    } else {
        Err(with_label("side inválido: ", s.to_string()))
    }
}

/// The acquisition kind a stored name names.
pub open spec fn acquisition_named(s: Seq<char>) -> Option<AcquisitionType> {
    if s == "trade"@ {
        Some(AcquisitionType::Trade)
    } else if s == "transfer"@ {
        Some(AcquisitionType::Transfer)
    } else if s == "airdrop"@ {
        Some(AcquisitionType::Airdrop)
    } else if s == "other"@ {
        Some(AcquisitionType::Other)
    } else {
        None
    }
}

/// Reads an acquisition kind from its stored name.
pub fn parse_acquisition_type(s: &str) -> (r: Result<AcquisitionType, String>)
    ensures
        match acquisition_named(s@) {
            Some(x) => r == Ok::<AcquisitionType, String>(x),
            None => r matches Err(e) && e@ == "acquisition_type inválido: "@ + s@,
        },
{
    if text_is(s, "trade") {
        Ok(AcquisitionType::Trade)
    } else if text_is(s, "transfer") {
        Ok(AcquisitionType::Transfer)
    } else if text_is(s, "airdrop") {
        Ok(AcquisitionType::Airdrop)
    } else if text_is(s, "other") {
        Ok(AcquisitionType::Other)
    } else {
        Err(with_label("acquisition_type inválido: ", s.to_string()))
    }
}

/// The data kind a stored name names, in lower case.
pub open spec fn data_type_named(s: Seq<char>) -> Option<SyncDataType> {
    if s == "trades"@ {
        Some(SyncDataType::Trades)
    } else if s == "orders"@ {
        Some(SyncDataType::Orders)
    } else if s == "positions"@ {
        Some(SyncDataType::Positions)
    } else if s == "balances"@ {
        Some(SyncDataType::Balances)
    } else if s == "deposits"@ {
        Some(SyncDataType::Deposits)
    } else if s == "withdrawals"@ {
        Some(SyncDataType::Withdrawals)
    } else if s == "funding"@ {
        Some(SyncDataType::Funding)
    } else {
        None
    }
}

/// Reads a data kind from its stored name.
pub fn parse_data_type(s: &str) -> (r: Result<SyncDataType, String>)
    ensures
        match data_type_named(s@) {
            Some(x) => r == Ok::<SyncDataType, String>(x),
            None => r matches Err(e) && e@ == "data_type inválido: "@ + s@,
        },
{
    if text_is(s, "trades") {
        Ok(SyncDataType::Trades)
    } else if text_is(s, "orders") {
        Ok(SyncDataType::Orders)
    } else if text_is(s, "positions") {
        Ok(SyncDataType::Positions)
    } else if text_is(s, "balances") {
        Ok(SyncDataType::Balances)
    } else if text_is(s, "deposits") {
        Ok(SyncDataType::Deposits)
    } else if text_is(s, "withdrawals") {
        Ok(SyncDataType::Withdrawals)
    } else if text_is(s, "funding") {
        Ok(SyncDataType::Funding)
    } else {
        Err(with_label("data_type inválido: ", s.to_string()))
    }
}

/// The sync status a stored name names.
pub open spec fn sync_status_named(s: Seq<char>) -> Option<SyncStatus> {
    if s == "pending"@ {
        Some(SyncStatus::Pending)
    } else if s == "in_progress"@ {
        Some(SyncStatus::InProgress)
    } else if s == "completed"@ {
        Some(SyncStatus::Completed)
    } else if s == "failed"@ {
        Some(SyncStatus::Failed)
    } else if s == "paused"@ {
        Some(SyncStatus::Paused)
    } else {
        None
    }
}

/// Reads a sync status from its stored name.
pub fn parse_sync_status(s: &str) -> (r: Result<SyncStatus, String>)
    ensures
        match sync_status_named(s@) {
            Some(x) => r == Ok::<SyncStatus, String>(x),
            None => r matches Err(e) && e@ == "status inválido: "@ + s@,
        },
{
    if text_is(s, "pending") {
        Ok(SyncStatus::Pending)
    } else if text_is(s, "in_progress") {
        Ok(SyncStatus::InProgress)
    } else if text_is(s, "completed") {
        Ok(SyncStatus::Completed)
    } else if text_is(s, "failed") {
        Ok(SyncStatus::Failed)
    } else if text_is(s, "paused") {
        Ok(SyncStatus::Paused)
    } else {
        Err(with_label("status inválido: ", s.to_string()))
    }
}

/// The stored name of a lot side.
pub open spec fn lot_side_text(s: PositionSide) -> Seq<char> {
    match s {
        PositionSide::Long => "long"@,
        PositionSide::Short => "short"@,
    }
}

/// The stored name of a lot side.
pub fn lot_side_to_string(s: PositionSide) -> (r: String)
    ensures
        r@ == lot_side_text(s),
{
    match s {
        PositionSide::Long => "long".to_string(),
        PositionSide::Short => "short".to_string(),
    }
}

/// The stored name of an acquisition kind.
pub open spec fn acquisition_text(a: AcquisitionType) -> Seq<char> {
    match a {
        AcquisitionType::Trade => "trade"@,
        AcquisitionType::Transfer => "transfer"@,
        AcquisitionType::Airdrop => "airdrop"@,
        AcquisitionType::Other => "other"@,
    }
}

/// The stored name of an acquisition kind.
pub fn acquisition_type_to_string(a: AcquisitionType) -> (r: String)
    ensures
        r@ == acquisition_text(a),
{
    match a {
        AcquisitionType::Trade => "trade".to_string(),
        AcquisitionType::Transfer => "transfer".to_string(),
        AcquisitionType::Airdrop => "airdrop".to_string(),
        AcquisitionType::Other => "other".to_string(),
    }
}

/// The stored name of a sync status.
pub open spec fn sync_status_text(s: SyncStatus) -> Seq<char> {
    match s {
        SyncStatus::Pending => "pending"@,
        SyncStatus::InProgress => "in_progress"@,
        SyncStatus::Completed => "completed"@,
        SyncStatus::Failed => "failed"@,
        SyncStatus::Paused => "paused"@,
    }
}

/// The stored name of a sync status.
pub fn sync_status_to_string(s: SyncStatus) -> (r: String)
    ensures
        r@ == sync_status_text(s),
{
    match s {
        SyncStatus::Pending => "pending".to_string(),
        SyncStatus::InProgress => "in_progress".to_string(),
        SyncStatus::Completed => "completed".to_string(),
        SyncStatus::Failed => "failed".to_string(),
        SyncStatus::Paused => "paused".to_string(),
    }
}

/// Every stored name written for a lot side, an acquisition kind, a sync
/// status, an exchange, a ledger entry kind or a data kind reads back as
/// the value written.
pub proof fn law_stored_names_round_trip(
    side: PositionSide,
    acquisition: AcquisitionType,
    status: SyncStatus,
    exchange: Exchange,
    entry: LedgerEntryType,
    data: SyncDataType,
)
    ensures
        lot_side_named(lot_side_text(side)) == Some(side),
        acquisition_named(acquisition_text(acquisition)) == Some(acquisition),
        sync_status_named(sync_status_text(status)) == Some(status),
        exchange_named(crate::ws_manager::exchange_name(exchange)) == Some(exchange),
        entry_type_named(crate::ledger_service::entry_type_name(entry)) == Some(entry),
        data_type_named(crate::sync_engine::data_type_name(data)) == Some(data),
{
    reveal_strlit("long");
    reveal_strlit("short");
    reveal_strlit("trade");
    reveal_strlit("transfer");
    reveal_strlit("airdrop");
    reveal_strlit("other");
    reveal_strlit("pending");
    reveal_strlit("in_progress");
    reveal_strlit("completed");
    reveal_strlit("failed");
    reveal_strlit("paused");
    reveal_strlit("Binance");
    reveal_strlit("Kraken");
    reveal_strlit("DEPOSIT");
    reveal_strlit("WITHDRAWAL");
    reveal_strlit("TRADE_PNL");
    reveal_strlit("FUNDING");
    reveal_strlit("COMMISSION");
    reveal_strlit("TRANSFER");
    reveal_strlit("ADJUSTMENT");
    reveal_strlit("trades");
    reveal_strlit("orders");
    reveal_strlit("positions");
    reveal_strlit("balances");
    reveal_strlit("deposits");
    reveal_strlit("withdrawals");
    reveal_strlit("funding");
    assert("long"@.len() == 4);
    assert("short"@.len() == 5);
    assert("trade"@.len() == 5);
    assert("transfer"@.len() == 8);
    assert("airdrop"@.len() == 7);
    assert("other"@.len() == 5);
    assert("trade"@[0] != "other"@[0]);
    assert("pending"@.len() == 7);
    assert("in_progress"@.len() == 11);
    assert("completed"@.len() == 9);
    assert("failed"@.len() == 6);
    assert("paused"@.len() == 6);
    assert("failed"@[0] != "paused"@[0]);
    assert("Binance"@.len() == 7);
    assert("Kraken"@.len() == 6);
    assert("DEPOSIT"@.len() == 7);
    assert("WITHDRAWAL"@.len() == 10);
    assert("TRADE_PNL"@.len() == 9);
    assert("FUNDING"@.len() == 7);
    assert("COMMISSION"@.len() == 10);
    assert("TRANSFER"@.len() == 8);
    assert("ADJUSTMENT"@.len() == 10);
    assert("DEPOSIT"@[0] != "FUNDING"@[0]);
    assert("WITHDRAWAL"@[0] != "COMMISSION"@[0]);
    assert("WITHDRAWAL"@[0] != "ADJUSTMENT"@[0]);
    assert("COMMISSION"@[0] != "ADJUSTMENT"@[0]);
    assert("trades"@.len() == 6);
    assert("orders"@.len() == 6);
    assert("positions"@.len() == 9);
    assert("balances"@.len() == 8);
    assert("deposits"@.len() == 8);
    assert("withdrawals"@.len() == 11);
    assert("funding"@.len() == 7);
    assert("trades"@[0] != "orders"@[0]);
    assert("balances"@[0] != "deposits"@[0]);
}

// ---------------------------------------------------------------------------
// Stored ledger entries.

/// A ledger entry as the `ledger_entries` table stores it.  The account,
/// the external id and the metadata are kept by the table only.
#[derive(Debug, Clone)]
pub struct LedgerEntryRecord {
    pub id: String,
    pub exchange_id: String,
    pub account_id: Option<String>,
    pub entry_type: String,
    pub asset: String,
    pub amount: String,
    pub balance_after: String,
    pub reference_type: Option<String>,
    pub reference_id: Option<String>,
    pub external_id: Option<String>,
    pub description: Option<String>,
    pub metadata: Option<String>,
    pub timestamp: i64,
    pub created_at: i64,
}

/// The message of the first field of a stored ledger entry that cannot be
/// read, in the order of the fields.
pub open spec fn ledger_entry_record_error(row: LedgerEntryRecord) -> Option<Seq<char>> {
    or_else(name_err(exchange_named(row.exchange_id@), "exchange_id inválido: "@, row.exchange_id@),
    or_else(name_err(entry_type_named(row.entry_type@), "entry_type inválido: "@, row.entry_type@),
    or_else(dec_err(row.amount@, "amount inválido: "@),
    or_else(dec_err(row.balance_after@, "balance_after inválido: "@),
    or_else(secs_err(row.timestamp, "timestamp inválido"@),
    secs_err(row.created_at, "created_at inválido"@))))))
}

/// A ledger entry holds what its stored row says.
pub open spec fn ledger_entry_read(row: LedgerEntryRecord, x: LedgerEntry) -> bool {
    &&& x.id == row.id
    &&& exchange_named(row.exchange_id@) == Some(x.exchange)
    &&& entry_type_named(row.entry_type@) == Some(x.entry_type)
    &&& x.asset == row.asset
    &&& decimal_from_text(row.amount@) == Some(x.amount.repr())
    &&& decimal_from_text(row.balance_after@) == Some(x.balance_after.repr())
    &&& x.reference_id == row.reference_id
    &&& x.reference_type == row.reference_type
    &&& x.description == row.description
    &&& secs_instant(row.timestamp) == Some(x.timestamp)
    &&& secs_instant(row.created_at) == Some(x.created_at)
}

/// Reads a ledger entry back from its stored row: the message of the first
/// field that cannot be read, or the entry.
pub fn ledger_entry_from_record(row: LedgerEntryRecord) -> (r: Result<LedgerEntry, String>)
    ensures
        match ledger_entry_record_error(row) {
            Some(m) => r matches Err(e) && e@ == m,
            None => r matches Ok(x) && ledger_entry_read(row, x),
        },
{
    let exchange = match parse_exchange_name(row.exchange_id.as_str(), "exchange_id inválido: ") {
        Ok(v) => v,
        Err(e) => return Err(e),
    };
    let entry_type = match parse_entry_type(row.entry_type.as_str()) {
        Ok(v) => v,
        Err(e) => return Err(e),
    };
    let amount = match read_dec(row.amount.as_str(), "amount inválido: ") {
        Ok(v) => v,
        Err(e) => return Err(e),
    };
    let balance_after = match read_dec(row.balance_after.as_str(), "balance_after inválido: ") {
        Ok(v) => v,
        Err(e) => return Err(e),
    };
    let timestamp = match read_secs(row.timestamp, "timestamp inválido") {
        Ok(v) => v,
        Err(e) => return Err(e),
    };
    let created_at = match read_secs(row.created_at, "created_at inválido") {
        Ok(v) => v,
        Err(e) => return Err(e),
    };
    Ok(
        LedgerEntry {
            id: row.id,
            exchange,
            entry_type,
            asset: row.asset,
            amount,
            balance_after,
            reference_id: row.reference_id,
            reference_type: row.reference_type,
            description: row.description,
            timestamp,
            created_at,
        },
    )
}

// ---------------------------------------------------------------------------
// Stored tax lots.

/// A tax lot as the `cost_basis_lots` table stores it.
#[derive(Debug, Clone)]
pub struct TaxLotRecord {
    pub id: String,
    pub exchange_id: String,
    pub symbol: String,
    pub side: String,
    pub quantity: String,
    pub remaining_quantity: String,
    pub cost_per_unit: String,
    pub total_cost: String,
    pub acquisition_type: String,
    pub acquisition_date: i64,
    pub reference_id: String,
    pub is_closed: i32,
}

/// The message of the first field of a stored tax lot that cannot be read,
/// in the order of the fields.
pub open spec fn tax_lot_record_error(row: TaxLotRecord) -> Option<Seq<char>> {
    or_else(name_err(exchange_named(row.exchange_id@), "exchange_id inválido: "@, row.exchange_id@),
    or_else(name_err(lot_side_named(row.side@), "side inválido: "@, row.side@),
    or_else(name_err(acquisition_named(row.acquisition_type@), "acquisition_type inválido: "@, row.acquisition_type@),
    or_else(dec_err(row.quantity@, "quantity inválido: "@),
    or_else(dec_err(row.remaining_quantity@, "remaining_quantity inválido: "@),
    or_else(dec_err(row.cost_per_unit@, "cost_per_unit inválido: "@),
    or_else(dec_err(row.total_cost@, "total_cost inválido: "@),
    secs_err(row.acquisition_date, "acquisition_date inválido"@))))))))
}

/// A tax lot holds what its stored row says; any nonzero flag closes it.
pub open spec fn tax_lot_read(row: TaxLotRecord, l: TaxLot) -> bool {
    &&& l.id == row.id
    &&& exchange_named(row.exchange_id@) == Some(l.exchange)
    &&& l.symbol == row.symbol
    &&& lot_side_named(row.side@) == Some(l.side)
    &&& acquisition_named(row.acquisition_type@) == Some(l.acquisition_type)
    &&& decimal_from_text(row.quantity@) == Some(l.acquired_quantity.repr())
    &&& decimal_from_text(row.remaining_quantity@) == Some(l.remaining_quantity.repr())
    &&& decimal_from_text(row.cost_per_unit@) == Some(l.cost_per_unit.repr())
    &&& decimal_from_text(row.total_cost@) == Some(l.total_cost.repr())
    &&& secs_instant(row.acquisition_date) == Some(l.acquired_at)
    &&& l.trade_id == row.reference_id
    &&& l.is_closed == (row.is_closed != 0)
}

/// Reads a tax lot back from its stored row: the message of the first
/// field that cannot be read, or the lot.
pub fn tax_lot_from_record(row: TaxLotRecord) -> (r: Result<TaxLot, String>)
    ensures
        match tax_lot_record_error(row) {
            Some(m) => r matches Err(e) && e@ == m,
            None => r matches Ok(l) && tax_lot_read(row, l),
        },
{
    let exchange = match parse_exchange_name(row.exchange_id.as_str(), "exchange_id inválido: ") {
        Ok(v) => v,
        Err(e) => return Err(e),
    };
    let side = match parse_lot_side(row.side.as_str()) {
        Ok(v) => v,
        Err(e) => return Err(e),
    };
    let acquisition_type = match parse_acquisition_type(row.acquisition_type.as_str()) {
        Ok(v) => v,
        Err(e) => return Err(e),
    };
    let quantity = match read_dec(row.quantity.as_str(), "quantity inválido: ") {
        Ok(v) => v,
        Err(e) => return Err(e),
    };
    let remaining = match read_dec(row.remaining_quantity.as_str(), "remaining_quantity inválido: ") {
        Ok(v) => v,
        Err(e) => return Err(e),
    };
    let cost_per_unit = match read_dec(row.cost_per_unit.as_str(), "cost_per_unit inválido: ") {
        Ok(v) => v,
        Err(e) => return Err(e),
    };
    let total_cost = match read_dec(row.total_cost.as_str(), "total_cost inválido: ") {
        Ok(v) => v,
        Err(e) => return Err(e),
    };
    let acquired_at = match read_secs(row.acquisition_date, "acquisition_date inválido") {
        Ok(v) => v,
        Err(e) => return Err(e),
    };
    Ok(
        TaxLot {
            id: row.id,
            exchange,
            symbol: row.symbol,
            side,
            acquired_quantity: quantity,
            remaining_quantity: remaining,
            cost_per_unit,
            total_cost,
            acquired_at,
            acquisition_type,
            trade_id: row.reference_id,
            is_closed: row.is_closed != 0,
        },
    )
}

// ---------------------------------------------------------------------------
// Stored candles.

/// A candle as the `candles` table stores it, the prices and volumes given
/// as the texts of the stored numbers.
#[derive(Debug, Clone)]
pub struct CandleRecord {
    pub open_time: String,
    pub close_time: String,
    pub open: String,
    pub high: String,
    pub low: String,
    pub close: String,
    pub volume: String,
    pub quote_volume: Option<String>,
    pub trade_count: Option<i32>,
}

/// A stored number's text read as a decimal, or zero when it is not one.
pub open spec fn dec_or_zero(text: Seq<char>) -> (int, nat) {
    match decimal_from_text(text) {
        Some(v) => v,
        None => (0, 0),
    }
}

/// The message of the first instant of a stored candle that cannot be
/// read: its opening, then its closing.
pub open spec fn candle_record_error(row: CandleRecord) -> Option<Seq<char>> {
    match rfc3339_from_text(row.open_time@) {
        None => Some("open_time inválido: "@ + rfc3339_error_text(row.open_time@)),
        Some(_) => match rfc3339_from_text(row.close_time@) {
            None => Some("close_time inválido: "@ + rfc3339_error_text(row.close_time@)),
            Some(_) => None,
        },
    }
}

/// A candle holds what its stored row says; a number that is not a
/// decimal reads as zero.
pub open spec fn candle_read(row: CandleRecord, c: Candle) -> bool {
    &&& rfc3339_from_text(row.open_time@) == Some(c.open_time)
    &&& rfc3339_from_text(row.close_time@) == Some(c.close_time)
    &&& c.open.repr() == dec_or_zero(row.open@)
    &&& c.high.repr() == dec_or_zero(row.high@)
    &&& c.low.repr() == dec_or_zero(row.low@)
    &&& c.close.repr() == dec_or_zero(row.close@)
    &&& c.volume.repr() == dec_or_zero(row.volume@)
    &&& match row.quote_volume {
        Some(t) => c.quote_volume is Some && c.quote_volume.unwrap().repr() == dec_or_zero(t@),
        None => c.quote_volume is None,
    }
    &&& c.trade_count == match row.trade_count {
        Some(n) => Some(n as u32),
        None => None,
    }
}

fn dec_or_zero_of(text: &str) -> (r: Dec)
    ensures
        r.repr() == dec_or_zero(text@),
{
    match Dec::parse(text) {
        Some(d) => d,
        None => Dec::zero(),
    }
}

/// Reads a candle back from its stored row: the message of the first
/// instant that cannot be read, or the candle.
pub fn candle_from_record(row: CandleRecord) -> (r: Result<Candle, String>)
    ensures
        match candle_record_error(row) {
            Some(m) => r matches Err(e) && e@ == m,
            None => r matches Ok(c) && candle_read(row, c),
        },
{
    let open_time = match parse_rfc3339(row.open_time.as_str()) {
        Ok(t) => t,
        Err(e) => return Err(with_label("open_time inválido: ", e)),
    };
    let close_time = match parse_rfc3339(row.close_time.as_str()) {
        Ok(t) => t,
        Err(e) => return Err(with_label("close_time inválido: ", e)),
    };
    let quote_volume = match &row.quote_volume {
        Some(t) => Some(dec_or_zero_of(t.as_str())),
        None => None,
    };
    let trade_count = match row.trade_count {
        Some(n) => Some(n as u32),
        None => None,
    };
    Ok(
        Candle {
            open: dec_or_zero_of(row.open.as_str()),
            high: dec_or_zero_of(row.high.as_str()),
            low: dec_or_zero_of(row.low.as_str()),
            close: dec_or_zero_of(row.close.as_str()),
            volume: dec_or_zero_of(row.volume.as_str()),
            quote_volume,
            trade_count,
            open_time,
            close_time,
        },
    )
}

// ---------------------------------------------------------------------------
// Stored sync states.

/// A sync state as the `sync_state` table stores it.
#[derive(Debug, Clone)]
pub struct SyncStateRecord {
    pub id: String,
    pub exchange_id: String,
    pub data_type: String,
    pub last_sync_id: Option<String>,
    pub last_sync_timestamp: Option<i64>,
    pub cursor: Option<String>,
    pub sync_start_time: Option<i64>,
    pub sync_end_time: Option<i64>,
    pub status: String,
    pub error_message: Option<String>,
    pub retry_count: i32,
    pub total_records: Option<i64>,
    pub processed_records: Option<i64>,
    pub last_success_at: Option<i64>,
    pub updated_at: i64,
}

/// The message of the first field of a stored sync state that cannot be
/// read, in the order of the fields.
pub open spec fn sync_state_record_error(row: SyncStateRecord) -> Option<Seq<char>> {
    or_else(name_err(exchange_named(row.exchange_id@), "exchange_id inválido: "@, row.exchange_id@),
    or_else(name_err(data_type_named(row.data_type@), "data_type inválido: "@, row.data_type@),
    or_else(name_err(sync_status_named(row.status@), "status inválido: "@, row.status@),
    secs_err(row.updated_at, "updated_at inválido"@))))
}

/// A sync state holds what its stored row says: an optional instant out of
/// range reads as none; the sync started when stored, or at its last update
/// when no start is known; the items synced are the records processed, none
/// counting as zero (a negative count keeps its low bits).
pub open spec fn sync_state_read(row: SyncStateRecord, st: SyncState) -> bool {
    &&& exchange_named(row.exchange_id@) == Some(st.exchange)
    &&& data_type_named(row.data_type@) == Some(st.data_type)
    &&& sync_status_named(row.status@) == Some(st.status)
    &&& st.last_timestamp == opt_secs_instant(row.last_sync_timestamp)
    &&& st.last_id == row.last_sync_id
    &&& st.items_synced == match row.processed_records {
        Some(n) => n as u64,
        None => 0u64,
    }
    &&& secs_instant(row.updated_at) == Some(st.updated_at)
    &&& st.started_at == match opt_secs_instant(row.sync_start_time) {
        Some(t) => t,
        None => st.updated_at,
    }
    &&& st.error == row.error_message
}

/// Reads a sync state back from its stored row: the message of the first
/// field that cannot be read, or the state.
pub fn sync_state_from_record(row: SyncStateRecord) -> (r: Result<SyncState, String>)
    ensures
        match sync_state_record_error(row) {
            Some(m) => r matches Err(e) && e@ == m,
            None => r matches Ok(st) && sync_state_read(row, st),
        },
{
    let exchange = match parse_exchange_name(row.exchange_id.as_str(), "exchange_id inválido: ") {
        Ok(v) => v,
        Err(e) => return Err(e),
    };
    let data_type = match parse_data_type(row.data_type.as_str()) {
        Ok(v) => v,
        Err(e) => return Err(e),
    };
    let status = match parse_sync_status(row.status.as_str()) {
        Ok(v) => v,
        Err(e) => return Err(e),
    };
    let updated_at = match read_secs(row.updated_at, "updated_at inválido") {
        Ok(v) => v,
        Err(e) => return Err(e),
    };
    let started_at = match opt_instant_of_secs(row.sync_start_time) {
        Some(t) => t,
        None => updated_at,
    };
    let items_synced: u64 = match row.processed_records {
        Some(n) => n as u64,
        None => 0,
    };
    Ok(
        SyncState {
            exchange,
            data_type,
            status,
            last_timestamp: opt_instant_of_secs(row.last_sync_timestamp),
            last_id: row.last_sync_id,
            items_synced,
            started_at,
            updated_at,
            error: row.error_message,
        },
    )
}

// ---------------------------------------------------------------------------
// Stored symbols.

/// A tradable symbol of an exchange.  Its kind and status are kept as the
/// texts the table stores.
#[derive(Debug, Clone)]
pub struct Symbol {
    pub id: i64,
    pub exchange_id: ExchangeId,
    pub symbol: String,
    pub base_asset: String,
    pub quote_asset: String,
    pub symbol_type: String,
    pub status: String,
    pub price_precision: u8,
    pub quantity_precision: u8,
    pub quote_precision: u8,
    pub min_quantity: Dec,
    pub max_quantity: Option<Dec>,
    pub min_notional: Dec,
    pub max_notional: Option<Dec>,
    pub tick_size: Dec,
    pub step_size: Dec,
    pub contract_type: Option<String>,
    pub contract_size: Option<Dec>,
    pub margin_asset: Option<String>,
    pub maintenance_margin_rate: Option<Dec>,
    pub max_leverage: Option<u32>,
    pub maker_fee: Dec,
    pub taker_fee: Dec,
    /// Extra data, as JSON text; stored text that is not JSON is dropped.
    pub metadata: Option<String>,
    pub created_at: i64,
    pub updated_at: i64,
}

/// The exchange a symbol row names (the symbols table knows no Kraken).
pub open spec fn symbol_exchange_of(s: Seq<char>) -> Option<ExchangeId> {
    if s == "binance_futures"@ {
        Some(ExchangeId::BinanceFutures)
    } else if s == "binance_spot"@ {
        Some(ExchangeId::BinanceSpot)
    } else if s == "okx"@ {
        Some(ExchangeId::Okx)
    } else if s == "bybit"@ {
        Some(ExchangeId::Bybit)
    } else if s == "paper"@ {
        Some(ExchangeId::Paper)
    } else {
        None
    }
}

fn parse_symbol_exchange(s: &str) -> (r: Result<ExchangeId, String>)
    ensures
        match symbol_exchange_of(s@) {
            Some(x) => r == Ok::<ExchangeId, String>(x),
            None => r matches Err(e) && e@ == "Exchange ID inválido: "@ + s@,
        },
{
    if text_is(s, "binance_futures") {
        Ok(ExchangeId::BinanceFutures)
    } else if text_is(s, "binance_spot") {
        Ok(ExchangeId::BinanceSpot)
    } else if text_is(s, "okx") {
        Ok(ExchangeId::Okx)
    } else if text_is(s, "bybit") {
        Ok(ExchangeId::Bybit)
    } else if text_is(s, "paper") {
        Ok(ExchangeId::Paper)
    } else {
        Err(with_label("Exchange ID inválido: ", s.to_string()))
    }
}

/// The instant a stored date text gives: RFC 3339, or else
/// `%Y-%m-%d %H:%M:%S` in UTC.
pub open spec fn stored_datetime(text: Seq<char>) -> Option<i64> {
    match rfc3339_from_text(text) {
        Some(t) => Some(t),
        None => naive_datetime_from_text(text),
    }
}

/// The message when a stored date text is in neither form: the error of
/// the second.
pub open spec fn datetime_err(text: Seq<char>) -> Option<Seq<char>> {
    match stored_datetime(text) {
        Some(_) => None,
        None => Some("Data inválida: "@ + naive_datetime_error_text(text)),
    }
}

fn read_datetime(text: &str) -> (r: Result<i64, String>)
    ensures
        match datetime_err(text@) {
            Some(m) => r matches Err(e) && e@ == m,
            None => r == Ok::<i64, String>(stored_datetime(text@).unwrap()),
        },
{
    match parse_rfc3339(text) {
        Ok(t) => Ok(t),
        Err(_) => match parse_naive_datetime(text) {
            Ok(t) => Ok(t),
            Err(e) => Err(with_label("Data inválida: ", e)),
        },
    }
}

/// The metadata a stored text gives: the text when it is JSON.
pub open spec fn json_text_or_none(text: Option<String>) -> Option<String> {
    match text {
        Some(t) => if json_parse(t@) is Some {
            Some(t)
        } else {
            None
        },
        None => None,
    }
}

fn keep_json(text: Option<String>) -> (r: Option<String>)
    ensures
        r == json_text_or_none(text),
{
    match text {
        Some(t) => match parse_json_or_error(t.as_str()) {
            Ok(_) => Some(t),
            Err(_) => None,
        },
        None => None,
    }
}

/// The message of the first field of a stored symbol that cannot be read,
/// in the order of the fields.
pub open spec fn symbol_record_error(row: SymbolRow) -> Option<Seq<char>> {
    or_else(name_err(symbol_exchange_of(row.exchange_id@), "Exchange ID inválido: "@, row.exchange_id@),
    or_else(dec_err(row.min_quantity@, "Decimal inválido: "@),
    or_else(opt_dec_err(row.max_quantity, "Decimal inválido: "@),
    or_else(dec_err(row.min_notional@, "Decimal inválido: "@),
    or_else(opt_dec_err(row.max_notional, "Decimal inválido: "@),
    or_else(dec_err(row.tick_size@, "Decimal inválido: "@),
    or_else(dec_err(row.step_size@, "Decimal inválido: "@),
    or_else(opt_dec_err(row.contract_size, "Decimal inválido: "@),
    or_else(opt_dec_err(row.maintenance_margin_rate, "Decimal inválido: "@),
    or_else(dec_err(row.maker_fee@, "Decimal inválido: "@),
    or_else(dec_err(row.taker_fee@, "Decimal inválido: "@),
    or_else(datetime_err(row.created_at@),
    datetime_err(row.updated_at@)))))))))))))
}

/// A symbol holds what its stored row says; the precisions keep the low
/// byte, the leverage the low 32 bits of the stored number.
pub open spec fn symbol_read(row: SymbolRow, x: Symbol) -> bool {
    &&& x.id == row.id
    &&& symbol_exchange_of(row.exchange_id@) == Some(x.exchange_id)
    &&& x.symbol == row.symbol
    &&& x.base_asset == row.base_asset
    &&& x.quote_asset == row.quote_asset
    &&& x.symbol_type == row.symbol_type
    &&& x.status == row.status
    &&& x.price_precision == row.price_precision as u8
    &&& x.quantity_precision == row.quantity_precision as u8
    &&& x.quote_precision == row.quote_precision as u8
    &&& decimal_from_text(row.min_quantity@) == Some(x.min_quantity.repr())
    &&& opt_dec_is(row.max_quantity, x.max_quantity)
    &&& decimal_from_text(row.min_notional@) == Some(x.min_notional.repr())
    &&& opt_dec_is(row.max_notional, x.max_notional)
    &&& decimal_from_text(row.tick_size@) == Some(x.tick_size.repr())
    &&& decimal_from_text(row.step_size@) == Some(x.step_size.repr())
    &&& x.contract_type == row.contract_type
    &&& opt_dec_is(row.contract_size, x.contract_size)
    &&& x.margin_asset == row.margin_asset
    &&& opt_dec_is(row.maintenance_margin_rate, x.maintenance_margin_rate)
    &&& x.max_leverage == match row.max_leverage {
        Some(v) => Some(v as u32),
        None => None,
    }
    &&& decimal_from_text(row.maker_fee@) == Some(x.maker_fee.repr())
    &&& decimal_from_text(row.taker_fee@) == Some(x.taker_fee.repr())
    &&& x.metadata == json_text_or_none(row.metadata)
    &&& stored_datetime(row.created_at@) == Some(x.created_at)
    &&& stored_datetime(row.updated_at@) == Some(x.updated_at)
}

/// Reads a symbol back from its stored row: the message of the first field
/// that cannot be read, or the symbol.
pub fn symbol_from_record(row: SymbolRow) -> (r: Result<Symbol, String>)
    ensures
        match symbol_record_error(row) {
            Some(m) => r matches Err(e) && e@ == m,
            None => r matches Ok(x) && symbol_read(row, x),
        },
{
    let exchange_id = match parse_symbol_exchange(row.exchange_id.as_str()) {
        Ok(v) => v,
        Err(e) => return Err(e),
    };
    let label = "Decimal inválido: ";
    let min_quantity = match read_dec(row.min_quantity.as_str(), label) {
        Ok(v) => v,
        Err(e) => return Err(e),
    };
    let max_quantity = match read_opt_dec(&row.max_quantity, label) {
        Ok(v) => v,
        Err(e) => return Err(e),
    };
    let min_notional = match read_dec(row.min_notional.as_str(), label) {
        Ok(v) => v,
        Err(e) => return Err(e),
    };
    let max_notional = match read_opt_dec(&row.max_notional, label) {
        Ok(v) => v,
        Err(e) => return Err(e),
    };
    let tick_size = match read_dec(row.tick_size.as_str(), label) {
        Ok(v) => v,
        Err(e) => return Err(e),
    };
    let step_size = match read_dec(row.step_size.as_str(), label) {
        Ok(v) => v,
        Err(e) => return Err(e),
    };
    let contract_size = match read_opt_dec(&row.contract_size, label) {
        Ok(v) => v,
        Err(e) => return Err(e),
    };
    let maintenance_margin_rate = match read_opt_dec(&row.maintenance_margin_rate, label) {
        Ok(v) => v,
        Err(e) => return Err(e),
    };
    let maker_fee = match read_dec(row.maker_fee.as_str(), label) {
        Ok(v) => v,
        Err(e) => return Err(e),
    };
    let taker_fee = match read_dec(row.taker_fee.as_str(), label) {
        Ok(v) => v,
        Err(e) => return Err(e),
    };
    let created_at = match read_datetime(row.created_at.as_str()) {
        Ok(v) => v,
        Err(e) => return Err(e),
    };
    let updated_at = match read_datetime(row.updated_at.as_str()) {
        Ok(v) => v,
        Err(e) => return Err(e),
    };
    let max_leverage = match row.max_leverage {
        Some(v) => Some(v as u32),
        None => None,
    };
    Ok(
        Symbol {
            id: row.id,
            exchange_id,
            symbol: row.symbol,
            base_asset: row.base_asset,
            quote_asset: row.quote_asset,
            symbol_type: row.symbol_type,
            status: row.status,
            price_precision: row.price_precision as u8,
            quantity_precision: row.quantity_precision as u8,
            quote_precision: row.quote_precision as u8,
            min_quantity,
            max_quantity,
            min_notional,
            max_notional,
            tick_size,
            step_size,
            contract_type: row.contract_type,
            contract_size,
            margin_asset: row.margin_asset,
            maintenance_margin_rate,
            max_leverage,
            maker_fee,
            taker_fee,
            metadata: keep_json(row.metadata),
            created_at,
            updated_at,
        },
    )
}

// ---------------------------------------------------------------------------
// Stored exchanges.

/// An exchange the system knows.  Its kind and status are kept as the
/// texts the table stores.
#[derive(Debug, Clone)]
pub struct ExchangeInfo {
    pub id: ExchangeId,
    pub name: String,
    pub exchange_type: String,
    pub api_base_url: Option<String>,
    pub ws_base_url: Option<String>,
    pub status: String,
    pub rate_limit_requests: u32,
    pub rate_limit_orders: u32,
    pub supported_features: Vec<String>,
    /// Extra data, as JSON text; stored text that is not JSON is dropped.
    pub metadata: Option<String>,
    pub created_at: i64,
    pub updated_at: i64,
}

/// The texts of a JSON array of texts, or none when the value is not one.
pub open spec fn texts_in(items: Seq<JsonValue>) -> Option<Seq<String>>
    decreases items.len(),
{
    if items.len() == 0 {
        Some(Seq::empty())
    } else {
        match (texts_in(items.drop_last()), items.last()) {
            (Some(rest), JsonValue::Text(t)) => Some(rest.push(t)),
            _ => None,
        }
    }
}

/// The features a stored JSON text lists: its texts when it is an array of
/// texts, and none otherwise.
pub open spec fn features_of(text: Option<String>) -> Seq<String> {
    match text {
        Some(t) => match json_parse(t@) {
            Some(JsonValue::Array(items)) => match texts_in(items@) {
                Some(ts) => ts,
                None => Seq::empty(),
            },
            _ => Seq::empty(),
        },
        None => Seq::empty(),
    }
}

fn read_features(text: &Option<String>) -> (r: Vec<String>)
    ensures
        r@ == features_of(*text),
{
    let t = match text {
        Some(t) => t,
        None => return Vec::new(),
    };
    let v = match parse_json_or_error(t.as_str()) {
        Ok(v) => v,
        Err(_) => return Vec::new(),
    };
    match &v {
        JsonValue::Array(items) => {
            let mut out: Vec<String> = Vec::new();
            let mut i: usize = 0;
            assert(items@.take(0) =~= Seq::<JsonValue>::empty());
            while i < items.len()
                invariant
                    i <= items@.len(),
                    texts_in(items@.take(i as int)) == Some(out@),
                    *text == Some(*t),
                    json_parse(t@) == Some(v),
                    v == JsonValue::Array(*items),
                decreases items@.len() - i,
            {
                let ghost t1 = items@.take(i as int + 1);
                assert(t1.drop_last() =~= items@.take(i as int));
                match &items[i] {
                    JsonValue::Text(s) => {
                        out.push(s.clone());
                    },
                    _ => {
                        proof {
                            lemma_texts_in_extend(items@, i as int);
                        }
                        return Vec::new();
                    },
                }
                i += 1;
            }
            assert(items@.take(items@.len() as int) =~= items@);
            out
        },
        _ => Vec::new(),
    }
}

/// An array whose element `i` is no text holds no list of texts.
proof fn lemma_texts_in_extend(items: Seq<JsonValue>, i: int)
    requires
        0 <= i < items.len(),
        !(items[i] is Text),
    ensures
        texts_in(items) is None,
    decreases items.len(),
{
    if i < items.len() - 1 {
        lemma_texts_in_extend(items.drop_last(), i);
    }
}

/// The message of the first field of a stored exchange that cannot be
/// read, in the order of the fields.
pub open spec fn exchange_record_error(row: ExchangeRow) -> Option<Seq<char>> {
    or_else(name_err(symbol_exchange_of(row.id@), "Exchange ID inválido: "@, row.id@),
    or_else(datetime_err(row.created_at@),
    datetime_err(row.updated_at@)))
}

/// An exchange holds what its stored row says; the rate limits keep the
/// low 32 bits of the stored numbers.
pub open spec fn exchange_read(row: ExchangeRow, x: ExchangeInfo) -> bool {
    &&& symbol_exchange_of(row.id@) == Some(x.id)
    &&& x.name == row.name
    &&& x.exchange_type == row.exchange_type
    &&& x.api_base_url == row.api_base_url
    &&& x.ws_base_url == row.ws_base_url
    &&& x.status == row.status
    &&& x.rate_limit_requests == row.rate_limit_requests as u32
    &&& x.rate_limit_orders == row.rate_limit_orders as u32
    &&& x.supported_features@ == features_of(row.supported_features)
    &&& x.metadata == json_text_or_none(row.metadata)
    &&& stored_datetime(row.created_at@) == Some(x.created_at)
    &&& stored_datetime(row.updated_at@) == Some(x.updated_at)
}

/// Reads an exchange back from its stored row: the message of the first
/// field that cannot be read, or the exchange.
pub fn exchange_from_record(row: ExchangeRow) -> (r: Result<ExchangeInfo, String>)
    ensures
        match exchange_record_error(row) {
            Some(m) => r matches Err(e) && e@ == m,
            None => r matches Ok(x) && exchange_read(row, x),
        },
{
    let id = match parse_symbol_exchange(row.id.as_str()) {
        Ok(v) => v,
        Err(e) => return Err(e),
    };
    let created_at = match read_datetime(row.created_at.as_str()) {
        Ok(v) => v,
        Err(e) => return Err(e),
    };
    let updated_at = match read_datetime(row.updated_at.as_str()) {
        Ok(v) => v,
        Err(e) => return Err(e),
    };
    let supported_features = read_features(&row.supported_features);
    Ok(
        ExchangeInfo {
            id,
            name: row.name,
            exchange_type: row.exchange_type,
            api_base_url: row.api_base_url,
            ws_base_url: row.ws_base_url,
            status: row.status,
            rate_limit_requests: row.rate_limit_requests as u32,
            rate_limit_orders: row.rate_limit_orders as u32,
            supported_features,
            metadata: keep_json(row.metadata),
            created_at,
            updated_at,
        },
    )
}

} // verus!
