//! Ledger: the entries that trades, deposits, withdrawals and funding
//! payments make, running balances, summaries and recalculation.
//!
//! The entries live in a store that the application owns; it looks up
//! whether a record was already booked and the current balance, and the
//! entries are built here from those answers.  Instants are milliseconds
//! since the Unix epoch.
use crate::buckets::{key_amounts, keys_of, sums_fit, totals_by_key};
use crate::clock::{new_id, now_millis};
use crate::entities::copy_opt_text;
use crate::decimal::{
    add_ok, decimal_text, radd, rabs, rneg, rsub, rsum, reprs, sub_ok, sum_all, sum_fits, Dec,
};
use crate::sync_engine::{SyncedDeposit, SyncedFunding, SyncedTrade, SyncedWithdrawal};
use crate::ws_manager::{Exchange, OrderSide, TradeEvent};
use vstd::prelude::*;
use vstd::string::*;

verus! {

/// Kind of ledger entry.
#[derive(Clone, Copy, Debug, PartialEq, Eq, Structural, Hash)]
pub enum LedgerEntryType {
    Deposit,
    Withdrawal,
    TradePnL,
    Funding,
    Commission,
    Transfer,
    Adjustment,
}

/// The upper-case name of an entry kind.
pub open spec fn entry_type_name(t: LedgerEntryType) -> Seq<char> {
    match t {
        LedgerEntryType::Deposit => "DEPOSIT"@,
        LedgerEntryType::Withdrawal => "WITHDRAWAL"@,
        LedgerEntryType::TradePnL => "TRADE_PNL"@,
        LedgerEntryType::Funding => "FUNDING"@,
        LedgerEntryType::Commission => "COMMISSION"@,
        LedgerEntryType::Transfer => "TRANSFER"@,
        LedgerEntryType::Adjustment => "ADJUSTMENT"@,
    }
}

impl LedgerEntryType {
    /// "DEPOSIT", "WITHDRAWAL", "TRADE_PNL", "FUNDING", "COMMISSION",
    /// "TRANSFER" or "ADJUSTMENT".
    pub fn to_text(&self) -> (r: String)
        ensures
            r@ == entry_type_name(*self),
    {
        match self {
            LedgerEntryType::Deposit => "DEPOSIT".to_string(),
            LedgerEntryType::Withdrawal => "WITHDRAWAL".to_string(),
            LedgerEntryType::TradePnL => "TRADE_PNL".to_string(),
            LedgerEntryType::Funding => "FUNDING".to_string(),
            LedgerEntryType::Commission => "COMMISSION".to_string(),
            LedgerEntryType::Transfer => "TRANSFER".to_string(),
            LedgerEntryType::Adjustment => "ADJUSTMENT".to_string(),
        }
    }
}

/// One booked movement of an asset.
#[derive(Clone, Debug)]
pub struct LedgerEntry {
    pub id: String,
    pub exchange: Exchange,
    pub entry_type: LedgerEntryType,
    pub asset: String,
    pub amount: Dec,
    pub balance_after: Dec,
    pub reference_id: Option<String>,
    pub reference_type: Option<String>,
    pub description: Option<String>,
    pub timestamp: i64,
    pub created_at: i64,
}

/// The balance of an asset.
#[derive(Clone, Debug)]
pub struct AssetBalance {
    pub exchange: Exchange,
    pub asset: String,
    pub balance: Dec,
    pub last_updated: i64,
}

/// Which entries to select.
#[derive(Clone, Debug)]
pub struct LedgerFilters {
    pub exchange: Option<Exchange>,
    pub entry_type: Option<LedgerEntryType>,
    pub asset: Option<String>,
    pub start_time: Option<i64>,
    pub end_time: Option<i64>,
    pub min_amount: Option<Dec>,
    pub max_amount: Option<Dec>,
    pub limit: Option<usize>,
    pub offset: Option<usize>,
}

impl LedgerFilters {
    /// No filter at all.
    pub fn default() -> (r: Self)
        ensures
            r.exchange is None,
            r.entry_type is None,
            r.asset is None,
            r.start_time is None,
            r.end_time is None,
            r.min_amount is None,
            r.max_amount is None,
            r.limit is None,
            r.offset is None,
    {
        LedgerFilters {
            exchange: None,
            entry_type: None,
            asset: None,
            start_time: None,
            end_time: None,
            min_amount: None,
            max_amount: None,
            limit: None,
            offset: None,
        }
    }

    /// The entries of one asset on one exchange, between the instants.
    pub fn for_asset(exchange: Exchange, asset: &str, start_time: Option<i64>, end_time: Option<i64>) -> (r: Self)
        ensures
            r.exchange == Some(exchange),
            r.entry_type is None,
            r.asset matches Some(a) && a@ == asset@,
            r.start_time == start_time,
            r.end_time == end_time,
            r.min_amount is None,
            r.max_amount is None,
            r.limit is None,
            r.offset is None,
    {
        LedgerFilters {
            exchange: Some(exchange),
            asset: Some(asset.to_string()),
            start_time,
            end_time,
            ..Self::default()
        }
    }

    /// All entries of one exchange.
    pub fn for_exchange(exchange: Exchange) -> (r: Self)
        ensures
            r.exchange == Some(exchange),
            r.entry_type is None,
            r.asset is None,
            r.start_time is None,
            r.end_time is None,
            r.min_amount is None,
            r.max_amount is None,
            r.limit is None,
            r.offset is None,
    {
        LedgerFilters { exchange: Some(exchange), ..Self::default() }
    }
}

/// Totals of one asset over a period.
#[derive(Clone, Debug)]
pub struct LedgerSummary {
    pub exchange: Exchange,
    pub asset: String,
    pub total_deposits: Dec,
    pub total_withdrawals: Dec,
    pub total_realized_pnl: Dec,
    pub total_funding: Dec,
    pub total_commissions: Dec,
    pub net_change: Dec,
    pub current_balance: Dec,
    pub period_start: Option<i64>,
    pub period_end: Option<i64>,
}

/// The name of an order side as Rust debug-formats it.
pub open spec fn side_name(side: OrderSide) -> Seq<char> {
    match side {
        OrderSide::Buy => "Buy"@,
        OrderSide::Sell => "Sell"@,
    }
}

/// A booked entry: `amount` moved, leaving `base + amount`, referring to
/// (`kind`, `reference`).
pub open spec fn booked(
    e: LedgerEntry,
    exchange: Exchange,
    entry_type: LedgerEntryType,
    asset: Seq<char>,
    amount: (int, nat),
    base: (int, nat),
    kind: Seq<char>,
    reference: Seq<char>,
    timestamp: i64,
) -> bool {
    &&& e.exchange == exchange
    &&& e.entry_type == entry_type
    &&& e.asset@ == asset
    &&& e.amount.repr() == amount
    &&& e.balance_after.repr() == radd(base, amount)
    &&& e.reference_id matches Some(r) && r@ == reference
    &&& e.reference_type matches Some(k) && k@ == kind
    &&& e.timestamp == timestamp
}

/// The text for a record booked twice: "{what}{id} already processed".
pub open spec fn already_processed_text(what: Seq<char>, id: Seq<char>) -> Seq<char> {
    what + id + " already processed"@
}

/// Whether a trade pays a commission.
pub open spec fn pays_commission(t: SyncedTrade) -> bool {
    t.commission.v() > 0
}

/// Whether a trade realized a non-zero P&L.
pub open spec fn realizes_pnl(t: SyncedTrade) -> bool {
    t.realized_pnl matches Some(p) && p.v() != 0
}

/// `e` books the commission of `t` against `base`: the negated commission,
/// with the text "Commission for {side} {quantity} {symbol}".
pub open spec fn commission_for(e: LedgerEntry, t: SyncedTrade, base: (int, nat)) -> bool {
    &&& booked(
        e,
        t.exchange,
        LedgerEntryType::Commission,
        t.commission_asset@,
        rneg(t.commission.repr()),
        base,
        "trade"@,
        t.trade_id@,
        t.timestamp,
    )
    &&& e.balance_after.repr() == rsub(base, t.commission.repr())
    &&& e.description matches Some(d) && d@ == "Commission for "@ + t.side@ + " "@ + decimal_text(
        t.quantity.repr(),
    ) + " "@ + t.symbol@
}

/// `e` books the realized P&L `p` of `t` in USDT against `base`, with the
/// text "Realized P&L for {side} {quantity} {symbol} @ {price}".
pub open spec fn pnl_for(e: LedgerEntry, t: SyncedTrade, p: Dec, base: (int, nat)) -> bool {
    &&& booked(
        e,
        t.exchange,
        LedgerEntryType::TradePnL,
        "USDT"@,
        p.repr(),
        base,
        "trade"@,
        t.trade_id@,
        t.timestamp,
    )
    &&& e.description matches Some(d) && d@ == "Realized P&L for "@ + t.side@ + " "@ + decimal_text(
        t.quantity.repr(),
    ) + " "@ + t.symbol@ + " @ "@ + decimal_text(t.price.repr())
}

/// `e` books deposit `d` against `base`, with the text "Deposit TX: {tx}"
/// when the deposit names its transaction.
pub open spec fn deposit_for(e: LedgerEntry, d: SyncedDeposit, base: (int, nat)) -> bool {
    &&& booked(
        e,
        d.exchange,
        LedgerEntryType::Deposit,
        d.asset@,
        d.amount.repr(),
        base,
        "deposit"@,
        d.deposit_id@,
        d.timestamp,
    )
    &&& match d.tx_id {
        Some(tx) => e.description matches Some(s) && s@ == "Deposit TX: "@ + tx@,
        None => e.description is None,
    }
}

/// `e` books withdrawal `w` against `base`: amount and fee debited
/// together, with the text "Withdrawal to {address} (fee: {fee})".
pub open spec fn withdrawal_for(e: LedgerEntry, w: SyncedWithdrawal, base: (int, nat)) -> bool {
    &&& booked(
        e,
        w.exchange,
        LedgerEntryType::Withdrawal,
        w.asset@,
        rneg(radd(w.amount.repr(), w.fee.repr())),
        base,
        "withdrawal"@,
        w.withdrawal_id@,
        w.timestamp,
    )
    &&& e.description matches Some(s) && s@ == "Withdrawal to "@ + match w.address {
        Some(a) => a@,
        None => "unknown"@,
    } + " (fee: "@ + decimal_text(w.fee.repr()) + ")"@
}

/// `e` books funding payment `f` in USDT against `base`, with the text
/// "Funding {symbol} @ {rate} (position: {size})".
pub open spec fn funding_for(e: LedgerEntry, f: SyncedFunding, base: (int, nat)) -> bool {
    &&& booked(
        e,
        f.exchange,
        LedgerEntryType::Funding,
        "USDT"@,
        f.amount.repr(),
        base,
        "funding"@,
        f.funding_id@,
        f.timestamp,
    )
    &&& e.description matches Some(s) && s@ == "Funding "@ + f.symbol@ + " @ "@ + decimal_text(
        f.funding_rate.repr(),
    ) + " (position: "@ + decimal_text(f.position_size.repr()) + ")"@
}

/// The trade a live fill stands for: its side named as debug formatting
/// does ("Buy", "Sell").
pub fn synced_trade_from_event(event: &TradeEvent) -> (r: SyncedTrade)
    ensures
        r.exchange == event.exchange,
        r.trade_id == event.trade_id,
        r.order_id == event.order_id,
        r.symbol == event.symbol,
        r.side@ == side_name(event.side),
        r.price == event.price,
        r.quantity == event.quantity,
        r.commission == event.commission,
        r.commission_asset == event.commission_asset,
        r.realized_pnl == event.realized_pnl,
        r.timestamp == event.timestamp,
{
    SyncedTrade {
        exchange: event.exchange,
        trade_id: event.trade_id.clone(),
        order_id: event.order_id.clone(),
        symbol: event.symbol.clone(),
        side: match event.side {
            OrderSide::Buy => "Buy".to_string(),
            OrderSide::Sell => "Sell".to_string(),
        },
        price: event.price,
        quantity: event.quantity,
        commission: event.commission,
        commission_asset: event.commission_asset.clone(),
        realized_pnl: event.realized_pnl,
        timestamp: event.timestamp,
    }
}

/// The commission a trade pays, booked against `current_balance` of its
/// commission asset at `now`: the negated commission, when it is positive.
pub fn commission_entry(trade: &SyncedTrade, current_balance: Dec, now: i64) -> (r: Option<LedgerEntry>)
    requires
        pays_commission(*trade) ==> sub_ok(current_balance.repr(), trade.commission.repr()),
    ensures
        !pays_commission(*trade) ==> r is None,
        pays_commission(*trade) ==> (r matches Some(e) && commission_for(
            e,
            *trade,
            current_balance.repr(),
        ) && e.created_at == now),
{
    if !trade.commission.is_positive() {
        return None;
    }
    let mut description = String::new();
    description.append("Commission for ");
    description.append(trade.side.as_str());
    description.append(" ");
    description.append(&trade.quantity.to_text());
    description.append(" ");
    description.append(trade.symbol.as_str());
    let balance_after = current_balance.sub(trade.commission);
    proof {
        lemma_sub_is_add_neg(current_balance.repr(), trade.commission.repr());
    }
    Some(
        LedgerEntry {
            id: new_id(),
            exchange: trade.exchange,
            entry_type: LedgerEntryType::Commission,
            asset: trade.commission_asset.clone(),
            amount: trade.commission.neg(),
            balance_after,
            reference_id: Some(trade.trade_id.clone()),
            reference_type: Some("trade".to_string()),
            description: Some(description),
            timestamp: trade.timestamp,
            created_at: now,
        },
    )
}

/// The realized P&L of a trade, booked in USDT against `current_balance`
/// at `now`, when it has a non-zero one.
pub fn realized_pnl_entry(trade: &SyncedTrade, current_balance: Dec, now: i64) -> (r: Option<LedgerEntry>)
    requires
        realizes_pnl(*trade) ==> add_ok(current_balance.repr(), trade.realized_pnl.unwrap().repr()),
    ensures
        !realizes_pnl(*trade) ==> r is None,
        realizes_pnl(*trade) ==> (r matches Some(e) && pnl_for(
            e,
            *trade,
            trade.realized_pnl.unwrap(),
            current_balance.repr(),
        ) && e.created_at == now),
{
    let pnl = match trade.realized_pnl {
        Some(p) => p,
        None => {
            return None;
        },
    };
    if pnl.is_zero() {
        return None;
    }
    let mut description = String::new();
    description.append("Realized P&L for ");
    description.append(trade.side.as_str());
    description.append(" ");
    description.append(&trade.quantity.to_text());
    description.append(" ");
    description.append(trade.symbol.as_str());
    description.append(" @ ");
    description.append(&trade.price.to_text());
    Some(
        LedgerEntry {
            id: new_id(),
            exchange: trade.exchange,
            entry_type: LedgerEntryType::TradePnL,
            asset: "USDT".to_string(),
            amount: pnl,
            balance_after: current_balance.add(pnl),
            reference_id: Some(trade.trade_id.clone()),
            reference_type: Some("trade".to_string()),
            description: Some(description),
            timestamp: trade.timestamp,
            created_at: now,
        },
    )
}

/// The refusal of a deposit booked before.
pub fn deposit_already_processed(deposit: &SyncedDeposit) -> (r: String)
    ensures
        r@ == already_processed_text("Deposit "@, deposit.deposit_id@),
{
    let mut message = String::new();
    message.append("Deposit ");
    message.append(deposit.deposit_id.as_str());
    message.append(" already processed");
    message
}

/// A deposit booked against `current_balance` at `now`.
pub fn deposit_entry(deposit: &SyncedDeposit, current_balance: Dec, now: i64) -> (r: LedgerEntry)
    requires
        add_ok(current_balance.repr(), deposit.amount.repr()),
    ensures
        deposit_for(r, *deposit, current_balance.repr()),
        r.created_at == now,
{
    let description = match &deposit.tx_id {
        Some(tx) => {
            let mut d = String::new();
            d.append("Deposit TX: ");
            d.append(tx.as_str());
            Some(d)
        },
        None => None,
    };
    LedgerEntry {
        id: new_id(),
        exchange: deposit.exchange,
        entry_type: LedgerEntryType::Deposit,
        asset: deposit.asset.clone(),
        amount: deposit.amount,
        balance_after: current_balance.add(deposit.amount),
        reference_id: Some(deposit.deposit_id.clone()),
        reference_type: Some("deposit".to_string()),
        description,
        timestamp: deposit.timestamp,
        created_at: now,
    }
}

/// The refusal of a withdrawal booked before.
pub fn withdrawal_already_processed(withdrawal: &SyncedWithdrawal) -> (r: String)
    ensures
        r@ == already_processed_text("Withdrawal "@, withdrawal.withdrawal_id@),
{
    let mut message = String::new();
    message.append("Withdrawal ");
    message.append(withdrawal.withdrawal_id.as_str());
    message.append(" already processed");
    message
}

/// Whether the arithmetic of booking a withdrawal against `base` needs no
/// rounding.
pub open spec fn withdrawal_arith_ok(w: SyncedWithdrawal, base: (int, nat)) -> bool {
    &&& add_ok(w.amount.repr(), w.fee.repr())
    &&& add_ok(base, rneg(radd(w.amount.repr(), w.fee.repr())))
}

/// A withdrawal booked against `current_balance` at `now`: amount and fee
/// are debited together.
pub fn withdrawal_entry(withdrawal: &SyncedWithdrawal, current_balance: Dec, now: i64) -> (r: LedgerEntry)
    requires
        withdrawal_arith_ok(*withdrawal, current_balance.repr()),
    ensures
        withdrawal_for(r, *withdrawal, current_balance.repr()),
        r.created_at == now,
{
    let total_amount = withdrawal.amount.add(withdrawal.fee).neg();
    let mut description = String::new();
    description.append("Withdrawal to ");
    match &withdrawal.address {
        Some(a) => description.append(a.as_str()),
        None => description.append("unknown"),
    }
    description.append(" (fee: ");
    description.append(&withdrawal.fee.to_text());
    description.append(")");
    LedgerEntry {
        id: new_id(),
        exchange: withdrawal.exchange,
        entry_type: LedgerEntryType::Withdrawal,
        asset: withdrawal.asset.clone(),
        amount: total_amount,
        balance_after: current_balance.add(total_amount),
        reference_id: Some(withdrawal.withdrawal_id.clone()),
        reference_type: Some("withdrawal".to_string()),
        description: Some(description),
        timestamp: withdrawal.timestamp,
        created_at: now,
    }
}

/// The refusal of a funding payment booked before.
pub fn funding_already_processed(funding: &SyncedFunding) -> (r: String)
    ensures
        r@ == already_processed_text("Funding "@, funding.funding_id@),
{
    let mut message = String::new();
    message.append("Funding ");
    message.append(funding.funding_id.as_str());
    message.append(" already processed");
    message
}

/// A funding payment booked in USDT against `current_balance` at `now`.
pub fn funding_entry(funding: &SyncedFunding, current_balance: Dec, now: i64) -> (r: LedgerEntry)
    requires
        add_ok(current_balance.repr(), funding.amount.repr()),
    ensures
        funding_for(r, *funding, current_balance.repr()),
        r.created_at == now,
{
    let mut description = String::new();
    description.append("Funding ");
    description.append(funding.symbol.as_str());
    description.append(" @ ");
    description.append(&funding.funding_rate.to_text());
    description.append(" (position: ");
    description.append(&funding.position_size.to_text());
    description.append(")");
    LedgerEntry {
        id: new_id(),
        exchange: funding.exchange,
        entry_type: LedgerEntryType::Funding,
        asset: "USDT".to_string(),
        amount: funding.amount,
        balance_after: current_balance.add(funding.amount),
        reference_id: Some(funding.funding_id.clone()),
        reference_type: Some("funding".to_string()),
        description: Some(description),
        timestamp: funding.timestamp,
        created_at: now,
    }
}

/// The amounts of the entries of kind `t`, as booked (`absolute` false) or
/// as sizes, in order.
pub open spec fn amounts_of_type(entries: Seq<LedgerEntry>, t: LedgerEntryType, absolute: bool) -> Seq<(int, nat)>
    decreases entries.len(),
{
    if entries.len() == 0 {
        Seq::empty()
    } else {
        let rest = amounts_of_type(entries.drop_last(), t, absolute);
        let e = entries.last();
        if e.entry_type == t {
            rest.push(
                if absolute {
                    rabs(e.amount.repr())
                } else {
                    e.amount.repr()
                },
            )
        } else {
            rest
        }
    }
}

/// The amounts of all entries, in order.
pub open spec fn amounts(entries: Seq<LedgerEntry>) -> Seq<(int, nat)> {
    entries.map_values(|e: LedgerEntry| e.amount.repr())
}

pub open spec fn summary_arith_ok(entries: Seq<LedgerEntry>) -> bool {
    &&& sum_fits(amounts_of_type(entries, LedgerEntryType::Deposit, false))
    &&& sum_fits(amounts_of_type(entries, LedgerEntryType::Withdrawal, true))
    &&& sum_fits(amounts_of_type(entries, LedgerEntryType::TradePnL, false))
    &&& sum_fits(amounts_of_type(entries, LedgerEntryType::Funding, false))
    &&& sum_fits(amounts_of_type(entries, LedgerEntryType::Commission, true))
    &&& sum_fits(amounts(entries))
}

/// The totals of `r` are those of `entries`: deposits, withdrawals and
/// commissions by size, realized P&L and funding as booked, and the net
/// change of all entries.
pub open spec fn summary_totals(r: LedgerSummary, entries: Seq<LedgerEntry>) -> bool {
    &&& r.total_deposits.repr() == rsum(amounts_of_type(entries, LedgerEntryType::Deposit, false))
    &&& r.total_withdrawals.repr() == rsum(amounts_of_type(entries, LedgerEntryType::Withdrawal, true))
    &&& r.total_realized_pnl.repr() == rsum(amounts_of_type(entries, LedgerEntryType::TradePnL, false))
    &&& r.total_funding.repr() == rsum(amounts_of_type(entries, LedgerEntryType::Funding, false))
    &&& r.total_commissions.repr() == rsum(amounts_of_type(entries, LedgerEntryType::Commission, true))
    &&& r.net_change.repr() == rsum(amounts(entries))
}

/// Totals the `entries` of one asset: deposits, withdrawals and
/// commissions by size, realized P&L and funding as booked, and the net
/// change of all entries; `current_balance` is the store's.
pub fn summarize(
    entries: &Vec<LedgerEntry>,
    exchange: Exchange,
    asset: &str,
    start_time: Option<i64>,
    end_time: Option<i64>,
    current_balance: Dec,
) -> (r: LedgerSummary)
    requires
        summary_arith_ok(entries@),
    ensures
        r.exchange == exchange,
        r.asset@ == asset@,
        summary_totals(r, entries@),
        r.current_balance == current_balance,
        r.period_start == start_time,
        r.period_end == end_time,
{
    let mut deposits: Vec<Dec> = Vec::new();
    let mut withdrawals: Vec<Dec> = Vec::new();
    let mut pnl: Vec<Dec> = Vec::new();
    let mut funding: Vec<Dec> = Vec::new();
    let mut commissions: Vec<Dec> = Vec::new();
    let mut all: Vec<Dec> = Vec::new();
    let mut i: usize = 0;
    while i < entries.len()
        invariant
            i <= entries@.len(),
            reprs(deposits@) == amounts_of_type(entries@.take(i as int), LedgerEntryType::Deposit, false),
            reprs(withdrawals@) == amounts_of_type(entries@.take(i as int), LedgerEntryType::Withdrawal, true),
            reprs(pnl@) == amounts_of_type(entries@.take(i as int), LedgerEntryType::TradePnL, false),
            reprs(funding@) == amounts_of_type(entries@.take(i as int), LedgerEntryType::Funding, false),
            reprs(commissions@) == amounts_of_type(entries@.take(i as int), LedgerEntryType::Commission, true),
            reprs(all@) == amounts(entries@.take(i as int)),
        decreases entries@.len() - i,
    {
        let ghost before = entries@.take(i as int);
        let ghost after = entries@.take(i as int + 1);
        assert(after.drop_last() =~= before);
        let e = &entries[i];
        let ghost d0 = deposits@;
        let ghost w0 = withdrawals@;
        let ghost p0 = pnl@;
        let ghost f0 = funding@;
        let ghost c0 = commissions@;
        let ghost a0 = all@;
        match e.entry_type {
            LedgerEntryType::Deposit => {
                deposits.push(e.amount);
                assert(reprs(deposits@) =~= reprs(d0).push(e.amount.repr()));
            },
            LedgerEntryType::Withdrawal => {
                let size = e.amount.abs();
                withdrawals.push(size);
                assert(reprs(withdrawals@) =~= reprs(w0).push(size.repr()));
            },
            LedgerEntryType::TradePnL => {
                pnl.push(e.amount);
                assert(reprs(pnl@) =~= reprs(p0).push(e.amount.repr()));
            },
            LedgerEntryType::Funding => {
                funding.push(e.amount);
                assert(reprs(funding@) =~= reprs(f0).push(e.amount.repr()));
            },
            LedgerEntryType::Commission => {
                let size = e.amount.abs();
                commissions.push(size);
                assert(reprs(commissions@) =~= reprs(c0).push(size.repr()));
            },
            _ => {},
        }
        all.push(e.amount);
        assert(reprs(all@) =~= reprs(a0).push(e.amount.repr()));
        assert(amounts(after) =~= amounts(before).push(e.amount.repr()));
        i += 1;
    }
    assert(entries@.take(entries@.len() as int) =~= entries@);
    LedgerSummary {
        exchange,
        asset: asset.to_string(),
        total_deposits: sum_all(&deposits),
        total_withdrawals: sum_all(&withdrawals),
        total_realized_pnl: sum_all(&pnl),
        total_funding: sum_all(&funding),
        total_commissions: sum_all(&commissions),
        net_change: sum_all(&all),
        current_balance,
        period_start: start_time,
        period_end: end_time,
    }
}

/// The asset and amount of each entry, in order.
pub open spec fn entry_items(entries: Seq<LedgerEntry>) -> Seq<(String, Dec)> {
    entries.map_values(|e: LedgerEntry| (e.asset, e.amount))
}

/// `r` holds the total of every asset that has entries in `entries`, each
/// once: the sum of its amounts, added up in order.
pub open spec fn asset_totals(r: Seq<(String, Dec)>, entries: Seq<LedgerEntry>) -> bool {
    &&& forall|i: int, j: int| 0 <= i < j < r.len() ==> #[trigger] r[i].0@ != #[trigger] r[j].0@
    &&& forall|i: int|
        0 <= i < r.len() ==> (#[trigger] r[i]).1.repr() == rsum(key_amounts(entry_items(entries), r[i].0@))
    &&& forall|k: int| 0 <= k < entries.len() ==> keys_of(r).contains(#[trigger] entries[k].asset@)
    &&& forall|a: Seq<char>|
        !keys_of(r).contains(a) ==> #[trigger] key_amounts(entry_items(entries), a).len() == 0
}

/// The balance of every asset that has entries: the sum of its amounts,
/// added up in order.  Each asset appears once, in the order of its first
/// entry.
pub fn totals_by_asset(entries: &Vec<LedgerEntry>) -> (r: Vec<(String, Dec)>)
    requires
        sums_fit(entry_items(entries@)),
    ensures
        asset_totals(r@, entries@),
{
    let mut items: Vec<(String, Dec)> = Vec::new();
    let mut i: usize = 0;
    while i < entries.len()
        invariant
            i <= entries@.len(),
            items@.len() == i,
            forall|k: int| 0 <= k < i ==> #[trigger] items@[k] == (entries@[k].asset, entries@[k].amount),
        decreases entries@.len() - i,
    {
        items.push((entries[i].asset.clone(), entries[i].amount));
        i += 1;
    }
    assert(items@ =~= entry_items(entries@));
    let r = totals_by_key(&items);
    assert forall|k: int| 0 <= k < entries@.len() implies keys_of(r@).contains(
        #[trigger] entries@[k].asset@,
    ) by {
        assert(items@[k].0@ == entries@[k].asset@);
    }
    r
}

/// Booking `x - y` as adding `-y`: a subtraction from a non-zero value is
/// the sum with the negation.
proof fn lemma_sub_is_add_neg(x: (int, nat), y: (int, nat))
    requires
        y.0 != 0,
    ensures
        rsub(x, y) == radd(x, rneg(y)),
{
}

impl LedgerEntry {
    /// A copy of the entry.
    pub fn duplicate(&self) -> (r: LedgerEntry)
        ensures
            r == *self,
    {
        LedgerEntry {
            id: self.id.clone(),
            exchange: self.exchange,
            entry_type: self.entry_type,
            asset: self.asset.clone(),
            amount: self.amount,
            balance_after: self.balance_after,
            reference_id: copy_opt_text(&self.reference_id),
            reference_type: copy_opt_text(&self.reference_type),
            description: copy_opt_text(&self.description),
            timestamp: self.timestamp,
            created_at: self.created_at,
        }
    }
}

/// Whether `e` refers to record `id` of `kind` on `exchange`.
pub open spec fn refers_to(e: LedgerEntry, exchange: Exchange, kind: Seq<char>, id: Seq<char>) -> bool {
    &&& e.exchange == exchange
    &&& e.reference_type matches Some(k) && k@ == kind
    &&& e.reference_id matches Some(r) && r@ == id
}

/// Whether some entry of `s` refers to record `id` of `kind` on `exchange`.
pub open spec fn already_booked(s: Seq<LedgerEntry>, exchange: Exchange, kind: Seq<char>, id: Seq<char>) -> bool {
    exists|i: int| 0 <= i < s.len() && #[trigger] refers_to(s[i], exchange, kind, id)
}

/// Whether `e` moves `asset` on `exchange`.
pub open spec fn moves(e: LedgerEntry, exchange: Exchange, asset: Seq<char>) -> bool {
    e.exchange == exchange && e.asset@ == asset
}

/// The last entry of `s` that moves `asset` on `exchange`.
pub open spec fn latest_entry(s: Seq<LedgerEntry>, exchange: Exchange, asset: Seq<char>) -> Option<LedgerEntry>
    decreases s.len(),
{
    if s.len() == 0 {
        None
    } else if moves(s.last(), exchange, asset) {
        Some(s.last())
    } else {
        latest_entry(s.drop_last(), exchange, asset)
    }
}

/// The balance of `asset` on `exchange`: what its last entry left, zero
/// before any.
pub open spec fn latest_balance(s: Seq<LedgerEntry>, exchange: Exchange, asset: Seq<char>) -> (int, nat) {
    match latest_entry(s, exchange, asset) {
        Some(e) => e.balance_after.repr(),
        None => (0, 0),
    }
}

/// Whether the filters let `e` through (limit and offset aside).
pub open spec fn selects(f: LedgerFilters, e: LedgerEntry) -> bool {
    &&& (f.exchange matches Some(x) ==> e.exchange == x)
    &&& (f.entry_type matches Some(t) ==> e.entry_type == t)
    &&& (f.asset matches Some(a) ==> e.asset@ == a@)
    &&& (f.start_time matches Some(t) ==> e.timestamp >= t)
    &&& (f.end_time matches Some(t) ==> e.timestamp <= t)
    &&& (f.min_amount matches Some(m) ==> e.amount.v() >= m.v())
    &&& (f.max_amount matches Some(m) ==> e.amount.v() <= m.v())
}

/// The entries of `s` that `keep` lets through, in order.
pub open spec fn kept(s: Seq<LedgerEntry>, keep: spec_fn(LedgerEntry) -> bool) -> Seq<LedgerEntry>
    decreases s.len(),
{
    if s.len() == 0 {
        Seq::empty()
    } else {
        let rest = kept(s.drop_last(), keep);
        if keep(s.last()) {
            rest.push(s.last())
        } else {
            rest
        }
    }
}

/// The entries of `s` that the filters let through, in order.
pub open spec fn selected(s: Seq<LedgerEntry>, f: LedgerFilters) -> Seq<LedgerEntry> {
    kept(s, |e: LedgerEntry| selects(f, e))
}

/// The page of `s` that the filters ask for: `offset` entries skipped,
/// then at most `limit`.
pub open spec fn page(s: Seq<LedgerEntry>, f: LedgerFilters) -> Seq<LedgerEntry> {
    let from: int = match f.offset {
        Some(o) => if o <= s.len() {
            o as int
        } else {
            s.len() as int
        },
        None => 0,
    };
    let rest = s.subrange(from, s.len() as int);
    match f.limit {
        Some(l) => if l < rest.len() {
            rest.take(l as int)
        } else {
            rest
        },
        None => rest,
    }
}

/// `b` is the balance of its asset on `exchange`: what its last entry
/// left, and when.
pub open spec fn balance_of_latest(s: Seq<LedgerEntry>, exchange: Exchange, b: AssetBalance) -> bool {
    &&& b.exchange == exchange
    &&& latest_entry(s, exchange, b.asset@) matches Some(e)
    &&& b.balance.repr() == e.balance_after.repr()
    &&& b.last_updated == e.timestamp
}

/// `bs` lists the balance of every asset with entries on `exchange`, each
/// once: what its last entry left, and when.
pub open spec fn all_balances(s: Seq<LedgerEntry>, exchange: Exchange, bs: Seq<AssetBalance>) -> bool {
    &&& forall|i: int|
        0 <= i < bs.len() ==> balance_of_latest(s, exchange, #[trigger] bs[i])
    &&& forall|i: int, j: int| 0 <= i < j < bs.len() ==> #[trigger] bs[i].asset@ != #[trigger] bs[j].asset@
    &&& forall|k: int|
        0 <= k < s.len() && (#[trigger] s[k]).exchange == exchange ==> exists|i: int|
            0 <= i < bs.len() && #[trigger] bs[i].asset@ == s[k].asset@
}

/// Where booked entries are kept.
pub trait LedgerStore {
    /// The entries kept, oldest first.
    spec fn stored(&self) -> Seq<LedgerEntry>;

    /// The writes the store refused, in order: the entries each would have
    /// kept, and the error the store answered.
    spec fn refused(&self) -> Seq<(Seq<LedgerEntry>, Seq<char>)>;

    /// Keeps `entry` after the others; on an error nothing changes.
    fn insert_entry(&mut self, entry: &LedgerEntry) -> (r: Result<(), String>)
        ensures
            r is Ok ==> final(self).stored() == old(self).stored().push(*entry),
            r is Err ==> final(self).stored() == old(self).stored(),
            r is Ok ==> final(self).refused() == old(self).refused(),
            r matches Err(e) ==> final(self).refused() == old(self).refused().push(
                (seq![*entry], e@),
            ),
    ;

    /// Keeps `entries` after the others, in order; on an error nothing
    /// changes.
    fn insert_entries(&mut self, entries: &Vec<LedgerEntry>) -> (r: Result<(), String>)
        ensures
            r is Ok ==> final(self).stored() == old(self).stored() + entries@,
            r is Err ==> final(self).stored() == old(self).stored(),
            r is Ok ==> final(self).refused() == old(self).refused(),
            r matches Err(e) ==> final(self).refused() == old(self).refused().push(
                (entries@, e@),
            ),
    ;

    /// The first entry with id `id`, if any.
    fn get_entry(&self, id: &str) -> (r: Option<LedgerEntry>)
        ensures
            r is Some <==> exists|i: int| 0 <= i < self.stored().len() && #[trigger] self.stored()[i].id@ == id@,
            r matches Some(e) ==> exists|i: int|
                0 <= i < self.stored().len() && self.stored()[i] == e && e.id@ == id@ && forall|k: int|
                    0 <= k < i ==> #[trigger] self.stored()[k].id@ != id@,
    ;

    /// The last entry of `asset` on `exchange`, if any.
    fn get_last_entry(&self, exchange: Exchange, asset: &str) -> (r: Option<LedgerEntry>)
        ensures
            r == latest_entry(self.stored(), exchange, asset@),
    ;

    /// An entry that refers to record `reference_id` of kind
    /// `reference_type` on `exchange`, if one was booked.
    fn get_entry_by_reference(&self, exchange: Exchange, reference_type: &str, reference_id: &str) -> (r:
        Option<LedgerEntry>)
        ensures
            r is Some <==> already_booked(self.stored(), exchange, reference_type@, reference_id@),
            r matches Some(e) ==> refers_to(e, exchange, reference_type@, reference_id@),
    ;

    /// The page of entries that the filters ask for, oldest first.
    fn get_entries(&self, filters: &LedgerFilters) -> (r: Vec<LedgerEntry>)
        ensures
            r@ == page(selected(self.stored(), *filters), *filters),
    ;

    /// The balance of `asset` on `exchange`.
    fn get_balance(&self, exchange: Exchange, asset: &str) -> (r: Dec)
        ensures
            r.repr() == latest_balance(self.stored(), exchange, asset@),
    ;

    /// The balance of every asset with entries on `exchange`.
    fn get_all_balances(&self, exchange: Exchange) -> (r: Vec<AssetBalance>)
        ensures
            all_balances(self.stored(), exchange, r@),
    ;

    /// How many entries the filters let through (limit and offset aside).
    fn count_entries(&self, filters: &LedgerFilters) -> (r: u64)
        ensures
            r == selected(self.stored(), *filters).len(),
    ;
}

/// The balance a trade's P&L is booked against: the USDT balance, after
/// the trade's own commission when that was booked in USDT.
pub open spec fn pnl_base(s: Seq<LedgerEntry>, t: SyncedTrade) -> (int, nat) {
    if pays_commission(t) && t.commission_asset@ == "USDT"@ {
        rsub(latest_balance(s, t.exchange, "USDT"@), t.commission.repr())
    } else {
        latest_balance(s, t.exchange, "USDT"@)
    }
}

/// Booking trade `t` on ledger `s` needs no rounding.
pub open spec fn trade_arith_ok(s: Seq<LedgerEntry>, t: SyncedTrade) -> bool {
    !already_booked(s, t.exchange, "trade"@, t.trade_id@) ==> {
        &&& pays_commission(t) ==> sub_ok(
            latest_balance(s, t.exchange, t.commission_asset@),
            t.commission.repr(),
        )
        &&& realizes_pnl(t) ==> add_ok(pnl_base(s, t), t.realized_pnl.unwrap().repr())
    }
}

/// How many entries trade `t` books: its commission and its P&L, each
/// when due.
pub open spec fn trade_entry_count(t: SyncedTrade) -> int {
    (if pays_commission(t) {
        1int
    } else {
        0int
    }) + (if realizes_pnl(t) {
        1int
    } else {
        0int
    })
}

/// `v` is what booking trade `t` on ledger `s` adds: its commission, then
/// its realized P&L, each when due.
pub open spec fn trade_entries(s: Seq<LedgerEntry>, t: SyncedTrade, v: Seq<LedgerEntry>) -> bool {
    let nc: int = if pays_commission(t) {
        1
    } else {
        0
    };
    &&& v.len() == trade_entry_count(t)
    &&& pays_commission(t) ==> commission_for(
        v[0],
        t,
        latest_balance(s, t.exchange, t.commission_asset@),
    )
    &&& realizes_pnl(t) ==> pnl_for(v[nc], t, t.realized_pnl.unwrap(), pnl_base(s, t))
}

/// Processing trade `t` took ledger `s0` to `s1` and answered `r`: a trade
/// booked before books nothing; otherwise its entries are added, and on a
/// store error the entries booked before the error stay.
pub open spec fn trade_processed(
    s0: Seq<LedgerEntry>,
    s1: Seq<LedgerEntry>,
    t: SyncedTrade,
    r: Result<Vec<LedgerEntry>, String>,
) -> bool {
    if already_booked(s0, t.exchange, "trade"@, t.trade_id@) {
        &&& r matches Ok(v) && v@.len() == 0
        &&& s1 == s0
    } else {
        match r {
            Ok(v) => trade_entries(s0, t, v@) && s1 == s0 + v@,
            Err(_) => trade_entry_count(t) > 0 && (s1 == s0 || (pays_commission(t) && realizes_pnl(
                t,
            ) && s1.len()
                == s0.len() + 1 && s1.drop_last() == s0 && commission_for(
                s1.last(),
                t,
                latest_balance(s0, t.exchange, t.commission_asset@),
            ))),
        }
    }
}

/// `t` is the trade that live fill `e` stands for.
pub open spec fn fill_of(t: SyncedTrade, e: TradeEvent) -> bool {
    &&& t.exchange == e.exchange
    &&& t.trade_id == e.trade_id
    &&& t.order_id == e.order_id
    &&& t.symbol == e.symbol
    &&& t.side@ == side_name(e.side)
    &&& t.price == e.price
    &&& t.quantity == e.quantity
    &&& t.commission == e.commission
    &&& t.commission_asset == e.commission_asset
    &&& t.realized_pnl == e.realized_pnl
    &&& t.timestamp == e.timestamp
}

/// Processing a record took ledger `s0` to `s1` and answered `r`: a record
/// booked before is refused with `refusal`; otherwise the entry is added
/// unless the store failed.
pub open spec fn record_processed(
    s0: Seq<LedgerEntry>,
    s1: Seq<LedgerEntry>,
    booked_before: bool,
    refusal: Seq<char>,
    r: Result<LedgerEntry, String>,
    fits: spec_fn(LedgerEntry) -> bool,
) -> bool {
    if booked_before {
        &&& r matches Err(m) && m@ == refusal
        &&& s1 == s0
    } else {
        match r {
            Ok(e) => fits(e) && s1 == s0.push(e),
            Err(_) => s1 == s0,
        }
    }
}

/// Processing deposit `d` took ledger `s0` to `s1` and answered `r`.
pub open spec fn deposit_processed(
    s0: Seq<LedgerEntry>,
    s1: Seq<LedgerEntry>,
    d: SyncedDeposit,
    r: Result<LedgerEntry, String>,
) -> bool {
    record_processed(
        s0,
        s1,
        already_booked(s0, d.exchange, "deposit"@, d.deposit_id@),
        already_processed_text("Deposit "@, d.deposit_id@),
        r,
        |e: LedgerEntry| deposit_for(e, d, latest_balance(s0, d.exchange, d.asset@)),
    )
}

/// Processing withdrawal `w` took ledger `s0` to `s1` and answered `r`.
pub open spec fn withdrawal_processed(
    s0: Seq<LedgerEntry>,
    s1: Seq<LedgerEntry>,
    w: SyncedWithdrawal,
    r: Result<LedgerEntry, String>,
) -> bool {
    record_processed(
        s0,
        s1,
        already_booked(s0, w.exchange, "withdrawal"@, w.withdrawal_id@),
        already_processed_text("Withdrawal "@, w.withdrawal_id@),
        r,
        |e: LedgerEntry| withdrawal_for(e, w, latest_balance(s0, w.exchange, w.asset@)),
    )
}

/// Processing funding payment `f` took ledger `s0` to `s1` and answered `r`.
pub open spec fn funding_processed(
    s0: Seq<LedgerEntry>,
    s1: Seq<LedgerEntry>,
    f: SyncedFunding,
    r: Result<LedgerEntry, String>,
) -> bool {
    record_processed(
        s0,
        s1,
        already_booked(s0, f.exchange, "funding"@, f.funding_id@),
        already_processed_text("Funding "@, f.funding_id@),
        r,
        |e: LedgerEntry| funding_for(e, f, latest_balance(s0, f.exchange, "USDT"@)),
    )
}

/// Whether `e` is an entry of `asset` on `exchange` between the instants.
pub open spec fn in_period(
    e: LedgerEntry,
    exchange: Exchange,
    asset: Seq<char>,
    start: Option<i64>,
    end: Option<i64>,
) -> bool {
    &&& e.exchange == exchange
    &&& e.asset@ == asset
    &&& (start matches Some(t) ==> e.timestamp >= t)
    &&& (end matches Some(t) ==> e.timestamp <= t)
}

/// The entries of `asset` on `exchange` between the instants, in order.
pub open spec fn period_entries(
    s: Seq<LedgerEntry>,
    exchange: Exchange,
    asset: Seq<char>,
    start: Option<i64>,
    end: Option<i64>,
) -> Seq<LedgerEntry> {
    kept(s, |e: LedgerEntry| in_period(e, exchange, asset, start, end))
}

/// The entries on `exchange`, in order.
pub open spec fn exchange_entries(s: Seq<LedgerEntry>, exchange: Exchange) -> Seq<LedgerEntry> {
    kept(s, |e: LedgerEntry| e.exchange == exchange)
}

/// `r` summarizes its asset on `exchange` between the instants, over
/// ledger `s`.
pub open spec fn summarizes(
    s: Seq<LedgerEntry>,
    exchange: Exchange,
    start: Option<i64>,
    end: Option<i64>,
    r: LedgerSummary,
) -> bool {
    &&& r.exchange == exchange
    &&& summary_totals(r, period_entries(s, exchange, r.asset@, start, end))
    &&& r.current_balance.repr() == latest_balance(s, exchange, r.asset@)
    &&& r.period_start == start
    &&& r.period_end == end
}

/// Two predicates that agree keep the same entries.
proof fn lemma_kept_agree(
    s: Seq<LedgerEntry>,
    p: spec_fn(LedgerEntry) -> bool,
    q: spec_fn(LedgerEntry) -> bool,
)
    requires
        forall|e: LedgerEntry| #[trigger] p(e) == q(e),
    ensures
        kept(s, p) == kept(s, q),
    decreases s.len(),
{
    if s.len() > 0 {
        lemma_kept_agree(s.drop_last(), p, q);
        assert(p(s.last()) == q(s.last()));
    }
}

/// After a trade's commission is booked, the USDT balance is the one its
/// P&L is booked against.
proof fn lemma_after_commission(s: Seq<LedgerEntry>, t: SyncedTrade, c: LedgerEntry)
    requires
        pays_commission(t),
        commission_for(c, t, latest_balance(s, t.exchange, t.commission_asset@)),
    ensures
        latest_balance(s.push(c), t.exchange, "USDT"@) == pnl_base(s, t),
{
    assert(s.push(c).drop_last() =~= s);
    assert(s.push(c).last() == c);
}

/// The store's refusals went from `r0` to `r1` as answer `r` says: on
/// success, or on the library's own refusal (`own`), none was added; any
/// other error is the store's answer to the one write it refused.
pub open spec fn error_passed_on<T>(
    r0: Seq<(Seq<LedgerEntry>, Seq<char>)>,
    r1: Seq<(Seq<LedgerEntry>, Seq<char>)>,
    r: Result<T, String>,
    own: bool,
) -> bool {
    match r {
        Ok(_) => r1 == r0,
        Err(e) => if own {
            r1 == r0
        } else {
            &&& r1.len() == r0.len() + 1
            &&& r1.drop_last() == r0
            &&& r1.last().1 == e@
        },
    }
}

/// Booking trade `t` took ledger `s0` to `s1` and the store's refusals
/// from `r0` to `r1`, and answered `r`: an error is the store's answer to
/// the one entry it refused.  When that is the commission, the ledger is
/// as it was; when it is the P&L, the commission booked before it, if
/// due, stays.
pub open spec fn trade_refusal(
    s0: Seq<LedgerEntry>,
    s1: Seq<LedgerEntry>,
    t: SyncedTrade,
    r0: Seq<(Seq<LedgerEntry>, Seq<char>)>,
    r1: Seq<(Seq<LedgerEntry>, Seq<char>)>,
    r: Result<Vec<LedgerEntry>, String>,
) -> bool {
    match r {
        Ok(_) => r1 == r0,
        Err(e) => {
            let x = r1.last().0[0];
            &&& r1 == r0.push((seq![x], e@))
            &&& {
                ||| pays_commission(t) && commission_for(
                    x,
                    t,
                    latest_balance(s0, t.exchange, t.commission_asset@),
                ) && s1 == s0
                ||| realizes_pnl(t) && pnl_for(x, t, t.realized_pnl.unwrap(), pnl_base(s0, t))
                    && if pays_commission(t) {
                    &&& s1.len() == s0.len() + 1
                    &&& s1.drop_last() == s0
                    &&& commission_for(
                        s1.last(),
                        t,
                        latest_balance(s0, t.exchange, t.commission_asset@),
                    )
                } else {
                    s1 == s0
                }
            }
        },
    }
}

/// Books trades, deposits, withdrawals and funding payments into a store,
/// and reads balances and summaries back.
pub struct LedgerService<S: LedgerStore> {
    store: S,
}

impl<S: LedgerStore> LedgerService<S> {
    /// The entries in the store, oldest first.
    pub closed spec fn book(&self) -> Seq<LedgerEntry> {
        self.store.stored()
    }

    /// The writes the store refused, with its answers, in order.
    pub closed spec fn refusals(&self) -> Seq<(Seq<LedgerEntry>, Seq<char>)> {
        self.store.refused()
    }

    /// A service over `store`.
    pub fn new(store: S) -> (r: Self)
        ensures
            r.book() == store.stored(),
            r.refusals() == store.refused(),
    {
        LedgerService { store }
    }

    /// Books a trade: its commission (a debit of the commission asset),
    /// then its realized P&L in USDT, each when due.  A trade booked
    /// before books nothing.  A write the store refuses ends the booking
    /// with the store's error; a commission booked before a refused P&L
    /// entry stays.
    pub fn process_trade(&mut self, trade: &SyncedTrade) -> (r: Result<Vec<LedgerEntry>, String>)
        requires
            trade_arith_ok(old(self).book(), *trade),
        ensures
            trade_processed(old(self).book(), final(self).book(), *trade, r),
            trade_refusal(
                old(self).book(),
                final(self).book(),
                *trade,
                old(self).refusals(),
                final(self).refusals(),
                r,
            ),
    {
        let ghost s0 = self.book();
        let mut entries: Vec<LedgerEntry> = Vec::new();
        if self.store.get_entry_by_reference(trade.exchange, "trade", trade.trade_id.as_str()).is_some() {
            return Ok(entries);
        }
        if trade.commission.is_positive() {
            let balance = self.store.get_balance(trade.exchange, trade.commission_asset.as_str());
            match commission_entry(trade, balance, now_millis()) {
                Some(entry) => {
                    match self.store.insert_entry(&entry) {
                        Ok(()) => {},
                        Err(e) => {
                            return Err(e);
                        },
                    }
                    proof {
                        lemma_after_commission(s0, *trade, entry);
                    }
                    entries.push(entry);
                },
                None => {},
            }
        }
        assert(self.book() == s0 + entries@);
        assert(entries@.len() == if pays_commission(*trade) {
            1int
        } else {
            0int
        });
        assert(pays_commission(*trade) ==> commission_for(
            entries@[0],
            *trade,
            latest_balance(s0, trade.exchange, trade.commission_asset@),
        ));
        if let Some(pnl) = trade.realized_pnl {
            if !pnl.is_zero() {
                let balance = self.store.get_balance(trade.exchange, "USDT");
                assert(balance.repr() == pnl_base(s0, *trade));
                match realized_pnl_entry(trade, balance, now_millis()) {
                    Some(entry) => {
                        match self.store.insert_entry(&entry) {
                            Ok(()) => {},
                            Err(e) => {
                                proof {
                                    if entries@.len() == 0 {
                                        assert(self.book() =~= s0);
                                    } else {
                                        assert(self.book().drop_last() =~= s0);
                                        assert(self.book().last() == entries@[0]);
                                    }
                                }
                                return Err(e);
                            },
                        }
                        entries.push(entry);
                        assert(self.book() =~= s0 + entries@);
                    },
                    None => {},
                }
            }
        }
        Ok(entries)
    }

    /// Books a live fill as the trade it stands for.
    pub fn process_trade_event(&mut self, event: &TradeEvent) -> (r: Result<Vec<LedgerEntry>, String>)
        requires
            forall|t: SyncedTrade| #[trigger] fill_of(t, *event) ==> trade_arith_ok(old(self).book(), t),
        ensures
            exists|t: SyncedTrade|
                #[trigger] fill_of(t, *event) && trade_processed(old(self).book(), final(self).book(), t, r)
                    && trade_refusal(
                    old(self).book(),
                    final(self).book(),
                    t,
                    old(self).refusals(),
                    final(self).refusals(),
                    r,
                ),
    {
        let trade = synced_trade_from_event(event);
        assert(fill_of(trade, *event));
        self.process_trade(&trade)
    }

    /// Books a deposit, refusing one booked before.
    pub fn process_deposit(&mut self, deposit: &SyncedDeposit) -> (r: Result<LedgerEntry, String>)
        requires
            !already_booked(old(self).book(), deposit.exchange, "deposit"@, deposit.deposit_id@)
                ==> add_ok(
                latest_balance(old(self).book(), deposit.exchange, deposit.asset@),
                deposit.amount.repr(),
            ),
        ensures
            deposit_processed(old(self).book(), final(self).book(), *deposit, r),
            error_passed_on(
                old(self).refusals(),
                final(self).refusals(),
                r,
                already_booked(old(self).book(), deposit.exchange, "deposit"@, deposit.deposit_id@),
            ),
    {
        if self.store.get_entry_by_reference(deposit.exchange, "deposit", deposit.deposit_id.as_str()).is_some() {
            return Err(deposit_already_processed(deposit));
        }
        let balance = self.store.get_balance(deposit.exchange, deposit.asset.as_str());
        let entry = deposit_entry(deposit, balance, now_millis());
        let ghost r0 = self.refusals();
        match self.store.insert_entry(&entry) {
            Ok(()) => Ok(entry),
            Err(e) => {
                assert(self.refusals().drop_last() =~= r0);
                Err(e)
            },
        }
    }

    /// Books a withdrawal, amount and fee together, refusing one booked
    /// before.
    pub fn process_withdrawal(&mut self, withdrawal: &SyncedWithdrawal) -> (r: Result<LedgerEntry, String>)
        requires
            !already_booked(
                old(self).book(),
                withdrawal.exchange,
                "withdrawal"@,
                withdrawal.withdrawal_id@,
            ) ==> withdrawal_arith_ok(
                *withdrawal,
                latest_balance(old(self).book(), withdrawal.exchange, withdrawal.asset@),
            ),
        ensures
            withdrawal_processed(old(self).book(), final(self).book(), *withdrawal, r),
            error_passed_on(
                old(self).refusals(),
                final(self).refusals(),
                r,
                already_booked(old(self).book(), withdrawal.exchange, "withdrawal"@, withdrawal.withdrawal_id@),
            ),
    {
        if self.store.get_entry_by_reference(
            withdrawal.exchange,
            "withdrawal",
            withdrawal.withdrawal_id.as_str(),
        ).is_some() {
            return Err(withdrawal_already_processed(withdrawal));
        }
        let balance = self.store.get_balance(withdrawal.exchange, withdrawal.asset.as_str());
        let entry = withdrawal_entry(withdrawal, balance, now_millis());
        let ghost r0 = self.refusals();
        match self.store.insert_entry(&entry) {
            Ok(()) => Ok(entry),
            Err(e) => {
                assert(self.refusals().drop_last() =~= r0);
                Err(e)
            },
        }
    }

    /// Books a funding payment in USDT, refusing one booked before.
    pub fn process_funding(&mut self, funding: &SyncedFunding) -> (r: Result<LedgerEntry, String>)
        requires
            !already_booked(old(self).book(), funding.exchange, "funding"@, funding.funding_id@)
                ==> add_ok(
                latest_balance(old(self).book(), funding.exchange, "USDT"@),
                funding.amount.repr(),
            ),
        ensures
            funding_processed(old(self).book(), final(self).book(), *funding, r),
            error_passed_on(
                old(self).refusals(),
                final(self).refusals(),
                r,
                already_booked(old(self).book(), funding.exchange, "funding"@, funding.funding_id@),
            ),
    {
        if self.store.get_entry_by_reference(funding.exchange, "funding", funding.funding_id.as_str()).is_some() {
            return Err(funding_already_processed(funding));
        }
        let balance = self.store.get_balance(funding.exchange, "USDT");
        let entry = funding_entry(funding, balance, now_millis());
        let ghost r0 = self.refusals();
        match self.store.insert_entry(&entry) {
            Ok(()) => Ok(entry),
            Err(e) => {
                assert(self.refusals().drop_last() =~= r0);
                Err(e)
            },
        }
    }

    /// The page of entries that the filters ask for, oldest first.
    pub fn get_entries(&self, filters: &LedgerFilters) -> (r: Vec<LedgerEntry>)
        ensures
            r@ == page(selected(self.book(), *filters), *filters),
    {
        self.store.get_entries(filters)
    }

    /// The balance of `asset` on `exchange`.
    pub fn get_balance(&self, exchange: Exchange, asset: &str) -> (r: Dec)
        ensures
            r.repr() == latest_balance(self.book(), exchange, asset@),
    {
        self.store.get_balance(exchange, asset)
    }

    /// The balance of every asset with entries on `exchange`.
    pub fn get_all_balances(&self, exchange: Exchange) -> (r: Vec<AssetBalance>)
        ensures
            all_balances(self.book(), exchange, r@),
    {
        self.store.get_all_balances(exchange)
    }

    /// The totals of `asset` on `exchange` between the instants, with its
    /// current balance.
    pub fn get_summary(
        &self,
        exchange: Exchange,
        asset: &str,
        start_time: Option<i64>,
        end_time: Option<i64>,
    ) -> (r: LedgerSummary)
        requires
            summary_arith_ok(period_entries(self.book(), exchange, asset@, start_time, end_time)),
        ensures
            r.asset@ == asset@,
            summarizes(self.book(), exchange, start_time, end_time, r),
    {
        let filters = LedgerFilters::for_asset(exchange, asset, start_time, end_time);
        let entries = self.store.get_entries(&filters);
        proof {
            lemma_kept_agree(
                self.book(),
                |e: LedgerEntry| selects(filters, e),
                |e: LedgerEntry| in_period(e, exchange, asset@, start_time, end_time),
            );
            let all = selected(self.book(), filters);
            assert(all.subrange(0, all.len() as int) =~= all);
        }
        let balance = self.store.get_balance(exchange, asset);
        summarize(&entries, exchange, asset, start_time, end_time, balance)
    }

    /// A summary of every asset with entries on `exchange`, between the
    /// instants.
    pub fn get_all_summaries(&self, exchange: Exchange, start_time: Option<i64>, end_time: Option<i64>) -> (r:
        Vec<LedgerSummary>)
        requires
            forall|a: Seq<char>|
                summary_arith_ok(
                    #[trigger] period_entries(self.book(), exchange, a, start_time, end_time),
                ),
        ensures
            forall|i: int|
                0 <= i < r@.len() ==> summarizes(
                    self.book(),
                    exchange,
                    start_time,
                    end_time,
                    #[trigger] r@[i],
                ),
            forall|i: int, j: int|
                0 <= i < j < r@.len() ==> #[trigger] r@[i].asset@ != #[trigger] r@[j].asset@,
            forall|k: int|
                0 <= k < self.book().len() && (#[trigger] self.book()[k]).exchange == exchange
                    ==> exists|i: int| 0 <= i < r@.len() && #[trigger] r@[i].asset@ == self.book()[k].asset@,
    {
        let balances = self.store.get_all_balances(exchange);
        let mut summaries: Vec<LedgerSummary> = Vec::new();
        let mut i: usize = 0;
        while i < balances.len()
            invariant
                i <= balances@.len(),
                summaries@.len() == i,
                forall|a: Seq<char>|
                    summary_arith_ok(
                        #[trigger] period_entries(self.book(), exchange, a, start_time, end_time),
                    ),
                forall|k: int|
                    0 <= k < i ==> (#[trigger] summaries@[k]).asset@ == balances@[k].asset@
                        && summarizes(self.book(), exchange, start_time, end_time, summaries@[k]),
            decreases balances@.len() - i,
        {
            let s = self.get_summary(exchange, balances[i].asset.as_str(), start_time, end_time);
            summaries.push(s);
            i += 1;
        }
        proof {
            assert forall|i: int, j: int|
                0 <= i < j < summaries@.len() implies #[trigger] summaries@[i].asset@
                    != #[trigger] summaries@[j].asset@ by {
                assert(balances@[i].asset@ != balances@[j].asset@);
            }
            assert forall|k: int|
                0 <= k < self.book().len() && (#[trigger] self.book()[k]).exchange
                    == exchange implies exists|i: int|
                0 <= i < summaries@.len() && #[trigger] summaries@[i].asset@
                    == self.book()[k].asset@ by {
                let i0 = choose|i: int|
                    0 <= i < balances@.len() && #[trigger] balances@[i].asset@
                        == self.book()[k].asset@;
                assert(summaries@[i0].asset@ == self.book()[k].asset@);
            }
        }
        summaries
    }

    /// How many entries the filters let through (limit and offset aside).
    pub fn count_entries(&self, filters: &LedgerFilters) -> (r: u64)
        ensures
            r == selected(self.book(), *filters).len(),
    {
        self.store.count_entries(filters)
    }

    /// The balance of every asset on `exchange`, added up again from its
    /// entries.
    pub fn recalculate_balances(&self, exchange: Exchange) -> (r: Result<Vec<(String, Dec)>, String>)
        requires
            sums_fit(entry_items(exchange_entries(self.book(), exchange))),
        ensures
            r matches Ok(v) && asset_totals(v@, exchange_entries(self.book(), exchange)),
    {
        let filters = LedgerFilters::for_exchange(exchange);
        let entries = self.store.get_entries(&filters);
        proof {
            lemma_kept_agree(
                self.book(),
                |e: LedgerEntry| selects(filters, e),
                |e: LedgerEntry| e.exchange == exchange,
            );
            let all = selected(self.book(), filters);
            assert(all.subrange(0, all.len() as int) =~= all);
        }
        Ok(totals_by_asset(&entries))
    }
}

// Laws of the ledger.

/// The sum of the amounts that moved `asset` on `exchange`.
pub open spec fn moved_total(s: Seq<LedgerEntry>, exchange: Exchange, asset: Seq<char>) -> int
    decreases s.len(),
{
    if s.len() == 0 {
        0
    } else {
        moved_total(s.drop_last(), exchange, asset) + if moves(s.last(), exchange, asset) {
            s.last().amount.v()
        } else {
            0
        }
    }
}

/// Every balance is the sum of the amounts that moved its asset.
pub open spec fn balances_consistent(s: Seq<LedgerEntry>) -> bool {
    forall|exchange: Exchange, asset: Seq<char>|
        #[trigger] latest_balance(s, exchange, asset).0 == moved_total(s, exchange, asset)
}

/// An entry that leaves its asset's balance plus its amount keeps the
/// balances consistent, and moves no other balance.
proof fn lemma_push_consistent(s: Seq<LedgerEntry>, e: LedgerEntry)
    requires
        balances_consistent(s),
        e.balance_after.v() == latest_balance(s, e.exchange, e.asset@).0 + e.amount.v(),
    ensures
        balances_consistent(s.push(e)),
        forall|exchange: Exchange, asset: Seq<char>|
            !moves(e, exchange, asset) ==> #[trigger] latest_balance(s.push(e), exchange, asset)
                == latest_balance(s, exchange, asset),
{
    assert(s.push(e).drop_last() =~= s);
    assert(s.push(e).last() == e);
    assert forall|exchange: Exchange, asset: Seq<char>|
        #[trigger] latest_balance(s.push(e), exchange, asset).0 == moved_total(
            s.push(e),
            exchange,
            asset,
        ) by {
        assert(latest_balance(s, exchange, asset).0 == moved_total(s, exchange, asset));
    }
}

/// The empty ledger is consistent: every balance is zero.
pub proof fn law_empty_ledger_consistent()
    ensures
        balances_consistent(Seq::<LedgerEntry>::empty()),
{
}

/// Booking a deposit keeps every balance the sum of its asset's amounts;
/// the deposited asset's balance grows by the amount and no other balance
/// moves.
pub proof fn law_deposit_keeps_balances(
    s0: Seq<LedgerEntry>,
    s1: Seq<LedgerEntry>,
    d: SyncedDeposit,
    r: Result<LedgerEntry, String>,
)
    requires
        balances_consistent(s0),
        deposit_processed(s0, s1, d, r),
    ensures
        balances_consistent(s1),
        r is Ok ==> latest_balance(s1, d.exchange, d.asset@) == radd(
            latest_balance(s0, d.exchange, d.asset@),
            d.amount.repr(),
        ),
        forall|exchange: Exchange, asset: Seq<char>|
            !(exchange == d.exchange && asset == d.asset@) ==> #[trigger] latest_balance(
                s1,
                exchange,
                asset,
            ) == latest_balance(s0, exchange, asset),
{
    if let Ok(e) = r {
        if !already_booked(s0, d.exchange, "deposit"@, d.deposit_id@) {
            lemma_push_consistent(s0, e);
        }
    }
}

/// Booking a withdrawal keeps every balance the sum of its asset's
/// amounts; the asset's balance drops by amount and fee and no other
/// balance moves.
pub proof fn law_withdrawal_keeps_balances(
    s0: Seq<LedgerEntry>,
    s1: Seq<LedgerEntry>,
    w: SyncedWithdrawal,
    r: Result<LedgerEntry, String>,
)
    requires
        balances_consistent(s0),
        withdrawal_processed(s0, s1, w, r),
    ensures
        balances_consistent(s1),
        r is Ok ==> latest_balance(s1, w.exchange, w.asset@).0 == latest_balance(
            s0,
            w.exchange,
            w.asset@,
        ).0 - w.amount.v() - w.fee.v(),
        forall|exchange: Exchange, asset: Seq<char>|
            !(exchange == w.exchange && asset == w.asset@) ==> #[trigger] latest_balance(
                s1,
                exchange,
                asset,
            ) == latest_balance(s0, exchange, asset),
{
    if let Ok(e) = r {
        if !already_booked(s0, w.exchange, "withdrawal"@, w.withdrawal_id@) {
            lemma_push_consistent(s0, e);
        }
    }
}

/// Booking a funding payment keeps every balance the sum of its asset's
/// amounts; the USDT balance moves by the payment and no other balance
/// moves.
pub proof fn law_funding_keeps_balances(
    s0: Seq<LedgerEntry>,
    s1: Seq<LedgerEntry>,
    f: SyncedFunding,
    r: Result<LedgerEntry, String>,
)
    requires
        balances_consistent(s0),
        funding_processed(s0, s1, f, r),
    ensures
        balances_consistent(s1),
        r is Ok ==> latest_balance(s1, f.exchange, "USDT"@) == radd(
            latest_balance(s0, f.exchange, "USDT"@),
            f.amount.repr(),
        ),
        forall|exchange: Exchange, asset: Seq<char>|
            !(exchange == f.exchange && asset == "USDT"@) ==> #[trigger] latest_balance(
                s1,
                exchange,
                asset,
            ) == latest_balance(s0, exchange, asset),
{
    if let Ok(e) = r {
        if !already_booked(s0, f.exchange, "funding"@, f.funding_id@) {
            lemma_push_consistent(s0, e);
        }
    }
}

/// Booking a trade keeps every balance the sum of its asset's amounts.
pub proof fn law_trade_keeps_balances(
    s0: Seq<LedgerEntry>,
    s1: Seq<LedgerEntry>,
    t: SyncedTrade,
    r: Result<Vec<LedgerEntry>, String>,
)
    requires
        balances_consistent(s0),
        trade_processed(s0, s1, t, r),
    ensures
        balances_consistent(s1),
{
    if !already_booked(s0, t.exchange, "trade"@, t.trade_id@) {
        let nc: int = if pays_commission(t) {
            1
        } else {
            0
        };
        let mid = if pays_commission(t) {
            s1.take(s0.len() as int + 1)
        } else {
            s0
        };
        match r {
            Ok(v) => {
                if pays_commission(t) {
                    assert(s0.push(v@[0]) =~= (s0 + v@).take(s0.len() as int + 1));
                    lemma_push_consistent(s0, v@[0]);
                    lemma_after_commission(s0, t, v@[0]);
                }
                if realizes_pnl(t) {
                    assert(mid.push(v@[nc]) =~= s0 + v@);
                    lemma_push_consistent(mid, v@[nc]);
                } else {
                    assert(mid =~= s0 + v@);
                }
            },
            Err(_) => {
                if s1 != s0 {
                    assert(s0.push(s1.last()) =~= s1);
                    lemma_push_consistent(s0, s1.last());
                }
            },
        }
    }
}

/// A deposit booked once is refused the next time, and the ledger stays
/// as it was.
pub proof fn law_deposit_books_once(
    s0: Seq<LedgerEntry>,
    s1: Seq<LedgerEntry>,
    s2: Seq<LedgerEntry>,
    d: SyncedDeposit,
    r1: Result<LedgerEntry, String>,
    r2: Result<LedgerEntry, String>,
)
    requires
        deposit_processed(s0, s1, d, r1),
        r1 is Ok,
        deposit_processed(s1, s2, d, r2),
    ensures
        r2 matches Err(m) && m@ == already_processed_text("Deposit "@, d.deposit_id@),
        s2 == s1,
{
    if !already_booked(s0, d.exchange, "deposit"@, d.deposit_id@) {
        assert(refers_to(s1[s0.len() as int], d.exchange, "deposit"@, d.deposit_id@));
    }
}

/// A trade booked once books nothing the next time.
pub proof fn law_trade_books_once(
    s0: Seq<LedgerEntry>,
    s1: Seq<LedgerEntry>,
    s2: Seq<LedgerEntry>,
    t: SyncedTrade,
    r1: Result<Vec<LedgerEntry>, String>,
    r2: Result<Vec<LedgerEntry>, String>,
)
    requires
        trade_processed(s0, s1, t, r1),
        r1 is Ok,
        trade_processed(s1, s2, t, r2),
    ensures
        r2 matches Ok(v) && v@.len() == 0,
        s2 == s1,
{
    if !already_booked(s0, t.exchange, "trade"@, t.trade_id@) && trade_entry_count(t) > 0 {
        assert(refers_to(s1[s0.len() as int], t.exchange, "trade"@, t.trade_id@));
    }
}

} // verus!
