//! Reconciliation: compares the ledger's balances with the exchange's,
//! classifies the differences that matter, and rates the health of recent
//! reconciliations.  Fetching balances and storing snapshots are done by
//! the application.  Instants are milliseconds since the Unix epoch.
use crate::clock::new_id;
use crate::decimal::{
    abs_val, decimal_quotient, div_ok, mul_ok, pow10, rabs, rint, rmax, rmul, reprs, rsub, rsum,
    sub_ok, sum_all, sum_fits, Dec,
};
use crate::ws_manager::Exchange;
use vstd::prelude::*;

verus! {

/// Outcome of a reconciliation.
#[derive(Clone, Copy, Debug, PartialEq, Eq, Structural)]
pub enum ReconciliationStatus {
    Matched,
    Discrepancies,
    InProgress,
    Failed,
}

/// How two balances differ.
#[derive(Clone, Copy, Debug, PartialEq, Eq, Structural)]
pub enum DiscrepancyType {
    LedgerHigher,
    ExchangeHigher,
    MissingOnExchange,
    MissingInLedger,
}

/// A difference that matters.
#[derive(Clone, Debug)]
pub struct Discrepancy {
    pub asset: String,
    pub discrepancy_type: DiscrepancyType,
    pub ledger_balance: Dec,
    pub exchange_balance: Dec,
    pub difference: Dec,
    pub difference_pct: Dec,
}

/// The balance of one asset, as one side reports it.
#[derive(Clone, Debug)]
pub struct BalanceSnapshot {
    pub asset: String,
    pub balance: Dec,
}

/// A reconciliation, for the audit trail.
#[derive(Clone, Debug)]
pub struct ReconciliationSnapshot {
    pub id: String,
    pub exchange: Exchange,
    pub status: ReconciliationStatus,
    pub ledger_balances: Vec<BalanceSnapshot>,
    pub exchange_balances: Vec<BalanceSnapshot>,
    pub discrepancies: Vec<Discrepancy>,
    pub total_discrepancy_value: Dec,
    pub created_at: i64,
    pub notes: Option<String>,
}

/// Tolerances.
#[derive(Clone, Debug)]
pub struct ReconciliationConfig {
    /// Relative tolerance, as a fraction (0.001 is 0.1%).
    pub tolerance_pct: Dec,
    /// Differences below this are ignored.
    pub min_difference: Dec,
    /// Ignore differences up to the dust threshold.
    pub auto_resolve_dust: bool,
    pub dust_threshold: Dec,
}

impl ReconciliationConfig {
    /// Tolerance 0.001, minimum difference 0.00000001, dust up to 0.01
    /// ignored.
    pub fn default() -> (r: Self)
        ensures
            r.tolerance_pct.repr() == (pow10(25), 3nat),
            r.min_difference.repr() == (pow10(20), 8nat),
            r.auto_resolve_dust,
            r.dust_threshold.repr() == (pow10(26), 2nat),
    {
        ReconciliationConfig {
            tolerance_pct: Dec::new(1, 3),
            min_difference: Dec::new(1, 8),
            auto_resolve_dust: true,
            dust_threshold: Dec::new(1, 2),
        }
    }
}

/// Overall health of recent reconciliations.
#[derive(Clone, Copy, Debug, PartialEq, Eq, Structural)]
pub enum HealthStatus {
    Healthy,
    Warning,
    Critical,
    Unknown,
}

#[derive(Clone, Debug)]
pub struct ReconciliationHealth {
    pub exchange: Exchange,
    pub status: HealthStatus,
    pub last_reconciliation: Option<i64>,
    pub consecutive_discrepancies: u32,
    pub total_discrepancy_value: Dec,
}

/// A discrepancy as values: asset, kind, ledger balance, exchange balance,
/// difference and percentage.
pub type Shape = (Seq<char>, DiscrepancyType, (int, nat), (int, nat), (int, nat), (int, nat));

pub open spec fn shape_of(d: Discrepancy) -> Shape {
    (
        d.asset@,
        d.discrepancy_type,
        d.ledger_balance.repr(),
        d.exchange_balance.repr(),
        d.difference.repr(),
        d.difference_pct.repr(),
    )
}

pub open spec fn shapes_of(ds: Seq<Discrepancy>) -> Seq<Shape> {
    ds.map_values(|d: Discrepancy| shape_of(d))
}

/// The percentage of the difference in the larger balance; zero when that
/// is not positive.
pub open spec fn difference_pct(ledger: (int, nat), exchange: (int, nat)) -> (int, nat) {
    let base = rmax(ledger, exchange);
    if base.0 > 0 {
        rmul(decimal_quotient(rabs(rsub(ledger, exchange)), base), rint(100))
    } else {
        (0, 0)
    }
}

/// What comparing one asset's two balances reports: nothing when the
/// difference is below the minimum, within the tolerance, or dust (when
/// dust is ignored); else which side is higher.
pub open spec fn discrepancy_shape(
    cfg: ReconciliationConfig,
    asset: Seq<char>,
    ledger: (int, nat),
    exchange: (int, nat),
) -> Option<Shape> {
    let difference = rsub(ledger, exchange);
    let size = abs_val(difference.0);
    let pct = difference_pct(ledger, exchange);
    if size < cfg.min_difference.v() {
        None
    } else if pct.0 <= rmul(cfg.tolerance_pct.repr(), rint(100)).0 {
        None
    } else if cfg.auto_resolve_dust && size <= cfg.dust_threshold.v() {
        None
    } else {
        Some(
            (
                asset,
                if difference.0 > 0 {
                    DiscrepancyType::LedgerHigher
                } else {
                    DiscrepancyType::ExchangeHigher
                },
                ledger,
                exchange,
                difference,
                pct,
            ),
        )
    }
}

pub open spec fn discrepancy_arith_ok(cfg: ReconciliationConfig, ledger: (int, nat), exchange: (int, nat)) -> bool {
    let difference = rsub(ledger, exchange);
    let base = rmax(ledger, exchange);
    &&& sub_ok(ledger, exchange)
    &&& abs_val(difference.0) >= cfg.min_difference.v() ==> {
        &&& base.0 > 0 ==> div_ok(rabs(difference), base) && mul_ok(
            decimal_quotient(rabs(difference), base),
            rint(100),
        )
        &&& mul_ok(cfg.tolerance_pct.repr(), rint(100))
    }
}

/// Entry `i` is the last one for its asset.
pub open spec fn is_last(bs: Seq<BalanceSnapshot>, i: int) -> bool {
    forall|j: int| i < j < bs.len() ==> #[trigger] bs[j].asset@ != bs[i].asset@
}

/// The index of the last entry for `asset`, or -1.
pub open spec fn last_index(bs: Seq<BalanceSnapshot>, asset: Seq<char>) -> int
    decreases bs.len(),
{
    if bs.len() == 0 {
        -1
    } else if bs.last().asset@ == asset {
        bs.len() - 1
    } else {
        last_index(bs.drop_last(), asset)
    }
}

/// What one ledger entry (the last for its asset) reports.
pub open spec fn ledger_entry_shapes(
    cfg: ReconciliationConfig,
    b: BalanceSnapshot,
    exchange: Seq<BalanceSnapshot>,
) -> Seq<Shape> {
    let j = last_index(exchange, b.asset@);
    if j >= 0 {
        match discrepancy_shape(cfg, b.asset@, b.balance.repr(), exchange[j].balance.repr()) {
            Some(s) => seq![s],
            None => Seq::empty(),
        }
    } else if b.balance.v() > cfg.min_difference.v() {
        seq![(
            b.asset@,
            DiscrepancyType::MissingOnExchange,
            b.balance.repr(),
            (0int, 0nat),
            b.balance.repr(),
            rint(100),
        )]
    } else {
        Seq::empty()
    }
}

/// What the first `n` ledger entries report.
pub open spec fn ledger_shapes(
    cfg: ReconciliationConfig,
    ledger: Seq<BalanceSnapshot>,
    exchange: Seq<BalanceSnapshot>,
    n: nat,
) -> Seq<Shape>
    decreases n,
{
    if n == 0 {
        Seq::empty()
    } else {
        let rest = ledger_shapes(cfg, ledger, exchange, (n - 1) as nat);
        if is_last(ledger, n - 1) {
            rest + ledger_entry_shapes(cfg, ledger[n - 1], exchange)
        } else {
            rest
        }
    }
}

/// What the first `n` exchange entries report: assets the ledger lacks.
pub open spec fn exchange_shapes(
    cfg: ReconciliationConfig,
    ledger: Seq<BalanceSnapshot>,
    exchange: Seq<BalanceSnapshot>,
    n: nat,
) -> Seq<Shape>
    decreases n,
{
    if n == 0 {
        Seq::empty()
    } else {
        let rest = exchange_shapes(cfg, ledger, exchange, (n - 1) as nat);
        let b = exchange[n - 1];
        if is_last(exchange, n - 1) && last_index(ledger, b.asset@) < 0 && b.balance.v()
            > cfg.min_difference.v() {
            rest.push(
                (
                    b.asset@,
                    DiscrepancyType::MissingInLedger,
                    (0int, 0nat),
                    b.balance.repr(),
                    b.balance.repr(),
                    rint(100),
                ),
            )
        } else {
            rest
        }
    }
}

/// All discrepancies between the two sides: per ledger asset (its last
/// balance against the exchange's last one), then per asset only the
/// exchange has.
pub open spec fn all_shapes(
    cfg: ReconciliationConfig,
    ledger: Seq<BalanceSnapshot>,
    exchange: Seq<BalanceSnapshot>,
) -> Seq<Shape> {
    ledger_shapes(cfg, ledger, exchange, ledger.len()) + exchange_shapes(
        cfg,
        ledger,
        exchange,
        exchange.len(),
    )
}

pub open spec fn compare_arith_ok(
    cfg: ReconciliationConfig,
    ledger: Seq<BalanceSnapshot>,
    exchange: Seq<BalanceSnapshot>,
) -> bool {
    forall|i: int|
        0 <= i < ledger.len() && is_last(ledger, i) && last_index(exchange, ledger[i].asset@) >= 0
            ==> discrepancy_arith_ok(
            cfg,
            (#[trigger] ledger[i]).balance.repr(),
            exchange[last_index(exchange, ledger[i].asset@)].balance.repr(),
        )
}

/// The sizes of the differences.
pub open spec fn difference_sizes(ds: Seq<Discrepancy>) -> Seq<(int, nat)> {
    ds.map_values(|d: Discrepancy| rabs(d.difference.repr()))
}

/// The sizes of the differences of shapes.
pub open spec fn shape_sizes(s: Seq<Shape>) -> Seq<(int, nat)> {
    s.map_values(|x: Shape| rabs(x.4))
}

/// Health: healthy when the last reconciliation matched; when it found
/// discrepancies, a warning for one or two in a row and critical beyond;
/// unknown otherwise.
pub open spec fn health_of(last: ReconciliationStatus, consecutive: u32) -> HealthStatus {
    match last {
        ReconciliationStatus::Matched => HealthStatus::Healthy,
        ReconciliationStatus::Discrepancies => if 1 <= consecutive <= 2 {
            HealthStatus::Warning
        } else {
            HealthStatus::Critical
        },
        _ => HealthStatus::Unknown,
    }
}

/// The number of leading snapshots that found discrepancies.
pub open spec fn leading_discrepancies(s: Seq<ReconciliationSnapshot>) -> nat
    decreases s.len(),
{
    if s.len() > 0 && s[0].status == ReconciliationStatus::Discrepancies {
        1 + leading_discrepancies(s.drop_first())
    } else {
        0
    }
}

/// Compares balances with the configured tolerances.
pub struct ReconciliationService {
    config: ReconciliationConfig,
}

impl ReconciliationService {
    pub closed spec fn cfg(&self) -> ReconciliationConfig {
        self.config
    }

    pub fn new(config: ReconciliationConfig) -> (r: Self)
        ensures
            r.cfg() == config,
    {
        ReconciliationService { config }
    }

    /// Compares one asset's ledger and exchange balances.
    pub fn check_discrepancy(&self, asset: &str, ledger_balance: Dec, exchange_balance: Dec) -> (r:
        Option<Discrepancy>)
        requires
            discrepancy_arith_ok(self.cfg(), ledger_balance.repr(), exchange_balance.repr()),
        ensures
            match discrepancy_shape(
                self.cfg(),
                asset@,
                ledger_balance.repr(),
                exchange_balance.repr(),
            ) {
                Some(s) => r matches Some(d) && shape_of(d) == s,
                None => r is None,
            },
    {
        let difference = ledger_balance.sub(exchange_balance);
        let size = difference.abs();
        if size.lt(&self.config.min_difference) {
            return None;
        }
        let base = ledger_balance.max(&exchange_balance);
        let pct = if base.is_positive() {
            size.div(base).mul(Dec::from_u32(100))
        } else {
            Dec::zero()
        };
        if pct.le(&self.config.tolerance_pct.mul(Dec::from_u32(100))) {
            return None;
        }
        if self.config.auto_resolve_dust && size.le(&self.config.dust_threshold) {
            return None;
        }
        let discrepancy_type = if difference.is_positive() {
            DiscrepancyType::LedgerHigher
        } else {
            DiscrepancyType::ExchangeHigher
        };
        Some(
            Discrepancy {
                asset: asset.to_string(),
                discrepancy_type,
                ledger_balance,
                exchange_balance,
                difference,
                difference_pct: pct,
            },
        )
    }

    /// The index of the last entry for `asset`, if any.
    fn find_last(bs: &Vec<BalanceSnapshot>, asset: &String) -> (r: Option<usize>)
        ensures
            match r {
                Some(j) => j == last_index(bs@, asset@) && j < bs@.len(),
                None => last_index(bs@, asset@) == -1,
            },
    {
        let mut k: usize = bs.len();
        assert(bs@.take(bs@.len() as int) =~= bs@);
        while k > 0
            invariant
                k <= bs@.len(),
                last_index(bs@, asset@) == last_index(bs@.take(k as int), asset@),
            decreases k,
        {
            assert(bs@.take(k as int).drop_last() =~= bs@.take(k as int - 1));
            if bs[k - 1].asset == *asset {
                return Some(k - 1);
            }
            k -= 1;
        }
        None
    }

    /// Whether entry `i` is the last for its asset.
    fn last_for_asset(bs: &Vec<BalanceSnapshot>, i: usize) -> (r: bool)
        requires
            i < bs@.len(),
        ensures
            r == is_last(bs@, i as int),
    {
        let n = bs.len();
        let mut j: usize = i + 1;
        while j < n
            invariant
                i < j <= bs@.len(),
                n == bs@.len(),
                forall|k: int| i < k < j ==> #[trigger] bs@[k].asset@ != bs@[i as int].asset@,
            decreases bs@.len() - j,
        {
            if bs[j].asset == bs[i].asset {
                return false;
            }
            j += 1;
        }
        true
    }

    /// All discrepancies between the ledger's and the exchange's balances
    /// (each side's last balance per asset counts).
    pub fn compare_balances(&self, ledger_balances: &Vec<BalanceSnapshot>, exchange_balances: &Vec<
        BalanceSnapshot,
    >) -> (r: Vec<Discrepancy>)
        requires
            compare_arith_ok(self.cfg(), ledger_balances@, exchange_balances@),
        ensures
            shapes_of(r@) == all_shapes(self.cfg(), ledger_balances@, exchange_balances@),
    {
        let ghost cfg = self.config;
        let ghost l = ledger_balances@;
        let ghost x = exchange_balances@;
        let mut out: Vec<Discrepancy> = Vec::new();
        let mut i: usize = 0;
        while i < ledger_balances.len()
            invariant
                i <= l.len(),
                l == ledger_balances@,
                x == exchange_balances@,
                cfg == self.config,
                compare_arith_ok(cfg, l, x),
                shapes_of(out@) == ledger_shapes(cfg, l, x, i as nat),
            decreases l.len() - i,
        {
            let ghost before = out@;
            if Self::last_for_asset(ledger_balances, i) {
                let b = &ledger_balances[i];
                match Self::find_last(exchange_balances, &b.asset) {
                    Some(j) => {
                        assert(discrepancy_arith_ok(
                            cfg,
                            l[i as int].balance.repr(),
                            x[last_index(x, l[i as int].asset@)].balance.repr(),
                        ));
                        match self.check_discrepancy(b.asset.as_str(), b.balance, exchange_balances[j].balance) {
                            Some(d) => {
                                out.push(d);
                                assert(shapes_of(out@) =~= shapes_of(before).push(shape_of(d)));
                            },
                            None => {},
                        }
                    },
                    None => {
                        if b.balance.gt(&self.config.min_difference) {
                            let d = Discrepancy {
                                asset: b.asset.clone(),
                                discrepancy_type: DiscrepancyType::MissingOnExchange,
                                ledger_balance: b.balance,
                                exchange_balance: Dec::zero(),
                                difference: b.balance,
                                difference_pct: Dec::from_u32(100),
                            };
                            out.push(d);
                            assert(shapes_of(out@) =~= shapes_of(before).push(shape_of(d)));
                        }
                    },
                }
            }
            proof {
                let e = ledger_entry_shapes(cfg, l[i as int], x);
                assert(shapes_of(out@) =~= ledger_shapes(cfg, l, x, i as nat) + if is_last(
                    l,
                    i as int,
                ) {
                    e
                } else {
                    Seq::empty()
                });
            }
            i += 1;
        }
        let ghost mid = out@;
        let mut k: usize = 0;
        while k < exchange_balances.len()
            invariant
                k <= x.len(),
                l == ledger_balances@,
                x == exchange_balances@,
                cfg == self.config,
                shapes_of(mid) == ledger_shapes(cfg, l, x, l.len()),
                shapes_of(out@) == shapes_of(mid) + exchange_shapes(cfg, l, x, k as nat),
            decreases x.len() - k,
        {
            let ghost before = out@;
            let b = &exchange_balances[k];
            if Self::last_for_asset(exchange_balances, k) {
                match Self::find_last(ledger_balances, &b.asset) {
                    Some(_) => {},
                    None => {
                        if b.balance.gt(&self.config.min_difference) {
                            let d = Discrepancy {
                                asset: b.asset.clone(),
                                discrepancy_type: DiscrepancyType::MissingInLedger,
                                ledger_balance: Dec::zero(),
                                exchange_balance: b.balance,
                                difference: b.balance,
                                difference_pct: Dec::from_u32(100),
                            };
                            out.push(d);
                            assert(shapes_of(out@) =~= shapes_of(before).push(shape_of(d)));
                        }
                    },
                }
            }
            assert(shapes_of(out@) =~= shapes_of(mid) + exchange_shapes(cfg, l, x, k as nat + 1));
            k += 1;
        }
        out
    }

    /// The snapshot of reconciling `ledger_balances` with
    /// `exchange_balances` at `now`: matched when nothing differs, with the
    /// total size of the differences.
    pub fn build_snapshot(
        &self,
        exchange: Exchange,
        ledger_balances: Vec<BalanceSnapshot>,
        exchange_balances: Vec<BalanceSnapshot>,
        now: i64,
    ) -> (r: ReconciliationSnapshot)
        requires
            compare_arith_ok(self.cfg(), ledger_balances@, exchange_balances@),
            sum_fits(shape_sizes(all_shapes(self.cfg(), ledger_balances@, exchange_balances@))),
        ensures
            r.exchange == exchange,
            shapes_of(r.discrepancies@) == all_shapes(
                self.cfg(),
                ledger_balances@,
                exchange_balances@,
            ),
            r.status == if r.discrepancies@.len() == 0 {
                ReconciliationStatus::Matched
            } else {
                ReconciliationStatus::Discrepancies
            },
            r.total_discrepancy_value.repr() == rsum(difference_sizes(r.discrepancies@)),
            r.ledger_balances == ledger_balances,
            r.exchange_balances == exchange_balances,
            r.created_at == now,
            r.notes is None,
    {
        let discrepancies = self.compare_balances(&ledger_balances, &exchange_balances);
        let status = if discrepancies.len() == 0 {
            ReconciliationStatus::Matched
        } else {
            ReconciliationStatus::Discrepancies
        };
        let mut sizes: Vec<Dec> = Vec::new();
        let mut i: usize = 0;
        while i < discrepancies.len()
            invariant
                i <= discrepancies@.len(),
                sizes@.len() == i,
                forall|k: int| 0 <= k < i ==> (#[trigger] sizes@[k]).repr() == rabs(discrepancies@[k].difference.repr()),
            decreases discrepancies@.len() - i,
        {
            sizes.push(discrepancies[i].difference.abs());
            i += 1;
        }
        assert(reprs(sizes@) =~= difference_sizes(discrepancies@));
        assert(difference_sizes(discrepancies@) =~= shape_sizes(shapes_of(discrepancies@)));
        let total = sum_all(&sizes);
        ReconciliationSnapshot {
            id: new_id(),
            exchange,
            status,
            ledger_balances,
            exchange_balances,
            discrepancies,
            total_discrepancy_value: total,
            created_at: now,
            notes: None,
        }
    }

    /// The health of the `recent` snapshots of an exchange, newest first.
    pub fn get_health(&self, exchange: Exchange, recent: &Vec<ReconciliationSnapshot>) -> (r:
        ReconciliationHealth)
        requires
            recent@.len() <= u32::MAX,
        ensures
            r.exchange == exchange,
            recent@.len() == 0 ==> r.status == HealthStatus::Unknown && r.last_reconciliation is None
                && r.consecutive_discrepancies == 0 && r.total_discrepancy_value.v() == 0,
            recent@.len() > 0 ==> {
                &&& r.consecutive_discrepancies == leading_discrepancies(recent@)
                &&& r.status == health_of(recent@[0].status, r.consecutive_discrepancies)
                &&& r.last_reconciliation == Some(recent@[0].created_at)
                &&& r.total_discrepancy_value == recent@[0].total_discrepancy_value
            },
    {
        if recent.len() == 0 {
            return ReconciliationHealth {
                exchange,
                status: HealthStatus::Unknown,
                last_reconciliation: None,
                consecutive_discrepancies: 0,
                total_discrepancy_value: Dec::zero(),
            };
        }
        let mut count: u32 = 0;
        let mut i: usize = 0;
        assert(recent@.skip(0) =~= recent@);
        while i < recent.len() && recent[i].status == ReconciliationStatus::Discrepancies
            invariant
                i <= recent@.len(),
                recent@.len() <= u32::MAX,
                count == i,
                leading_discrepancies(recent@) == i + leading_discrepancies(recent@.skip(i as int)),
            decreases recent@.len() - i,
        {
            assert(recent@.skip(i as int).drop_first() =~= recent@.skip(i as int + 1));
            count += 1;
            i += 1;
        }
        assert(leading_discrepancies(recent@.skip(i as int)) == 0) by {
            if i < recent@.len() {
                assert(recent@.skip(i as int)[0] == recent@[i as int]);
            }
        }
        let last = &recent[0];
        let status = match last.status {
            ReconciliationStatus::Matched => HealthStatus::Healthy,
            ReconciliationStatus::Discrepancies => if 1 <= count && count <= 2 {
                HealthStatus::Warning
            } else {
                HealthStatus::Critical
            },
            _ => HealthStatus::Unknown,
        };
        ReconciliationHealth {
            exchange,
            status,
            last_reconciliation: Some(last.created_at),
            consecutive_discrepancies: count,
            total_discrepancy_value: last.total_discrepancy_value,
        }
    }
}

// Laws of reconciliation.

/// Equal balances never make a discrepancy.
pub proof fn law_equal_balances_match(cfg: ReconciliationConfig, asset: Seq<char>, b: (int, nat))
    requires
        cfg.min_difference.v() > 0,
    ensures
        discrepancy_shape(cfg, asset, b, b) is None,
{
}

/// A reported discrepancy is at least the minimum difference and names the
/// higher side correctly.
pub proof fn law_reported_side(
    cfg: ReconciliationConfig,
    asset: Seq<char>,
    ledger: (int, nat),
    exchange: (int, nat),
)
    requires
        discrepancy_shape(cfg, asset, ledger, exchange) is Some,
    ensures
        abs_val(ledger.0 - exchange.0) >= cfg.min_difference.v(),
        discrepancy_shape(cfg, asset, ledger, exchange).unwrap().1 == if ledger.0 > exchange.0 {
            DiscrepancyType::LedgerHigher
        } else {
            DiscrepancyType::ExchangeHigher
        },
{
}

/// Health is healthy exactly when the newest reconciliation matched.
pub proof fn law_healthy_iff_matched(last: ReconciliationStatus, consecutive: u32)
    ensures
        (health_of(last, consecutive) == HealthStatus::Healthy) <==> (last
            == ReconciliationStatus::Matched),
{
}

/// The last entry for an entry's asset is that entry or a later one.
proof fn lemma_last_index_at_least(bs: Seq<BalanceSnapshot>, k: int)
    requires
        0 <= k < bs.len(),
    ensures
        last_index(bs, bs[k].asset@) >= k,
    decreases bs.len(),
{
    if bs.last().asset@ != bs[k].asset@ {
        assert(k < bs.len() - 1);
        assert(bs.drop_last()[k] == bs[k]);
        lemma_last_index_at_least(bs.drop_last(), k);
    }
}

/// An entry that is the last for its asset is where its asset's last entry
/// stands.
proof fn lemma_last_index_of_last(bs: Seq<BalanceSnapshot>, i: int)
    requires
        0 <= i < bs.len(),
        is_last(bs, i),
    ensures
        last_index(bs, bs[i].asset@) == i,
    decreases bs.len(),
{
    if i < bs.len() - 1 {
        assert(bs.last().asset@ != bs[i].asset@);
        let rest = bs.drop_last();
        assert(rest[i] == bs[i]);
        assert forall|j: int| i < j < rest.len() implies #[trigger] rest[j].asset@ != rest[i].asset@ by {
            assert(rest[j] == bs[j]);
        }
        lemma_last_index_of_last(rest, i);
    }
}

/// Reconciling a side with itself finds nothing, whatever the first `n`
/// entries hold.
proof fn lemma_self_shapes_empty(cfg: ReconciliationConfig, bs: Seq<BalanceSnapshot>, n: nat)
    requires
        cfg.min_difference.v() > 0,
        n <= bs.len(),
    ensures
        ledger_shapes(cfg, bs, bs, n).len() == 0,
        exchange_shapes(cfg, bs, bs, n).len() == 0,
    decreases n,
{
    if n > 0 {
        lemma_self_shapes_empty(cfg, bs, (n - 1) as nat);
        let b = bs[n - 1];
        lemma_last_index_at_least(bs, n - 1);
        if is_last(bs, n - 1) {
            lemma_last_index_of_last(bs, n - 1);
            law_equal_balances_match(cfg, b.asset@, b.balance.repr());
            assert(ledger_entry_shapes(cfg, b, bs).len() == 0);
        }
    }
}

/// Balances reconciled against the very same balances match: no
/// discrepancy is reported.
pub proof fn law_identical_sides_match(cfg: ReconciliationConfig, balances: Seq<BalanceSnapshot>)
    requires
        cfg.min_difference.v() > 0,
    ensures
        all_shapes(cfg, balances, balances).len() == 0,
{
    lemma_self_shapes_empty(cfg, balances, balances.len());
}

} // verus!
