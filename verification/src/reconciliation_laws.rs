//! Which kind of discrepancy a comparison reports for an asset, stated by
//! where the asset appears: on one side only, or on both.
use crate::decimal::{rint, rsub};
use crate::reconciliation_service::{
    all_shapes, difference_pct, discrepancy_shape, exchange_shapes, is_last, last_index, ledger_entry_shapes,
    ledger_shapes, shapes_of, BalanceSnapshot, Discrepancy, DiscrepancyType,
    ReconciliationConfig, Shape,
};
use vstd::prelude::*;

verus! {

/// Some balance of `bs` is of `asset`.
pub open spec fn holds_asset(bs: Seq<BalanceSnapshot>, asset: Seq<char>) -> bool {
    exists|i: int| 0 <= i < bs.len() && bs[i].asset@ == asset
}

/// The balance a side holds of `asset`: that of its last entry for the
/// asset, or zero when it holds none.
pub open spec fn held_balance(bs: Seq<BalanceSnapshot>, asset: Seq<char>) -> (int, nat) {
    if holds_asset(bs, asset) {
        bs[last_index(bs, asset)].balance.repr()
    } else {
        (0, 0)
    }
}

/// What a discrepancy of `asset` must say: missing in the ledger when only
/// the exchange holds the asset, missing on the exchange when only the
/// ledger holds it, otherwise which side is higher; each side's balance as
/// that side holds it; as the difference, the balance of the side that has
/// the asset (100 percent) when one side lacks it, else the ledger's balance
/// less the exchange's, with its percentage of the larger.
pub open spec fn shape_fits(
    ledger: Seq<BalanceSnapshot>,
    exchange: Seq<BalanceSnapshot>,
    s: Shape,
) -> bool {
    let (asset, kind, lb, xb, diff, pct) = s;
    &&& (kind == DiscrepancyType::MissingInLedger) == !holds_asset(ledger, asset)
    &&& (kind == DiscrepancyType::MissingOnExchange) == !holds_asset(exchange, asset)
    &&& holds_asset(ledger, asset) || holds_asset(exchange, asset)
    &&& lb == held_balance(ledger, asset)
    &&& xb == held_balance(exchange, asset)
    &&& kind == DiscrepancyType::MissingInLedger ==> diff == xb && pct == rint(100)
    &&& kind == DiscrepancyType::MissingOnExchange ==> diff == lb && pct == rint(100)
    &&& holds_asset(ledger, asset) && holds_asset(exchange, asset) ==> {
        &&& diff == rsub(lb, xb)
        &&& pct == difference_pct(lb, xb)
        &&& (kind == DiscrepancyType::LedgerHigher) == (diff.0 > 0)
    }
}

/// Entry `i`, the last for its asset, is the one found for that asset.
proof fn lemma_last_index_of_last(bs: Seq<BalanceSnapshot>, i: int)
    requires
        0 <= i < bs.len(),
        is_last(bs, i),
    ensures
        last_index(bs, bs[i].asset@) == i,
    decreases bs.len(),
{
    if i < bs.len() - 1 {
        assert(bs[bs.len() - 1].asset@ != bs[i].asset@);
        assert forall|j: int| i < j < bs.drop_last().len() implies #[trigger] bs.drop_last()[j].asset@
            != bs.drop_last()[i].asset@ by {
            assert(bs[j].asset@ != bs[i].asset@);
        }
        lemma_last_index_of_last(bs.drop_last(), i);
    }
}

/// The last entry for an asset is found exactly when the asset is held.
proof fn lemma_last_index_finds(bs: Seq<BalanceSnapshot>, asset: Seq<char>)
    ensures
        (last_index(bs, asset) >= 0) == holds_asset(bs, asset),
        last_index(bs, asset) < bs.len(),
    decreases bs.len(),
{
    if bs.len() > 0 {
        if bs.last().asset@ == asset {
            assert(bs[bs.len() - 1].asset@ == asset);
        } else {
            lemma_last_index_finds(bs.drop_last(), asset);
            if holds_asset(bs, asset) {
                let i = choose|i: int| 0 <= i < bs.len() && bs[i].asset@ == asset;
                assert(bs.drop_last()[i].asset@ == asset);
            }
            if holds_asset(bs.drop_last(), asset) {
                let i = choose|i: int|
                    0 <= i < bs.drop_last().len() && bs.drop_last()[i].asset@ == asset;
                assert(bs[i].asset@ == asset);
            }
        }
    }
}

/// Every discrepancy the first `n` ledger entries report fits its asset.
proof fn lemma_ledger_shapes_fit(
    cfg: ReconciliationConfig,
    ledger: Seq<BalanceSnapshot>,
    exchange: Seq<BalanceSnapshot>,
    n: nat,
)
    requires
        n <= ledger.len(),
    ensures
        forall|k: int|
            0 <= k < ledger_shapes(cfg, ledger, exchange, n).len() ==> shape_fits(
                ledger,
                exchange,
                #[trigger] ledger_shapes(cfg, ledger, exchange, n)[k],
            ),
    decreases n,
{
    if n > 0 {
        lemma_ledger_shapes_fit(cfg, ledger, exchange, (n - 1) as nat);
        let rest = ledger_shapes(cfg, ledger, exchange, (n - 1) as nat);
        if is_last(ledger, n - 1) {
            let b = ledger[n - 1];
            let own = ledger_entry_shapes(cfg, b, exchange);
            lemma_last_index_finds(exchange, b.asset@);
            lemma_last_index_finds(ledger, b.asset@);
            lemma_last_index_of_last(ledger, n - 1);
            assert(holds_asset(ledger, b.asset@)) by {
                assert(ledger[n - 1].asset@ == b.asset@);
            }
            assert(held_balance(ledger, b.asset@) == b.balance.repr());
            assert forall|k: int| 0 <= k < own.len() implies shape_fits(
                ledger,
                exchange,
                #[trigger] own[k],
            ) by {
                let j = last_index(exchange, b.asset@);
                if j >= 0 {
                    let s = discrepancy_shape(
                        cfg,
                        b.asset@,
                        b.balance.repr(),
                        exchange[j].balance.repr(),
                    );
                    assert(own[k] == s.unwrap());
                }
            }
            let all = rest + own;
            assert forall|k: int| 0 <= k < all.len() implies shape_fits(
                ledger,
                exchange,
                #[trigger] all[k],
            ) by {
                if k < rest.len() {
                    assert(all[k] == rest[k]);
                } else {
                    assert(all[k] == own[k - rest.len()]);
                }
            }
        }
    }
}

/// Every discrepancy the first `n` exchange entries report fits its asset.
proof fn lemma_exchange_shapes_fit(
    cfg: ReconciliationConfig,
    ledger: Seq<BalanceSnapshot>,
    exchange: Seq<BalanceSnapshot>,
    n: nat,
)
    requires
        n <= exchange.len(),
    ensures
        forall|k: int|
            0 <= k < exchange_shapes(cfg, ledger, exchange, n).len() ==> shape_fits(
                ledger,
                exchange,
                #[trigger] exchange_shapes(cfg, ledger, exchange, n)[k],
            ),
    decreases n,
{
    if n > 0 {
        lemma_exchange_shapes_fit(cfg, ledger, exchange, (n - 1) as nat);
        let rest = exchange_shapes(cfg, ledger, exchange, (n - 1) as nat);
        let cur = exchange_shapes(cfg, ledger, exchange, n);
        let b = exchange[n - 1];
        lemma_last_index_finds(ledger, b.asset@);
        lemma_last_index_finds(exchange, b.asset@);
        assert(holds_asset(exchange, b.asset@)) by {
            assert(exchange[n - 1].asset@ == b.asset@);
        }
        if is_last(exchange, n - 1) {
            lemma_last_index_of_last(exchange, n - 1);
            assert(held_balance(exchange, b.asset@) == b.balance.repr());
        }
        assert forall|k: int| 0 <= k < cur.len() implies shape_fits(
            ledger,
            exchange,
            #[trigger] cur[k],
        ) by {
            if k < rest.len() {
                assert(cur[k] == rest[k]);
            } else {
                assert(cur[k].0 == b.asset@);
                assert(cur[k].1 == DiscrepancyType::MissingInLedger);
            }
        }
    }
}

/// What a reported discrepancy must say of its asset, by where the asset
/// appears (see `shape_fits`).
pub open spec fn discrepancy_fits(
    ledger: Seq<BalanceSnapshot>,
    exchange: Seq<BalanceSnapshot>,
    d: Discrepancy,
) -> bool {
    shape_fits(
        ledger,
        exchange,
        (
            d.asset@,
            d.discrepancy_type,
            d.ledger_balance.repr(),
            d.exchange_balance.repr(),
            d.difference.repr(),
            d.difference_pct.repr(),
        ),
    )
}

/// Each discrepancy a comparison reports is of an asset one side at least
/// holds.  It is missing in the ledger exactly when only the exchange holds
/// the asset, and missing on the exchange exactly when only the ledger holds
/// it; otherwise the ledger is higher exactly when its balance exceeds the
/// exchange's.  Each side's balance is reported as that side holds it (the
/// balance of its last entry for the asset, zero when it has none), and the
/// difference is the balance of the one side holding the asset, at 100
/// percent, or else the ledger's balance less the exchange's with its
/// percentage of the larger.
pub proof fn law_discrepancy_kind_by_side(
    cfg: ReconciliationConfig,
    ledger: Seq<BalanceSnapshot>,
    exchange: Seq<BalanceSnapshot>,
    r: Seq<Discrepancy>,
)
    requires
        shapes_of(r) == all_shapes(cfg, ledger, exchange),
    ensures
        forall|k: int| 0 <= k < r.len() ==> discrepancy_fits(ledger, exchange, #[trigger] r[k]),
{
    let ls = ledger_shapes(cfg, ledger, exchange, ledger.len());
    let xs = exchange_shapes(cfg, ledger, exchange, exchange.len());
    lemma_ledger_shapes_fit(cfg, ledger, exchange, ledger.len());
    lemma_exchange_shapes_fit(cfg, ledger, exchange, exchange.len());
    let all: Seq<Shape> = ls + xs;
    assert(all == all_shapes(cfg, ledger, exchange));
    assert(shapes_of(r).len() == r.len());
    assert forall|k: int| 0 <= k < r.len() implies discrepancy_fits(
        ledger,
        exchange,
        #[trigger] r[k],
    ) by {
        assert(shapes_of(r)[k] == all[k]);
        if k < ls.len() {
            assert(all[k] == ls[k]);
        } else {
            assert(all[k] == xs[k - ls.len()]);
        }
    }
}

} // verus!
