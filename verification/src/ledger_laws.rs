//! How booking a trade moves the ledger's balances, stated over amounts:
//! the commission asset down by the commission, USDT by the realized P&L,
//! nothing else.
use crate::ledger_service::{
    already_booked, latest_balance, moves, trade_processed, LedgerEntry,
};
use crate::sync_engine::SyncedTrade;
use crate::ws_manager::Exchange;
use vstd::prelude::*;

verus! {

/// After one more entry, the balance it moves is what it left; every other
/// balance is as before.
proof fn lemma_push_balance(s: Seq<LedgerEntry>, e: LedgerEntry, exchange: Exchange, asset: Seq<char>)
    ensures
        latest_balance(s.push(e), exchange, asset) == if moves(e, exchange, asset) {
            e.balance_after.repr()
        } else {
            latest_balance(s, exchange, asset)
        },
{
    assert(s.push(e).drop_last() =~= s);
    assert(s.push(e).last() == e);
}

/// The commission a trade pays: its commission when positive, else none.
pub open spec fn commission_paid(t: SyncedTrade) -> int {
    if t.commission.v() > 0 {
        t.commission.v()
    } else {
        0
    }
}

/// The P&L a trade realized, zero when it names none.
pub open spec fn pnl_realized(t: SyncedTrade) -> int {
    match t.realized_pnl {
        Some(p) => p.v(),
        None => 0,
    }
}

/// Booking a trade that succeeds moves, on the trade's exchange, the
/// commission asset's balance down by the commission paid and the USDT
/// balance by the realized P&L (both, when the commission is paid in USDT);
/// no other balance moves.  A trade booked before moves nothing.
pub proof fn law_trade_moves_balances(
    s0: Seq<LedgerEntry>,
    s1: Seq<LedgerEntry>,
    t: SyncedTrade,
    r: Result<Vec<LedgerEntry>, String>,
)
    requires
        trade_processed(s0, s1, t, r),
    ensures
        r is Ok ==> forall|exchange: Exchange, asset: Seq<char>|
            #[trigger] latest_balance(s1, exchange, asset).0 == latest_balance(
                s0,
                exchange,
                asset,
            ).0 + if already_booked(s0, t.exchange, "trade"@, t.trade_id@) || exchange
                != t.exchange {
                0
            } else {
                (if asset == t.commission_asset@ {
                    -commission_paid(t)
                } else {
                    0
                }) + (if asset == "USDT"@ {
                    pnl_realized(t)
                } else {
                    0
                })
            },
{
    if r is Ok && !already_booked(s0, t.exchange, "trade"@, t.trade_id@) {
        let v = r->Ok_0@;
        let pays = t.commission.v() > 0;
        let realizes = t.realized_pnl matches Some(p) && p.v() != 0;
        let nc: int = if pays {
            1
        } else {
            0
        };
        let mid = if pays {
            s0.push(v[0])
        } else {
            s0
        };
        assert forall|exchange: Exchange, asset: Seq<char>|
            #[trigger] latest_balance(mid, exchange, asset).0 == latest_balance(
                s0,
                exchange,
                asset,
            ).0 + if exchange == t.exchange && asset == t.commission_asset@ {
                -commission_paid(t)
            } else {
                0
            } by {
            if pays {
                lemma_push_balance(s0, v[0], exchange, asset);
            }
        }
        if realizes {
            assert(s1 =~= mid.push(v[nc]));
            assert forall|exchange: Exchange, asset: Seq<char>|
                #[trigger] latest_balance(s1, exchange, asset).0 == latest_balance(
                    mid,
                    exchange,
                    asset,
                ).0 + if exchange == t.exchange && asset == "USDT"@ {
                    pnl_realized(t)
                } else {
                    0
                } by {
                lemma_push_balance(mid, v[nc], exchange, asset);
                assert(latest_balance(mid, t.exchange, "USDT"@).0 == latest_balance(
                    s0,
                    t.exchange,
                    "USDT"@,
                ).0 + if "USDT"@ == t.commission_asset@ {
                    -commission_paid(t)
                } else {
                    0
                });
            }
        } else {
            assert(s1 =~= mid);
        }
    }
}

} // verus!
