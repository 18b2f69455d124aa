//! Which failures a breaker keeps counting when one more is recorded: those
//! no older than the failure window, in seconds, before the new one.
use crate::circuit_breaker::{
    drop_older_losses, drop_older_times, failures_after, losses_after, step_failure,
    CircuitBreaker, CircuitState, FailureType,
};
use crate::decimal::Dec;
use vstd::prelude::*;

verus! {

/// The instant, in milliseconds, from which a failure at `now` counts
/// earlier failures: `window_secs` seconds before it.
pub open spec fn window_start(now: i64, window_secs: u64) -> int {
    now - window_secs * 1000
}

/// Dropping the leading instants before `cutoff` leaves a suffix whose first
/// instant is not before it.
proof fn lemma_drop_older_suffix(ts: Seq<i64>, cutoff: int) -> (d: int)
    ensures
        0 <= d <= ts.len(),
        drop_older_times(ts, cutoff) == ts.subrange(d, ts.len() as int),
        forall|j: int| 0 <= j < d ==> ts[j] < cutoff,
        d < ts.len() ==> ts[d] >= cutoff,
    decreases ts.len(),
{
    if ts.len() > 0 && ts[0] < cutoff {
        let e = lemma_drop_older_suffix(ts.drop_first(), cutoff);
        assert(ts.drop_first().subrange(e, ts.len() - 1) =~= ts.subrange(e + 1, ts.len() as int));
        assert forall|j: int| 0 <= j < e + 1 implies ts[j] < cutoff by {
            if j > 0 {
                assert(ts[j] == ts.drop_first()[j - 1]);
            }
        }
        e + 1
    } else {
        assert(ts.subrange(0, ts.len() as int) =~= ts);
        0
    }
}

/// Recording a failure at `now` keeps, of the failures before and the new
/// one, a trailing run that starts at the first failure no older than
/// `failure_window_secs` seconds before `now`; every failure dropped is
/// older than that.  When the failures were recorded in order of time and
/// none after `now`, what is kept is exactly the failures within the window,
/// all of them, in order.
pub proof fn law_failure_window_kept(
    before: CircuitBreaker,
    after: CircuitBreaker,
    failure: FailureType,
    now: i64,
)
    requires
        after@ == step_failure(before.cfg(), before@, failure, now as int),
    ensures
        ({
            let all = before@.failures.push(now);
            let start = window_start(now, before.cfg().failure_window_secs);
            let kept = after@.failures;
            let d = all.len() - kept.len();
            &&& 0 <= d < all.len()
            &&& kept == all.subrange(d, all.len() as int)
            &&& forall|j: int| 0 <= j < d ==> all[j] < start
            &&& all[d] >= start
            &&& kept.last() == now
            &&& ((forall|i: int, j: int|
                0 <= i <= j < all.len() ==> all[i] <= all[j]) ==> forall|k: int|
                0 <= k < kept.len() ==> kept[k] >= start)
        }),
{
    let all = before@.failures.push(now);
    let start = window_start(now, before.cfg().failure_window_secs);
    assert(failures_after(before.cfg(), before@, now as int) == drop_older_times(all, start));
    let d = lemma_drop_older_suffix(all, start);
    assert(all[all.len() - 1] == now);
    if d == all.len() {
        assert(all[all.len() - 1] < start);
    }
    let kept = after@.failures;
    assert(kept.len() == all.len() - d);
    if forall|i: int, j: int| 0 <= i <= j < all.len() ==> all[i] <= all[j] {
        assert forall|k: int| 0 <= k < kept.len() implies kept[k] >= start by {
            assert(kept[k] == all[d + k]);
            assert(all[d] <= all[d + k]);
        }
    }
}

/// When the newest `failure_threshold` failures, counting one recorded at
/// `now`, all lie within `failure_window_secs` seconds before `now`, the
/// breaker is open afterwards and counts at least that many failures.
pub proof fn law_threshold_failures_in_window_open(
    before: CircuitBreaker,
    after: CircuitBreaker,
    failure: FailureType,
    now: i64,
)
    requires
        after@ == step_failure(before.cfg(), before@, failure, now as int),
        before@.failures.len() < 0xffff_ffff,
        before.cfg().failure_threshold <= before@.failures.len() + 1,
        forall|j: int|
            before@.failures.len() + 1 - before.cfg().failure_threshold <= j
                < before@.failures.len() + 1 ==> #[trigger] before@.failures.push(now)[j]
                >= window_start(now, before.cfg().failure_window_secs),
    ensures
        after@.failures.len() >= before.cfg().failure_threshold,
        after@.state == CircuitState::Open,
{
    let all = before@.failures.push(now);
    let start = window_start(now, before.cfg().failure_window_secs);
    assert(failures_after(before.cfg(), before@, now as int) == drop_older_times(all, start));
    let d = lemma_drop_older_suffix(all, start);
    let t = before.cfg().failure_threshold as int;
    if t > 0 {
        let j = all.len() - t;
        assert(all[j] >= start);
        assert(d <= j);
    }
}

/// Dropping the leading losses before `cutoff` leaves a suffix whose first
/// loss is not before it.
proof fn lemma_drop_older_losses_suffix(ls: Seq<(i64, Dec)>, cutoff: int) -> (d: int)
    ensures
        0 <= d <= ls.len(),
        drop_older_losses(ls, cutoff) == ls.subrange(d, ls.len() as int),
        forall|j: int| 0 <= j < d ==> ls[j].0 < cutoff,
        d < ls.len() ==> ls[d].0 >= cutoff,
    decreases ls.len(),
{
    if ls.len() > 0 && ls[0].0 < cutoff {
        let e = lemma_drop_older_losses_suffix(ls.drop_first(), cutoff);
        assert(ls.drop_first().subrange(e, ls.len() - 1) =~= ls.subrange(e + 1, ls.len() as int));
        assert forall|j: int| 0 <= j < e + 1 implies ls[j].0 < cutoff by {
            if j > 0 {
                assert(ls[j] == ls.drop_first()[j - 1]);
            }
        }
        e + 1
    } else {
        assert(ls.subrange(0, ls.len() as int) =~= ls);
        0
    }
}

/// Recording a rapid loss of `amount` at `now` keeps, of the losses before
/// and the new one, a trailing run that starts at the first loss no older
/// than `rapid_loss_window_secs` seconds before `now`; every loss dropped is
/// older than that, and the new loss is kept last.  Any other failure leaves
/// the losses as they were.
pub proof fn law_loss_window_kept(
    before: CircuitBreaker,
    after: CircuitBreaker,
    failure: FailureType,
    now: i64,
)
    requires
        after@ == step_failure(before.cfg(), before@, failure, now as int),
    ensures
        match failure {
            FailureType::RapidLoss { amount } => {
                let all = before@.losses.push((now, amount));
                let start = window_start(now, before.cfg().rapid_loss_window_secs);
                let kept = after@.losses;
                let d = all.len() - kept.len();
                &&& 0 <= d < all.len()
                &&& kept == all.subrange(d, all.len() as int)
                &&& forall|j: int| 0 <= j < d ==> all[j].0 < start
                &&& all[d].0 >= start
                &&& kept.last() == (now, amount)
            },
            _ => after@.losses == before@.losses,
        },
{
    match failure {
        FailureType::RapidLoss { amount } => {
            let all = before@.losses.push((now, amount));
            let start = window_start(now, before.cfg().rapid_loss_window_secs);
            assert(losses_after(before.cfg(), before@, failure, now as int) == drop_older_losses(
                all,
                start,
            ));
            let d = lemma_drop_older_losses_suffix(all, start);
            assert(all[all.len() - 1] == (now, amount));
            if d == all.len() {
                assert(all[all.len() - 1].0 < start);
            }
        },
        _ => {},
    }
}

} // verus!
