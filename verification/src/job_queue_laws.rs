//! Which pending job leaves the queue first, stated over priorities and
//! creation instants.
use crate::job_queue::{
    best_index, law_dequeue_order, lemma_best_index_in_range, runs_before, Job, JobPriority,
};
use vstd::prelude::*;

verus! {

/// Every job before the one that leaves first is strictly behind it.
proof fn lemma_best_ahead_of_earlier(s: Seq<Job>)
    requires
        s.len() > 0,
    ensures
        forall|j: int| 0 <= j < best_index(s) ==> runs_before(s[best_index(s)], #[trigger] s[j]),
    decreases s.len(),
{
    if s.len() > 1 {
        let t = s.drop_last();
        lemma_best_ahead_of_earlier(t);
        law_dequeue_order(t);
        lemma_best_index_in_range(t);
        assert forall|j: int| 0 <= j < best_index(s) implies runs_before(
            s[best_index(s)],
            #[trigger] s[j],
        ) by {
            assert(s[j] == t[j]);
            assert(!runs_before(t[j], t[best_index(t)]));
            assert(s[best_index(t)] == t[best_index(t)]);
        }
    }
}

/// The job that leaves the queue first: a critical job whenever one is
/// pending; otherwise a high one whenever one is pending; a low one only
/// when nothing else is pending.  Among the pending jobs of its priority it
/// is the oldest, and the first enqueued of those as old.
pub proof fn law_dequeue_priority_order(s: Seq<Job>)
    requires
        s.len() > 0,
    ensures
        ({
            let first = s[best_index(s)];
            &&& 0 <= best_index(s) < s.len()
            &&& forall|j: int|
                0 <= j < s.len() ==> {
                    &&& (#[trigger] s[j]).priority == JobPriority::Critical ==> first.priority
                        == JobPriority::Critical
                    &&& s[j].priority == JobPriority::High ==> (first.priority == JobPriority::High
                        || first.priority == JobPriority::Critical)
                    &&& s[j].priority != JobPriority::Low ==> first.priority != JobPriority::Low
                    &&& s[j].priority == first.priority ==> first.created_at <= s[j].created_at
                    &&& (j < best_index(s) && s[j].priority == first.priority) ==> first.created_at
                        < s[j].created_at
                }
        }),
{
    law_dequeue_order(s);
    lemma_best_ahead_of_earlier(s);
    let first = s[best_index(s)];
    assert forall|j: int| 0 <= j < s.len() implies {
        &&& (#[trigger] s[j]).priority == JobPriority::Critical ==> first.priority
            == JobPriority::Critical
        &&& s[j].priority == JobPriority::High ==> (first.priority == JobPriority::High
            || first.priority == JobPriority::Critical)
        &&& s[j].priority != JobPriority::Low ==> first.priority != JobPriority::Low
        &&& s[j].priority == first.priority ==> first.created_at <= s[j].created_at
        &&& (j < best_index(s) && s[j].priority == first.priority) ==> first.created_at
            < s[j].created_at
    } by {
        assert(!runs_before(s[j], first));
        if j < best_index(s) {
            assert(runs_before(first, s[j]));
        }
    }
}

} // verus!
