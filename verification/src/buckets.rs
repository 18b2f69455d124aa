//! Totals by key: summing amounts per text key, each key once, in the
//! order keys first appear.
use crate::decimal::{add_ok, radd, rsum, Dec};
use vstd::prelude::*;

verus! {

/// The amounts of the items under `key`, in order.
pub open spec fn key_amounts(items: Seq<(String, Dec)>, key: Seq<char>) -> Seq<(int, nat)>
    decreases items.len(),
{
    if items.len() == 0 {
        Seq::empty()
    } else {
        let rest = key_amounts(items.drop_last(), key);
        if items.last().0@ == key {
            rest.push(items.last().1.repr())
        } else {
            rest
        }
    }
}

/// The keys of `totals`, in order.
pub open spec fn keys_of(totals: Seq<(String, Dec)>) -> Seq<Seq<char>> {
    totals.map_values(|b: (String, Dec)| b.0@)
}

/// Adding each item to its key's running total needs no rounding.
pub open spec fn sums_fit(items: Seq<(String, Dec)>) -> bool {
    forall|k: int|
        0 <= k < items.len() ==> add_ok(
            rsum(key_amounts(items.take(k), (#[trigger] items[k]).0@)),
            items[k].1.repr(),
        )
}

/// After the first `i` items, `out` holds each key seen once, with the
/// sum of its amounts so far.
#[verifier::opaque]
pub open spec fn totals_so_far(items: Seq<(String, Dec)>, i: int, out: Seq<(String, Dec)>) -> bool {
    &&& forall|x: int, y: int|
        0 <= x < y < out.len() ==> #[trigger] out[x].0@ != #[trigger] out[y].0@
    &&& forall|x: int|
        0 <= x < out.len() ==> (#[trigger] out[x]).1.repr() == rsum(
            key_amounts(items.take(i), out[x].0@),
        )
    &&& forall|k: int| 0 <= k < i ==> keys_of(out).contains(#[trigger] items[k].0@)
    &&& forall|a: Seq<char>|
        !keys_of(out).contains(a) ==> #[trigger] key_amounts(items.take(i), a).len() == 0
}

/// The total of every key that has items: the sum of its amounts, added
/// up in order.  Each key appears once, in the order of its first item.
pub fn totals_by_key(items: &Vec<(String, Dec)>) -> (r: Vec<(String, Dec)>)
    requires
        sums_fit(items@),
    ensures
        forall|i: int, j: int|
            0 <= i < j < r@.len() ==> #[trigger] r@[i].0@ != #[trigger] r@[j].0@,
        forall|i: int|
            0 <= i < r@.len() ==> (#[trigger] r@[i]).1.repr() == rsum(
                key_amounts(items@, r@[i].0@),
            ),
        forall|k: int|
            0 <= k < items@.len() ==> keys_of(r@).contains(#[trigger] items@[k].0@),
        forall|a: Seq<char>|
            !keys_of(r@).contains(a) ==> #[trigger] key_amounts(items@, a).len() == 0,
{
    let mut out: Vec<(String, Dec)> = Vec::new();
    let mut i: usize = 0;
    proof {
        reveal(totals_so_far);
        assert(items@.take(0) =~= Seq::<(String, Dec)>::empty());
    }
    while i < items.len()
        invariant
            i <= items@.len(),
            sums_fit(items@),
            totals_so_far(items@, i as int, out@),
        decreases items@.len() - i,
    {
        let ghost asset = items@[i as int].0@;
        let ghost o = out@;
        let mut j: usize = 0;
        let mut found = false;
        while j < out.len() && !found
            invariant
                j <= out@.len(),
                out@ == o,
                i < items@.len(),
                asset == items@[i as int].0@,
                !found ==> forall|x: int| 0 <= x < j ==> (#[trigger] out@[x]).0@ != asset,
                found ==> j < out@.len() && out@[j as int].0@ == asset,
            decreases out@.len() - j, if found { 0int } else { 1int },
        {
            if out[j].0 == items[i].0 {
                found = true;
            } else {
                j += 1;
            }
        }
        proof {
            assert(add_ok(
                rsum(key_amounts(items@.take(i as int), items@[i as int].0@)),
                items@[i as int].1.repr(),
            ));
        }
        if found {
            proof {
                lemma_total_value(items@, i as int, o, j as int);
            }
            let current = out[j].1;
            let updated = current.add(items[i].1);
            let name = out[j].0.clone();
            out.set(j, (name, updated));
            proof {
                lemma_totals_existing(items@, i as int, o, out@, j as int);
            }
        } else {
            proof {
                lemma_total_absent(items@, i as int, o);
            }
            let fresh = Dec::zero().add(items[i].1);
            out.push((items[i].0.clone(), fresh));
            proof {
                lemma_totals_new(items@, i as int, o, out@);
            }
        }
        i += 1;
    }
    proof {
        reveal(totals_so_far);
    }
    assert(items@.take(items@.len() as int) =~= items@);
    out
}

proof fn lemma_total_value(items: Seq<(String, Dec)>, i: int, o: Seq<(String, Dec)>, j: int)
    requires
        totals_so_far(items, i, o),
        0 <= j < o.len(),
    ensures
        o[j].1.repr() == rsum(key_amounts(items.take(i), o[j].0@)),
{
    reveal(totals_so_far);
}

proof fn lemma_total_absent(items: Seq<(String, Dec)>, i: int, o: Seq<(String, Dec)>)
    requires
        totals_so_far(items, i, o),
        0 <= i < items.len(),
        forall|x: int| 0 <= x < o.len() ==> (#[trigger] o[x]).0@ != items[i].0@,
    ensures
        key_amounts(items.take(i), items[i].0@) =~= Seq::<(int, nat)>::empty(),
{
    reveal(totals_so_far);
    let asset = items[i].0@;
    if keys_of(o).contains(asset) {
        let x = choose|x: int| 0 <= x < keys_of(o).len() && keys_of(o)[x] == asset;
        assert(o[x].0@ == asset);
    }
}

proof fn lemma_totals_existing(
    items: Seq<(String, Dec)>,
    i: int,
    o: Seq<(String, Dec)>,
    out: Seq<(String, Dec)>,
    j: int,
)
    requires
        totals_so_far(items, i, o),
        0 <= i < items.len(),
        0 <= j < o.len(),
        o[j].0@ == items[i].0@,
        out.len() == o.len(),
        forall|x: int| 0 <= x < o.len() && x != j ==> out[x] == o[x],
        out[j].0@ == o[j].0@,
        out[j].1.repr() == radd(o[j].1.repr(), items[i].1.repr()),
    ensures
        totals_so_far(items, i + 1, out),
{
    reveal(totals_so_far);
    lemma_key_amounts_step(items, i);
    let asset = items[i].0@;
    assert forall|x: int| 0 <= x < out.len() implies #[trigger] out[x].0@ == o[x].0@ by {}
    assert(keys_of(out) =~= keys_of(o));
    assert forall|x: int|
        0 <= x < out.len() implies (#[trigger] out[x]).1.repr() == rsum(
            key_amounts(items.take(i + 1), out[x].0@),
        ) by {
        if x != j {
            assert(o[x].0@ != o[j].0@);
        } else {
            let l = key_amounts(items.take(i), asset);
            assert(l.push(items[i].1.repr()).drop_last() =~= l);
        }
    }
    assert forall|k: int| 0 <= k < i + 1 implies keys_of(out).contains(
        #[trigger] items[k].0@,
    ) by {
        if k == i {
            assert(keys_of(out)[j] == asset);
        }
    }
}

proof fn lemma_totals_new(
    items: Seq<(String, Dec)>,
    i: int,
    o: Seq<(String, Dec)>,
    out: Seq<(String, Dec)>,
)
    requires
        totals_so_far(items, i, o),
        0 <= i < items.len(),
        forall|x: int| 0 <= x < o.len() ==> (#[trigger] o[x]).0@ != items[i].0@,
        out.len() == o.len() + 1,
        forall|x: int| 0 <= x < o.len() ==> out[x] == o[x],
        out[o.len() as int].0@ == items[i].0@,
        out[o.len() as int].1.repr() == radd((0int, 0nat), items[i].1.repr()),
    ensures
        totals_so_far(items, i + 1, out),
{
    reveal(totals_so_far);
    lemma_key_amounts_step(items, i);
    lemma_total_absent(items, i, o);
    let asset = items[i].0@;
    assert(keys_of(out) =~= keys_of(o).push(asset));
    assert forall|x: int|
        0 <= x < out.len() implies (#[trigger] out[x]).1.repr() == rsum(
            key_amounts(items.take(i + 1), out[x].0@),
        ) by {
        if x < o.len() {
            assert(out[x] == o[x]);
            assert(o[x].0@ != asset);
            assert(key_amounts(items.take(i + 1), o[x].0@) == key_amounts(items.take(i), o[x].0@));
        } else {
            let l = key_amounts(items.take(i), asset);
            assert(x == o.len());
            assert(l =~= Seq::<(int, nat)>::empty());
            assert(rsum(l) == (0int, 0nat));
            assert(l.push(items[i].1.repr()).drop_last() =~= l);
            assert(key_amounts(items.take(i + 1), asset) == l.push(items[i].1.repr()));
            assert(rsum(l.push(items[i].1.repr())) == radd((0int, 0nat), items[i].1.repr()));
        }
    }
    assert forall|k: int| 0 <= k < i + 1 implies keys_of(out).contains(
        #[trigger] items[k].0@,
    ) by {
        if k == i {
            assert(keys_of(out)[o.len() as int] == asset);
        } else {
            assert(keys_of(o).contains(items[k].0@));
            let x = choose|x: int| 0 <= x < keys_of(o).len() && keys_of(o)[x] == items[k].0@;
            assert(keys_of(out)[x] == items[k].0@);
        }
    }
    assert forall|a: Seq<char>|
        !keys_of(out).contains(a) implies #[trigger] key_amounts(items.take(i + 1), a).len()
            == 0 by {
        if a == asset {
            assert(keys_of(out)[o.len() as int] == asset);
        }
        if keys_of(o).contains(a) {
            let x = choose|x: int| 0 <= x < keys_of(o).len() && keys_of(o)[x] == a;
            assert(keys_of(out)[x] == a);
        }
    }
}

/// Taking one more item adds its amount to its own key's list only.
pub proof fn lemma_key_amounts_step(items: Seq<(String, Dec)>, i: int)
    requires
        0 <= i < items.len(),
    ensures
        forall|a: Seq<char>|
            #[trigger] key_amounts(items.take(i + 1), a) == if items[i].0@ == a {
                key_amounts(items.take(i), a).push(items[i].1.repr())
            } else {
                key_amounts(items.take(i), a)
            },
{
    assert(items.take(i + 1).drop_last() =~= items.take(i));
}

} // verus!
