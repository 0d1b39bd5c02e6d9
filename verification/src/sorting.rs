//! Stable ordering of profiles by ascending priority.
//!
//! The resolver surfaces a device's matching profiles sorted by ascending
//! priority, with ties keeping their catalog order. Stability is stated
//! through `prio_filter`: for every priority value, the subsequence of
//! elements carrying that priority is exactly the same before and after
//! sorting. Together with sortedness this pins the output down to a single
//! sequence, which `lemma_stable_reordering_unique` proves.

use vstd::prelude::*;

verus! {

/// A value ordered by a signed priority; lower sorts first.
pub trait Prioritized: Sized {
    /// The priority in the mathematical integers.
    spec fn prio(&self) -> int;

    /// The priority as the stored machine integer.
    fn priority_value(&self) -> (r: i32)
        ensures
            r as int == self.prio(),
    ;
}

/// Ascending by priority.
pub open spec fn sorted_by_prio<T: Prioritized>(s: Seq<T>) -> bool {
    forall|i: int, j: int| 0 <= i < j < s.len() ==> s[i].prio() <= s[j].prio()
}

/// The subsequence of elements whose priority is exactly `p`, in order.
pub open spec fn prio_filter<T: Prioritized>(s: Seq<T>, p: int) -> Seq<T>
    decreases s.len(),
{
    if s.len() == 0 {
        Seq::empty()
    } else if s.last().prio() == p {
        prio_filter(s.drop_last(), p).push(s.last())
    } else {
        prio_filter(s.drop_last(), p)
    }
}

/// `r` rearranges `s` without disturbing the relative order of elements of
/// equal priority.
pub open spec fn stable_reordering<T: Prioritized>(s: Seq<T>, r: Seq<T>) -> bool {
    &&& r.len() == s.len()
    &&& forall|p: int| #[trigger] prio_filter(r, p) == prio_filter(s, p)
}

/// `prio_filter` distributes over concatenation.
proof fn lemma_prio_filter_add<T: Prioritized>(a: Seq<T>, b: Seq<T>, p: int)
    ensures
        prio_filter(a + b, p) == prio_filter(a, p) + prio_filter(b, p),
    decreases b.len(),
{
    if b.len() == 0 {
        assert(a + b =~= a);
        assert(prio_filter(a, p) + prio_filter(b, p) =~= prio_filter(a, p));
    } else {
        assert((a + b).drop_last() =~= a + b.drop_last());
        assert((a + b).last() == b.last());
        lemma_prio_filter_add(a, b.drop_last(), p);
        if b.last().prio() == p {
            assert((prio_filter(a, p) + prio_filter(b.drop_last(), p)).push(b.last()) =~= prio_filter(
                a,
                p,
            ) + prio_filter(b.drop_last(), p).push(b.last()));
        }
    }
}

/// Filtering a one-element sequence keeps or drops its element.
proof fn lemma_prio_filter_singleton<T: Prioritized>(x: T, p: int)
    ensures
        prio_filter(seq![x], p) == if x.prio() == p {
            seq![x]
        } else {
            Seq::<T>::empty()
        },
{
    assert(seq![x].drop_last() =~= Seq::<T>::empty());
    assert(prio_filter(Seq::<T>::empty(), p) =~= Seq::<T>::empty());
    if x.prio() == p {
        assert(prio_filter(seq![x], p) =~= seq![x]);
    }
}

/// A sequence with no element of priority `p` filters to the empty sequence.
proof fn lemma_prio_filter_none<T: Prioritized>(s: Seq<T>, p: int)
    requires
        forall|i: int| 0 <= i < s.len() ==> s[i].prio() != p,
    ensures
        prio_filter(s, p) == Seq::<T>::empty(),
    decreases s.len(),
{
    if s.len() > 0 {
        lemma_prio_filter_none(s.drop_last(), p);
        assert(s.last().prio() != p);
    }
}

/// Every element of the filtered sequence has priority `p` and occurs in
/// the sequence it was filtered from.
proof fn lemma_prio_filter_sub<T: Prioritized>(s: Seq<T>, p: int)
    ensures
        forall|i: int|
            0 <= i < prio_filter(s, p).len() ==> (#[trigger] prio_filter(s, p)[i]).prio() == p
                && s.contains(prio_filter(s, p)[i]),
    decreases s.len(),
{
    if s.len() > 0 {
        lemma_prio_filter_sub(s.drop_last(), p);
        let d = prio_filter(s.drop_last(), p);
        assert forall|i: int| 0 <= i < prio_filter(s, p).len() implies (#[trigger] prio_filter(
            s,
            p,
        )[i]).prio() == p && s.contains(prio_filter(s, p)[i]) by {
            if i < d.len() {
                assert(prio_filter(s, p)[i] == d[i]);
                assert(s.drop_last().contains(d[i]));
                let j = choose|j: int| 0 <= j < s.drop_last().len() && s.drop_last()[j] == d[i];
                assert(s[j] == d[i]);
                assert(s.contains(d[i]));
            } else {
                assert(s.last().prio() == p);
                assert(prio_filter(s, p)[i] == s.last());
                assert(s[s.len() - 1] == s.last());
                assert(s.contains(s.last()));
            }
        }
    }
}

/// When the first element has priority `p`, it is also the first element
/// of the filtered sequence.
proof fn lemma_prio_filter_head<T: Prioritized>(s: Seq<T>, p: int)
    requires
        s.len() > 0,
        s[0].prio() == p,
    ensures
        prio_filter(s, p).len() > 0,
        prio_filter(s, p)[0] == s[0],
{
    let tail = s.subrange(1, s.len() as int);
    assert(s =~= seq![s[0]] + tail);
    lemma_prio_filter_add(seq![s[0]], tail, p);
    lemma_prio_filter_singleton(s[0], p);
}

/// Sorts stably by ascending priority: straight insertion, each element
/// placed after every element of lower or equal priority already placed.
pub fn sort_by_priority<T: Prioritized>(input: Vec<T>) -> (r: Vec<T>)
    ensures
        sorted_by_prio(r@),
        stable_reordering(input@, r@),
{
    let ghost orig = input@;
    let mut rest = input;
    let mut out: Vec<T> = Vec::new();
    while rest.len() > 0
        invariant
            out@.len() + rest@.len() == orig.len(),
            rest@ == orig.subrange(orig.len() - rest@.len(), orig.len() as int),
            sorted_by_prio(out@),
            forall|p: int| #[trigger] prio_filter(out@, p) == prio_filter(
                orig.subrange(0, orig.len() - rest@.len()),
                p,
            ),
        decreases rest.len(),
    {
        let ghost done = orig.len() - rest@.len();
        let x = rest.remove(0);
        proof {
            assert(x == orig[done]);
            assert(rest@ =~= orig.subrange(done + 1, orig.len() as int));
        }
        let xp = x.priority_value();
        let mut k: usize = 0;
        while k < out.len() && out[k].priority_value() <= xp
            invariant
                k <= out@.len(),
                xp as int == x.prio(),
                forall|j: int| 0 <= j < k ==> out@[j].prio() <= x.prio(),
            decreases out.len() - k,
        {
            k += 1;
        }
        proof {
            let pre = out@.subrange(0, k as int);
            let post = out@.subrange(k as int, out@.len() as int);
            assert(out@ =~= pre + post);
            assert(forall|j: int| 0 <= j < post.len() ==> (#[trigger] post[j]).prio() > x.prio());
            assert(out@.insert(k as int, x) =~= pre + seq![x] + post);
            let processed = orig.subrange(0, done);
            assert(orig.subrange(0, done + 1) =~= processed.push(x));
            assert(processed.push(x) =~= processed + seq![x]);
            assert forall|p: int| #[trigger] prio_filter(out@.insert(k as int, x), p)
                == prio_filter(processed.push(x), p) by {
                lemma_prio_filter_add(pre + seq![x], post, p);
                lemma_prio_filter_add(pre, seq![x], p);
                lemma_prio_filter_add(pre, post, p);
                lemma_prio_filter_singleton(x, p);
                lemma_prio_filter_add(processed, seq![x], p);
                assert(prio_filter(out@, p) == prio_filter(pre, p) + prio_filter(post, p));
                if p == x.prio() {
                    lemma_prio_filter_none(post, p);
                    assert(prio_filter(pre, p) + prio_filter(post, p) =~= prio_filter(pre, p));
                    assert(prio_filter(out@.insert(k as int, x), p) =~= prio_filter(out@, p)
                        + seq![x]);
                    assert(prio_filter(processed.push(x), p) =~= prio_filter(processed, p)
                        + seq![x]);
                } else {
                    assert(prio_filter(pre, p) + Seq::<T>::empty() + prio_filter(post, p)
                        =~= prio_filter(pre, p) + prio_filter(post, p));
                    assert(prio_filter(processed, p) + Seq::<T>::empty() =~= prio_filter(
                        processed,
                        p,
                    ));
                }
            }
        }
        out.insert(k, x);
        proof {
            assert(orig.subrange(0, orig.len() - rest@.len()) =~= orig.subrange(0, done + 1));
        }
    }
    proof {
        assert(orig.subrange(0, orig.len() as int) =~= orig);
    }
    out
}

/// A sorted, stability-preserving rearrangement of a sequence is unique:
/// two outputs that are both sorted and both keep every equal-priority
/// subsequence intact are the same sequence.
pub proof fn lemma_stable_reordering_unique<T: Prioritized>(r1: Seq<T>, r2: Seq<T>)
    requires
        sorted_by_prio(r1),
        sorted_by_prio(r2),
        r1.len() == r2.len(),
        forall|p: int| #[trigger] prio_filter(r1, p) == prio_filter(r2, p),
    ensures
        r1 == r2,
    decreases r1.len(),
{
    if r1.len() == 0 {
        assert(r1 =~= r2);
    } else {
        let p0 = r1[0].prio();
        lemma_prio_filter_head(r1, p0);
        assert(prio_filter(r2, p0) == prio_filter(r1, p0));
        // r2 holds an element of priority p0, so its sorted head is <= p0.
        lemma_prio_filter_sub(r2, p0);
        let e = prio_filter(r2, p0)[0];
        assert(r2.contains(e));
        let i0 = choose|i: int| 0 <= i < r2.len() && r2[i] == e;
        assert(r2[0].prio() <= p0);
        // r2's head cannot have a smaller priority: r1 would then hold an
        // element of that priority too, below its own sorted minimum.
        let q = r2[0].prio();
        if q < p0 {
            lemma_prio_filter_head(r2, q);
            assert(prio_filter(r1, q) == prio_filter(r2, q));
            lemma_prio_filter_sub(r1, q);
            let f = prio_filter(r1, q)[0];
            assert(r1.contains(f));
            let i1 = choose|i: int| 0 <= i < r1.len() && r1[i] == f;
            assert(r1[0].prio() <= q);
            assert(false);
        }
        lemma_prio_filter_head(r2, p0);
        assert(r1[0] == r2[0]);
        // Strip the shared head and recurse on the tails.
        let t1 = r1.subrange(1, r1.len() as int);
        let t2 = r2.subrange(1, r2.len() as int);
        assert(r1 =~= seq![r1[0]] + t1);
        assert(r2 =~= seq![r2[0]] + t2);
        assert forall|p: int| #[trigger] prio_filter(t1, p) == prio_filter(t2, p) by {
            lemma_prio_filter_add(seq![r1[0]], t1, p);
            lemma_prio_filter_add(seq![r2[0]], t2, p);
            assert(prio_filter(r1, p) == prio_filter(r2, p));
            let h = prio_filter(seq![r1[0]], p);
            assert(prio_filter(t1, p) =~= (h + prio_filter(t1, p)).subrange(
                h.len() as int,
                (h + prio_filter(t1, p)).len() as int,
            ));
            assert(prio_filter(t2, p) =~= (h + prio_filter(t2, p)).subrange(
                h.len() as int,
                (h + prio_filter(t2, p)).len() as int,
            ));
        }
        lemma_stable_reordering_unique(t1, t2);
        assert(r1 =~= r2);
    }
}

} // verus!
