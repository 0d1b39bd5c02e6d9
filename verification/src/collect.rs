//! Keyed scans over device and profile lists: first-match lookup,
//! first-seen de-duplication, and grouping by class identifier with the
//! original order kept inside every group.

use vstd::prelude::*;

verus! {

/// A value found by a single string key (a device by its bus-id, a profile
/// by its codename).
pub trait LookupKeyed: Sized {
    /// The key as a character sequence.
    spec fn lookup_key(&self) -> Seq<char>;

    /// The stored key.
    fn lookup_key_ref(&self) -> (r: &String)
        ensures
            r@ == self.lookup_key(),
    ;
}

/// A value grouped by a class identifier.
pub trait ClassKeyed: Sized {
    /// The class identifier as a character sequence.
    spec fn class_key(&self) -> Seq<char>;

    /// The stored class identifier.
    fn class_key_ref(&self) -> (r: &String)
        ensures
            r@ == self.class_key(),
    ;
}

/// A value de-duplicated against earlier values, with some values dropped
/// outright (an enumeration entry without a usable bus-id).
pub trait DedupKeyed: Sized {
    /// Whether two values share the de-duplication key.
    spec fn same_key(&self, other: &Self) -> bool;

    /// Whether the value is dropped regardless of earlier values.
    spec fn discard(&self) -> bool;

    /// Decides `same_key`.
    fn key_matches(&self, other: &Self) -> (r: bool)
        ensures
            r == self.same_key(other),
    ;

    /// Decides `discard`.
    fn is_discard(&self) -> (r: bool)
        ensures
            r == self.discard(),
    ;
}

/// The first element carrying the key, scanning from the front.
pub open spec fn find_first<T: LookupKeyed>(s: Seq<T>, key: Seq<char>) -> Option<T>
    decreases s.len(),
{
    if s.len() == 0 {
        None
    } else if s[0].lookup_key() == key {
        Some(s[0])
    } else {
        find_first(s.subrange(1, s.len() as int), key)
    }
}

/// Moves the first element with the given key out of the list; `None` when
/// no element carries it.
pub fn extract_by_key<T: LookupKeyed>(key: &String, items: Vec<T>) -> (r: Option<T>)
    ensures
        r == find_first(items@, key@),
{
    let ghost orig = items@;
    let mut rest = items;
    while rest.len() > 0
        invariant
            orig == items@,
            find_first(orig, key@) == find_first(rest@, key@),
        decreases rest.len(),
    {
        let ghost before = rest@;
        if *rest[0].lookup_key_ref() == *key {
            let found = rest.remove(0);
            proof {
                assert(found == before[0]);
                assert(find_first(before, key@) == Some(before[0]));
            }
            return Some(found);
        }
        rest.remove(0);
        proof {
            assert(rest@ =~= before.subrange(1, before.len() as int));
            assert(find_first(before, key@) == find_first(rest@, key@));
        }
    }
    proof {
        assert(find_first(rest@, key@) is None);
    }
    None
}

/// First-seen de-duplication: a value is kept when no kept value before it
/// shares its key and it is not discarded outright.
pub open spec fn dedup_spec<T: DedupKeyed>(s: Seq<T>) -> Seq<T>
    decreases s.len(),
{
    if s.len() == 0 {
        Seq::empty()
    } else {
        let prev = dedup_spec(s.drop_last());
        let d = s.last();
        if d.discard() || (exists|j: int| 0 <= j < prev.len() && d.same_key(&#[trigger] prev[j])) {
            prev
        } else {
            prev.push(d)
        }
    }
}

/// Whether some kept value already carries the candidate's key.
fn any_key_match<T: DedupKeyed>(d: &T, kept: &Vec<T>) -> (r: bool)
    ensures
        r == exists|j: int| 0 <= j < kept@.len() && d.same_key(&(#[trigger] kept@[j])),
{
    let mut j: usize = 0;
    while j < kept.len()
        invariant
            j <= kept@.len(),
            forall|i: int| 0 <= i < j ==> !d.same_key(&(#[trigger] kept@[i])),
        decreases kept.len() - j,
    {
        if d.key_matches(&kept[j]) {
            assert(d.same_key(&kept@[j as int]));
            return true;
        }
        j += 1;
    }
    false
}

/// De-duplicates by key, keeping the first of every key in order.
pub fn dedup_by_key<T: DedupKeyed>(items: Vec<T>) -> (r: Vec<T>)
    ensures
        r@ == dedup_spec(items@),
{
    let ghost orig = items@;
    let mut rest = items;
    let mut out: Vec<T> = Vec::new();
    while rest.len() > 0
        invariant
            rest@.len() <= orig.len(),
            rest@ == orig.subrange(orig.len() - rest@.len(), orig.len() as int),
            out@ == dedup_spec(orig.subrange(0, orig.len() - rest@.len())),
        decreases rest.len(),
    {
        let ghost done = orig.len() - rest@.len();
        let d = rest.remove(0);
        proof {
            assert(d == orig[done]);
            assert(rest@ =~= orig.subrange(done + 1, orig.len() as int));
            assert(orig.subrange(0, done + 1).drop_last() =~= orig.subrange(0, done));
        }
        if !d.is_discard() && !any_key_match(&d, &out) {
            out.push(d);
        }
        proof {
            assert(orig.subrange(0, orig.len() - rest@.len()) =~= orig.subrange(0, done + 1));
        }
    }
    proof {
        assert(orig.subrange(0, orig.len() as int) =~= orig);
    }
    out
}

/// The distinct class keys of a list, in order of first occurrence.
pub open spec fn group_keys<T: ClassKeyed>(s: Seq<T>) -> Seq<Seq<char>>
    decreases s.len(),
{
    if s.len() == 0 {
        Seq::empty()
    } else {
        let prev = group_keys(s.drop_last());
        if prev.contains(s.last().class_key()) {
            prev
        } else {
            prev.push(s.last().class_key())
        }
    }
}

/// The elements of a list whose class key is `k`, in order.
pub open spec fn class_filter<T: ClassKeyed>(s: Seq<T>, k: Seq<char>) -> Seq<T>
    decreases s.len(),
{
    if s.len() == 0 {
        Seq::empty()
    } else {
        let prev = class_filter(s.drop_last(), k);
        if s.last().class_key() == k {
            prev.push(s.last())
        } else {
            prev
        }
    }
}

/// Every element's class key occurs among the group keys.
proof fn lemma_group_keys_complete<T: ClassKeyed>(s: Seq<T>, i: int)
    requires
        0 <= i < s.len(),
    ensures
        group_keys(s).contains(s[i].class_key()),
    decreases s.len(),
{
    if i < s.len() - 1 {
        lemma_group_keys_complete(s.drop_last(), i);
        let prev = group_keys(s.drop_last());
        assert(s.drop_last()[i] == s[i]);
        let j = choose|j: int| 0 <= j < prev.len() && prev[j] == s[i].class_key();
        if !prev.contains(s.last().class_key()) {
            assert(prev.push(s.last().class_key())[j] == s[i].class_key());
        }
    } else {
        let prev = group_keys(s.drop_last());
        if prev.contains(s.last().class_key()) {
        } else {
            assert(prev.push(s.last().class_key()).last() == s[i].class_key());
        }
    }
}

/// A key held by no element filters to the empty sequence.
proof fn lemma_class_filter_none<T: ClassKeyed>(s: Seq<T>, k: Seq<char>)
    requires
        forall|i: int| 0 <= i < s.len() ==> (#[trigger] s[i]).class_key() != k,
    ensures
        class_filter(s, k) == Seq::<T>::empty(),
    decreases s.len(),
{
    if s.len() > 0 {
        lemma_class_filter_none(s.drop_last(), k);
        assert(s.last() == s[s.len() - 1]);
    }
}

/// Splits a list into per-class groups. The group keys come in order of
/// first occurrence and are distinct; every group holds exactly the
/// elements of its class, in their original order.
pub fn group_by_class<T: ClassKeyed>(items: Vec<T>) -> (r: Vec<(String, Vec<T>)>)
    ensures
        r@.len() == group_keys(items@).len(),
        forall|g: int| 0 <= g < r@.len() ==> (#[trigger] r@[g].0)@ == group_keys(items@)[g],
        forall|g: int| 0 <= g < r@.len() ==> (#[trigger] r@[g].1)@ == class_filter(
            items@,
            r@[g].0@,
        ),
{
    let ghost orig = items@;
    let mut rest = items;
    let mut out: Vec<(String, Vec<T>)> = Vec::new();
    while rest.len() > 0
        invariant
            rest@.len() <= orig.len(),
            rest@ == orig.subrange(orig.len() - rest@.len(), orig.len() as int),
            out@.len() == group_keys(orig.subrange(0, orig.len() - rest@.len())).len(),
            forall|g: int| 0 <= g < out@.len() ==> (#[trigger] out@[g].0)@ == group_keys(
                orig.subrange(0, orig.len() - rest@.len()),
            )[g],
            forall|g: int| 0 <= g < out@.len() ==> (#[trigger] out@[g].1)@ == class_filter(
                orig.subrange(0, orig.len() - rest@.len()),
                out@[g].0@,
            ),
            forall|g1: int, g2: int| 0 <= g1 < g2 < out@.len() ==> out@[g1].0@ != out@[g2].0@,
        decreases rest.len(),
    {
        let ghost done = orig.len() - rest@.len();
        let ghost processed = orig.subrange(0, done);
        let d = rest.remove(0);
        proof {
            assert(d == orig[done]);
            assert(rest@ =~= orig.subrange(done + 1, orig.len() as int));
            assert(orig.subrange(0, done + 1).drop_last() =~= processed);
        }
        let mut g: usize = 0;
        while g < out.len() && !(out[g].0 == *d.class_key_ref())
            invariant
                g <= out@.len(),
                forall|i: int| 0 <= i < g ==> (#[trigger] out@[i].0)@ != d.class_key(),
            decreases out.len() - g,
        {
            g += 1;
        }
        let ghost out_before = out@;
        if g < out.len() {
            // The class was seen before: append to its group.
            proof {
                assert(group_keys(processed)[g as int] == d.class_key());
                assert(group_keys(processed).contains(d.class_key()));
                assert(group_keys(orig.subrange(0, done + 1)) == group_keys(processed));
            }
            let mut pair = out.remove(g);
            pair.1.push(d);
            let ghost pair_now = pair;
            out.insert(g, pair);
            proof {
                assert(out@ =~= out_before.update(g as int, pair_now));
                assert forall|gg: int| 0 <= gg < out@.len() implies (#[trigger] out@[gg].1)@
                    == class_filter(orig.subrange(0, done + 1), out@[gg].0@) by {
                    if gg == g {
                        assert(out@[gg].1@ =~= out_before[gg].1@.push(d));
                    } else {
                        assert(out@[gg] == out_before[gg]);
                        assert(out@[gg].0@ != d.class_key());
                    }
                }
            }
        } else {
            // A class not seen before: open a new group holding this one.
            proof {
                assert forall|i: int|
                    0 <= i < group_keys(processed).len() implies (#[trigger] group_keys(
                    processed,
                )[i]) != d.class_key() by {
                    assert(out_before[i].0@ == group_keys(processed)[i]);
                }
                assert(!group_keys(processed).contains(d.class_key()));
                assert(group_keys(orig.subrange(0, done + 1)) == group_keys(processed).push(
                    d.class_key(),
                ));
                assert forall|i: int| 0 <= i < processed.len() implies (#[trigger] processed[i]).class_key()
                    != d.class_key() by {
                    lemma_group_keys_complete(processed, i);
                }
                lemma_class_filter_none(processed, d.class_key());
            }
            let key = d.class_key_ref().clone();
            let mut members: Vec<T> = Vec::new();
            members.push(d);
            out.push((key, members));
            proof {
                assert(out@ =~= out_before.push((key, members)));
                assert forall|gg: int| 0 <= gg < out@.len() implies (#[trigger] out@[gg].1)@
                    == class_filter(orig.subrange(0, done + 1), out@[gg].0@) by {
                    if gg < out_before.len() {
                        assert(out@[gg] == out_before[gg]);
                        assert(out@[gg].0@ != d.class_key());
                    } else {
                        assert(out@[gg].1@ =~= seq![d]);
                        assert(out@[gg].0@ == d.class_key());
                        assert(class_filter(orig.subrange(0, done + 1), d.class_key())
                            =~= seq![d]);
                    }
                }
            }
        }
        proof {
            assert(orig.subrange(0, orig.len() - rest@.len()) =~= orig.subrange(0, done + 1));
        }
    }
    proof {
        assert(orig.subrange(0, orig.len() as int) =~= orig);
    }
    out
}

} // verus!
