//! Scanning a sequence from its newest item back, and facts about filtered
//! sequences that the loops of this library rest on.

use vstd::prelude::*;

verus! {

/// Whether `found` is the latest match among `items`: what `pick` gives for
/// the last item for which it gives anything, and nothing where it gives
/// nothing for any.
pub open spec fn is_latest_match<T, R, F: Fn(&T) -> Option<R>>(items: Seq<T>, pick: F, found: Option<R>) -> bool {
    match found {
        Some(value) => exists|i: int|
            {
                &&& 0 <= i < items.len()
                &&& #[trigger] call_ensures(pick, (&items[i],), Some(value))
                &&& forall|j: int| i < j < items.len() ==> #[trigger] call_ensures(pick, (&items[j],), None::<R>)
            },
        None => forall|j: int| 0 <= j < items.len() ==> #[trigger] call_ensures(pick, (&items[j],), None::<R>),
    }
}

/// Scans `items` from the newest back and stops at the first for which `pick`
/// gives a value. An item for which it gives none is passed over, so that one
/// unreadable item of old does not hide the ones before it.
pub fn latest_match<T, R, F>(items: &Vec<T>, pick: F) -> (found: Option<R>) where F: Fn(&T) -> Option<R>
    requires
        forall|i: int| 0 <= i < items@.len() ==> call_requires(pick, (&#[trigger] items@[i],)),
    ensures
        is_latest_match(items@, pick, found),
{
    let mut i: usize = items.len();
    while i > 0
        invariant
            i <= items.len(),
            forall|k: int| 0 <= k < items@.len() ==> call_requires(pick, (&#[trigger] items@[k],)),
            forall|j: int| i <= j < items@.len() ==> #[trigger] call_ensures(pick, (&items@[j],), None::<R>),
        decreases i,
    {
        let picked = pick(&items[i - 1]);
        match picked {
            Some(value) => {
                assert(call_ensures(pick, (&items@[i - 1],), Some(value)));
                return Some(value);
            },
            None => {},
        }
        i = i - 1;
    }
    None
}

/// Filtering one more element: the element is appended to the filtered
/// prefix where it passes, and the filtered prefix stays where it does not.
pub proof fn filter_next<A>(s: Seq<A>, keep: spec_fn(A) -> bool, i: int)
    requires
        0 <= i < s.len(),
    ensures
        s.take(i + 1).filter(keep) == if keep(s[i]) {
            s.take(i).filter(keep).push(s[i])
        } else {
            s.take(i).filter(keep)
        },
{
    reveal(Seq::filter);
    assert(s.take(i + 1).drop_last() == s.take(i));
    assert(s.take(i + 1).last() == s[i]);
}

/// Nothing passes a filter on the empty prefix.
pub proof fn filter_none<A>(s: Seq<A>, keep: spec_fn(A) -> bool)
    ensures
        s.take(0).filter(keep) == Seq::<A>::empty(),
{
    reveal(Seq::filter);
    assert(s.take(0).len() == 0);
}

/// What passes a filter: exactly the members that the filter keeps.
pub proof fn filter_members<A>(s: Seq<A>, keep: spec_fn(A) -> bool, x: A)
    ensures
        s.filter(keep).contains(x) <==> s.contains(x) && keep(x),
    decreases s.len(),
{
    reveal(Seq::filter);
    if s.len() > 0 {
        let rest = s.drop_last();
        filter_members(rest, keep, x);
        if s.contains(x) && keep(x) {
            let k = choose|k: int| 0 <= k < s.len() && s[k] == x;
            if k < s.len() - 1 {
                assert(rest[k] == x);
                assert(rest.filter(keep).contains(x));
                let j = choose|j: int| 0 <= j < rest.filter(keep).len() && rest.filter(keep)[j] == x;
                assert(s.filter(keep)[j] == x);
            } else {
                assert(s.filter(keep).last() == x);
            }
        }
        if s.filter(keep).contains(x) {
            let j = choose|j: int| 0 <= j < s.filter(keep).len() && s.filter(keep)[j] == x;
            if j < rest.filter(keep).len() {
                assert(rest.filter(keep)[j] == x);
                assert(rest.filter(keep).contains(x));
                let k = choose|k: int| 0 <= k < rest.len() && rest[k] == x;
                assert(s[k] == x);
            } else {
                assert(s.last() == x);
            }
        }
    }
}

/// Appending an element that does not occur keeps the elements distinct.
pub proof fn push_keeps_distinct<A>(s: Seq<A>, x: A)
    requires
        s.no_duplicates(),
        !s.contains(x),
    ensures
        s.push(x).no_duplicates(),
{
    let after = s.push(x);
    assert forall|i: int, j: int| 0 <= i < after.len() && 0 <= j < after.len() && i != j implies after[i]
        != after[j] by {
        if i < s.len() && j < s.len() {
            assert(s[i] != s[j]);
        } else if i < s.len() {
            assert(s.contains(s[i]));
        } else {
            assert(s.contains(s[j]));
        }
    }
}

/// Filtering keeps distinct elements distinct.
pub proof fn filter_keeps_distinct<A>(s: Seq<A>, keep: spec_fn(A) -> bool)
    requires
        s.no_duplicates(),
    ensures
        s.filter(keep).no_duplicates(),
    decreases s.len(),
{
    reveal(Seq::filter);
    if s.len() > 0 {
        let rest = s.drop_last();
        assert forall|i: int, j: int| 0 <= i < rest.len() && 0 <= j < rest.len() && i != j implies rest[i]
            != rest[j] by {
            assert(s[i] != s[j]);
        }
        filter_keeps_distinct(rest, keep);
        if keep(s.last()) {
            filter_members(rest, keep, s.last());
            if rest.contains(s.last()) {
                let k = choose|k: int| 0 <= k < rest.len() && rest[k] == s.last();
                assert(s[k] == s[s.len() - 1]);
            }
            push_keeps_distinct(rest.filter(keep), s.last());
        }
    }
}

} // verus!
