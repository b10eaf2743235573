//! The first element of a sequence that meets a condition.

use vstd::prelude::*;

verus! {

/// `i` is the place of the first element of `s` that meets `p`.
pub open spec fn is_first_where<T>(s: Seq<T>, p: spec_fn(T) -> bool, i: int) -> bool {
    &&& 0 <= i < s.len()
    &&& p(s[i])
    &&& forall|j: int| 0 <= j < i ==> !p(#[trigger] s[j])
}

/// The place of the first element of `s` that meets `p`, if one does.
pub open spec fn first_where<T>(s: Seq<T>, p: spec_fn(T) -> bool) -> Option<int> {
    if exists|i: int| is_first_where(s, p, i) {
        Some(choose|i: int| is_first_where(s, p, i))
    } else {
        None
    }
}

/// There is one first place only.
pub proof fn lemma_first_where_is<T>(s: Seq<T>, p: spec_fn(T) -> bool, i: int)
    requires
        is_first_where(s, p, i),
    ensures
        first_where(s, p) == Some(i),
{
    let k = choose|k: int| is_first_where(s, p, k);
    assert(is_first_where(s, p, k));
    if k < i {
        assert(!p(s[k]));
    } else if i < k {
        assert(!p(s[i]));
    }
}

/// An element that meets `p` makes for a first one, at its place or before.
pub proof fn lemma_first_where_exists<T>(s: Seq<T>, p: spec_fn(T) -> bool, i: int)
    requires
        0 <= i < s.len(),
        p(s[i]),
    ensures
        first_where(s, p) matches Some(k) && k <= i && is_first_where(s, p, k),
    decreases i,
{
    if is_first_where(s, p, i) {
        lemma_first_where_is(s, p, i);
    } else {
        let j = choose|j: int| 0 <= j < i && p(#[trigger] s[j]);
        lemma_first_where_exists(s, p, j);
    }
}

/// Where the elements of `s` stand that `f` keeps: these places, in order, and
/// no others. What `f` makes of them is `s.filter_map(f)`.
pub proof fn lemma_filter_map_places<A, B>(s: Seq<A>, f: spec_fn(A) -> Option<B>) -> (places: Seq<
    int,
>)
    ensures
        places.len() == s.filter_map(f).len(),
        forall|k: int, l: int|
            0 <= k < l < places.len() ==> #[trigger] places[k] < #[trigger] places[l],
        forall|k: int|
            0 <= k < places.len() ==> 0 <= #[trigger] places[k] < s.len() && f(s[places[k]])
                == Some(s.filter_map(f)[k]),
        forall|i: int| 0 <= i < s.len() && f(#[trigger] s[i]) is Some ==> places.contains(i),
    decreases s.len(),
{
    if s.len() == 0 {
        Seq::empty()
    } else {
        let rest = s.drop_last();
        let before = lemma_filter_map_places(rest, f);
        let last = s.len() - 1;
        assert forall|i: int| 0 <= i < last && f(#[trigger] s[i]) is Some implies before.contains(
            i,
        ) by {
            assert(f(rest[i]) is Some);
        }
        assert forall|k: int| 0 <= k < before.len() implies 0 <= #[trigger] before[k] < last && f(
            s[before[k]],
        ) == Some(rest.filter_map(f)[k]) by {
            assert(s[before[k]] == rest[before[k]]);
        }
        if f(s[last]) is Some {
            let places = before.push(last);
            assert(places[before.len() as int] == last);
            assert forall|i: int| 0 <= i < s.len() && f(#[trigger] s[i]) is Some implies
                places.contains(i) by {
                if i < last {
                    let k = choose|k: int| 0 <= k < before.len() && before[k] == i;
                    assert(places[k] == i);
                }
            }
            places
        } else {
            before
        }
    }
}

/// The same for a sequence that is filtered.
pub proof fn lemma_filter_places<A>(s: Seq<A>, p: spec_fn(A) -> bool) -> (places: Seq<int>)
    ensures
        places.len() == s.filter(p).len(),
        forall|k: int, l: int|
            0 <= k < l < places.len() ==> #[trigger] places[k] < #[trigger] places[l],
        forall|k: int|
            0 <= k < places.len() ==> 0 <= #[trigger] places[k] < s.len() && p(s[places[k]])
                && s.filter(p)[k] == s[places[k]],
        forall|i: int| 0 <= i < s.len() && p(#[trigger] s[i]) ==> places.contains(i),
    decreases s.len(),
{
    reveal(Seq::filter);
    if s.len() == 0 {
        Seq::empty()
    } else {
        let rest = s.drop_last();
        let before = lemma_filter_places(rest, p);
        let last = s.len() - 1;
        assert forall|i: int| 0 <= i < last && p(#[trigger] s[i]) implies before.contains(i) by {
            assert(p(rest[i]));
        }
        assert forall|k: int| 0 <= k < before.len() implies 0 <= #[trigger] before[k] < last && p(
            s[before[k]],
        ) && rest.filter(p)[k] == s[before[k]] by {
            assert(s[before[k]] == rest[before[k]]);
        }
        if p(s[last]) {
            let places = before.push(last);
            assert(places[before.len() as int] == last);
            assert forall|i: int| 0 <= i < s.len() && p(#[trigger] s[i]) implies places.contains(
                i,
            ) by {
                if i < last {
                    let k = choose|k: int| 0 <= k < before.len() && before[k] == i;
                    assert(places[k] == i);
                }
            }
            places
        } else {
            before
        }
    }
}

} // verus!
