//! Locating the first element of a sequence that has a property.

use vstd::prelude::*;

verus! {

/// `i` is the position of the first element of `s` that satisfies `p`.
pub open spec fn is_first_where<T>(s: Seq<T>, p: spec_fn(T) -> bool, i: int) -> bool {
    &&& 0 <= i < s.len()
    &&& p(s[i])
    &&& forall|j: int| 0 <= j < i ==> !p(#[trigger] s[j])
}

/// The position of the first element of `s` that satisfies `p`, if there is one.
pub open spec fn first_where<T>(s: Seq<T>, p: spec_fn(T) -> bool) -> Option<int> {
    if exists|i: int| is_first_where(s, p, i) {
        Some(choose|i: int| is_first_where(s, p, i))
    } else {
        None
    }
}

/// Only one position can be the first that satisfies `p`.
pub proof fn lemma_first_where_unique<T>(s: Seq<T>, p: spec_fn(T) -> bool, i: int, j: int)
    requires
        is_first_where(s, p, i),
        is_first_where(s, p, j),
    ensures
        i == j,
{
    if i < j {
        assert(!p(s[i]));
    } else if j < i {
        assert(!p(s[j]));
    }
}

/// The first position that satisfies `p` is what `first_where` names.
pub proof fn lemma_first_where_found<T>(s: Seq<T>, p: spec_fn(T) -> bool, i: int)
    requires
        is_first_where(s, p, i),
    ensures
        first_where(s, p) == Some(i),
{
    let k = choose|k: int| is_first_where(s, p, k);
    lemma_first_where_unique(s, p, i, k);
}

/// When no element satisfies `p`, `first_where` names none.
pub proof fn lemma_first_where_absent<T>(s: Seq<T>, p: spec_fn(T) -> bool)
    requires
        forall|j: int| 0 <= j < s.len() ==> !p(#[trigger] s[j]),
    ensures
        first_where(s, p) is None,
{
}

/// Replacing the first match by another match keeps it the first match.
pub proof fn lemma_first_where_update<T>(s: Seq<T>, p: spec_fn(T) -> bool, i: int, x: T)
    requires
        first_where(s, p) == Some(i),
        p(x),
    ensures
        first_where(s.update(i, x), p) == Some(i),
{
    let k = choose|k: int| is_first_where(s, p, k);
    assert(is_first_where(s, p, k));
    let t = s.update(i, x);
    assert forall|j: int| 0 <= j < i implies !p(#[trigger] t[j]) by {
        assert(t[j] == s[j]);
    }
    assert(is_first_where(t, p, i));
    lemma_first_where_found(t, p, i);
}

/// An element appended to a sequence without a match is the first match.
pub proof fn lemma_first_where_push<T>(s: Seq<T>, p: spec_fn(T) -> bool, x: T)
    requires
        first_where(s, p) is None,
        p(x),
    ensures
        first_where(s.push(x), p) == Some(s.len() as int),
{
    let t = s.push(x);
    assert forall|j: int| 0 <= j < s.len() implies !p(#[trigger] t[j]) by {
        assert(t[j] == s[j]);
        if p(s[j]) {
            lemma_some_first(s, p, j);
        }
    }
    assert(is_first_where(t, p, s.len() as int));
    lemma_first_where_found(t, p, s.len() as int);
}

/// If some element matches, there is a first match.
pub proof fn lemma_some_first<T>(s: Seq<T>, p: spec_fn(T) -> bool, j: int)
    requires
        0 <= j < s.len(),
        p(s[j]),
    ensures
        exists|m: int| is_first_where(s, p, m),
    decreases j,
{
    if forall|k: int| 0 <= k < j ==> !p(#[trigger] s[k]) {
        assert(is_first_where(s, p, j));
    } else {
        let k = choose|k: int| 0 <= k < j && p(#[trigger] s[k]);
        lemma_some_first(s, p, k);
    }
}

} // verus!
