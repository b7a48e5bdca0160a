//! Finding the first element of a list that has a property.

use vstd::prelude::*;

verus! {

/// Position of the first element with a property.
pub open spec fn first_where<T>(s: Seq<T>, p: spec_fn(T) -> bool) -> Option<int>
    decreases s.len(),
{
    if s.len() == 0 {
        None
    } else {
        match first_where(s.drop_last(), p) {
            Some(i) => Some(i),
            None => if p(s.last()) {
                Some(s.len() - 1)
            } else {
                None
            },
        }
    }
}

/// The first element with a property.
pub open spec fn pick_where<T>(s: Seq<T>, p: spec_fn(T) -> bool) -> Option<T> {
    match first_where(s, p) {
        Some(i) => Some(s[i]),
        None => None,
    }
}

/// The element found has the property and none before it does; when none is
/// found, no element has it.
pub proof fn first_where_is_first<T>(s: Seq<T>, p: spec_fn(T) -> bool)
    ensures
        match first_where(s, p) {
            Some(i) => {
                &&& 0 <= i < s.len()
                &&& p(s[i])
                &&& forall|j: int| 0 <= j < i ==> !p(#[trigger] s[j])
            },
            None => forall|j: int| 0 <= j < s.len() ==> !p(#[trigger] s[j]),
        },
    decreases s.len(),
{
    if s.len() > 0 {
        let rest = s.drop_last();
        first_where_is_first(rest, p);
        assert forall|j: int| 0 <= j < rest.len() implies rest[j] == #[trigger] s[j] by {}
    }
}

/// An element that has the property, and before which none does, is the first.
pub proof fn first_where_at<T>(s: Seq<T>, p: spec_fn(T) -> bool, i: int)
    requires
        0 <= i < s.len(),
        p(s[i]),
        forall|j: int| 0 <= j < i ==> !p(#[trigger] s[j]),
    ensures
        first_where(s, p) == Some(i),
{
    first_where_is_first(s, p);
    let found = first_where(s, p);
    if found is None {
        assert(!p(s[i]));
    } else if found->0 < i {
        assert(!p(s[found->0]));
    } else if found->0 > i {
        assert(!p(s[i]));
    }
}

/// When no element has the property, none is found.
pub proof fn first_where_none<T>(s: Seq<T>, p: spec_fn(T) -> bool)
    requires
        forall|j: int| 0 <= j < s.len() ==> !p(#[trigger] s[j]),
    ensures
        first_where(s, p) is None,
{
    first_where_is_first(s, p);
    if let Some(i) = first_where(s, p) {
        assert(!p(s[i]));
    }
}

/// One more element: the first of the shorter list stays the first.
pub proof fn first_where_take<T>(s: Seq<T>, p: spec_fn(T) -> bool, n: int)
    requires
        0 <= n < s.len(),
    ensures
        first_where(s.take(n + 1), p) == (match first_where(s.take(n), p) {
            Some(i) => Some(i),
            None => if p(s[n]) {
                Some(n)
            } else {
                None
            },
        }),
{
    assert(s.take(n + 1).drop_last() =~= s.take(n));
}

} // verus!
