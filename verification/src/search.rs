//! First matches in sequences.

use vstd::prelude::*;

verus! {

/// The position of the first item that satisfies `p`, or the length of the
/// sequence if none does.
pub open spec fn first_where<T>(items: Seq<T>, p: spec_fn(T) -> bool) -> int
    decreases items.len(),
{
    if items.len() == 0 || p(items[0]) {
        0
    } else {
        1 + first_where(items.drop_first(), p)
    }
}

/// The position that the items before it do not satisfy, and that is past the
/// end or satisfies `p` itself, is the first match.
pub proof fn lemma_first_where_is<T>(items: Seq<T>, p: spec_fn(T) -> bool, at: int)
    requires
        0 <= at <= items.len(),
        forall|j: int| 0 <= j < at ==> !p(#[trigger] items[j]),
        at < items.len() ==> p(items[at]),
    ensures
        first_where(items, p) == at,
    decreases items.len(),
{
    if at > 0 {
        assert(!p(items[0]));
        let rest = items.drop_first();
        assert forall|j: int| 0 <= j < at - 1 implies !p(#[trigger] rest[j]) by {
            assert(rest[j] == items[j + 1]);
        }
        lemma_first_where_is(rest, p, at - 1);
    }
}

/// The first match is in range or one past the end; it satisfies `p` if it is
/// in range, and no item before it does.
pub proof fn lemma_first_where<T>(items: Seq<T>, p: spec_fn(T) -> bool)
    ensures
        0 <= first_where(items, p) <= items.len(),
        first_where(items, p) < items.len() ==> p(items[first_where(items, p)]),
        forall|j: int| 0 <= j < first_where(items, p) ==> !p(#[trigger] items[j]),
    decreases items.len(),
{
    if items.len() > 0 && !p(items[0]) {
        let rest = items.drop_first();
        lemma_first_where(rest, p);
        assert forall|j: int| 0 <= j < first_where(items, p) implies !p(#[trigger] items[j]) by {
            if j > 0 {
                assert(items[j] == rest[j - 1]);
            }
        }
    }
}

} // verus!
