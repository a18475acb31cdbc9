//! Ordering and naming on the home page feed.
use vstd::prelude::*;

use crate::instant::{is_later, later, Instant};

verus! {

/// Whether, among statuses created at `created`, the one at index `a` is
/// shown before the one at index `b`: the newer one first, and of two
/// created at the same instant, the one that came later in the input.
pub open spec fn shown_before(created: Seq<Instant>, a: int, b: int) -> bool {
    later(created[a], created[b]) || (created[a] == created[b] && a > b)
}

/// Whether `order` lists each index of `created` once, in display order.
pub open spec fn is_newest_first_order(created: Seq<Instant>, order: Seq<usize>) -> bool {
    &&& order.len() == created.len()
    &&& forall|i: int| 0 <= i < order.len() ==> order[i] < created.len()
    &&& forall|k: usize| k < created.len() ==> #[trigger] order.contains(k)
    &&& forall|i: int, j: int|
        0 <= i < j < order.len() ==> shown_before(created, order[i] as int, order[j] as int)
}

/// The order in which the recent statuses are shown: sorted by creation
/// time, oldest first and keeping the input order among equals, then reversed.
pub fn newest_first_order(created: &Vec<Instant>) -> (order: Vec<usize>)
    ensures
        is_newest_first_order(created@, order@),
{
    let n: usize = created.len();
    let mut order: Vec<usize> = Vec::new();
    let mut idx: usize = 0;
    while idx < n
        invariant
            n == created@.len(),
            idx <= n,
            order@.len() == idx,
            forall|i: int| 0 <= i < order@.len() ==> order@[i] < idx,
            forall|k: usize| k < idx ==> #[trigger] order@.contains(k),
            forall|i: int, j: int|
                0 <= i < j < order@.len() ==> shown_before(created@, order@[i] as int, order@[j] as int),
        decreases n - idx,
    {
        let key = created[idx];
        let mut pos: usize = 0;
        while pos < order.len() && is_later(created[order[pos]], key)
            invariant
                n == created@.len(),
                idx < n,
                key == created@[idx as int],
                order@.len() == idx,
                pos <= order@.len(),
                forall|i: int| 0 <= i < order@.len() ==> order@[i] < idx,
                forall|i: int| 0 <= i < pos ==> later(created@[order@[i] as int], key),
            decreases order@.len() - pos,
        {
            pos = pos + 1;
        }
        let ghost old_order = order@;
        proof {
            assert forall|q: int| pos <= q < old_order.len() implies !later(created@[old_order[q] as int], key) by {
                if pos < q {
                    assert(shown_before(created@, old_order[pos as int] as int, old_order[q] as int));
                }
            }
        }
        order.insert(pos, idx);
        proof {
            assert forall|i: int, j: int|
                0 <= i < j < order@.len() implies shown_before(created@, order@[i] as int, order@[j] as int) by {
                if j < pos {
                    assert(order@[i] == old_order[i] && order@[j] == old_order[j]);
                } else if j == pos {
                    assert(order@[i] == old_order[i]);
                } else if i < pos {
                    assert(order@[i] == old_order[i] && order@[j] == old_order[j - 1]);
                } else if i == pos {
                    assert(order@[j] == old_order[j - 1]);
                } else {
                    assert(order@[i] == old_order[i - 1] && order@[j] == old_order[j - 1]);
                }
            }
            assert(order@[pos as int] == idx);
            assert forall|k: usize| k < idx + 1 implies #[trigger] order@.contains(k) by {
                if k < idx {
                    assert(old_order.contains(k));
                    let w = choose|w: int| 0 <= w < old_order.len() && old_order[w] == k;
                    if w < pos {
                        assert(order@[w] == old_order[w]);
                    } else {
                        assert(order@[w + 1] == old_order[w]);
                    }
                }
            }
            assert forall|i: int| 0 <= i < order@.len() implies order@[i] < idx + 1 by {
                if i < pos {
                    assert(order@[i] == old_order[i]);
                } else if i > pos {
                    assert(order@[i] == old_order[i - 1]);
                }
            }
        }
        idx = idx + 1;
    }
    order
}

proof fn lemma_same_position(created: Seq<Instant>, a: Seq<usize>, b: Seq<usize>, i: int)
    requires
        is_newest_first_order(created, a),
        is_newest_first_order(created, b),
        0 <= i < a.len(),
    ensures
        forall|j: int| 0 <= j <= i ==> a[j] == b[j],
    decreases i,
{
    if i > 0 {
        lemma_same_position(created, a, b, i - 1);
    }
    let x = a[i];
    let y = b[i];
    if x != y {
        assert(b.contains(x));
        let j = choose|j: int| 0 <= j < b.len() && b[j] == x;
        assert(a.contains(y));
        let k = choose|k: int| 0 <= k < a.len() && a[k] == y;
        if j < i {
            assert(a[j] == b[j]);
            assert(shown_before(created, a[j] as int, a[i] as int));
        } else if k < i {
            assert(a[k] == b[k]);
            assert(shown_before(created, b[k] as int, b[i] as int));
        } else {
            assert(shown_before(created, b[i] as int, b[j] as int));
            assert(shown_before(created, a[i] as int, a[k] as int));
        }
    }
}

/// The display order is fixed by the creation times alone: two orders that
/// both list each status once, newest first, are the same.
pub proof fn lemma_newest_first_order_unique(created: Seq<Instant>, a: Seq<usize>, b: Seq<usize>)
    requires
        is_newest_first_order(created, a),
        is_newest_first_order(created, b),
    ensures
        a == b,
{
    if a.len() > 0 {
        lemma_same_position(created, a, b, a.len() - 1);
    }
    assert(a =~= b);
}

/// The name shown for a signed-in user: the profile's display name, or the
/// handle where the profile has none.
pub fn display_name_or_handle(display_name: Option<String>, handle: String) -> (name: String)
    ensures
        name@ == match display_name {
            Some(d) => d@,
            None => handle@,
        },
{
    match display_name {
        Some(d) => d,
        None => handle,
    }
}

} // verus!
