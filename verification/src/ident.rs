//! Records with an id, and the search for the first record that has a given id.

use std::rc::Rc;
use vstd::prelude::*;

verus! {

/// A record that the service identifies by an integer id.
pub trait Identified {
    /// The id as a mathematical integer.
    spec fn ident(&self) -> int;

    /// The id.
    fn id(&self) -> (r: i64)
        ensures
            r == self.ident(),
    ;
}

/// The ids of a collection of shared records, in the collection's order.
pub open spec fn ids<T: Identified>(items: Seq<Rc<T>>) -> Seq<int> {
    items.map_values(|item: Rc<T>| item.ident())
}

/// `i` is the position of the first occurrence of `id` in `ids`.
pub open spec fn is_first_with_id(ids: Seq<int>, id: int, i: int) -> bool {
    &&& 0 <= i < ids.len()
    &&& ids[i] == id
    &&& forall|j: int| 0 <= j < i ==> ids[j] != id
}

/// The position of the first occurrence of `id` in `ids`, if it occurs at all.
pub open spec fn first_with_id(ids: Seq<int>, id: int) -> Option<int> {
    if exists|i: int| is_first_with_id(ids, id, i) {
        Some(choose|i: int| is_first_with_id(ids, id, i))
    } else {
        None
    }
}

/// There is at most one first occurrence, so `first_with_id` names it.
pub proof fn lemma_first_with_id_unique(ids: Seq<int>, id: int, i: int)
    requires
        is_first_with_id(ids, id, i),
    ensures
        first_with_id(ids, id) == Some(i),
{
    let k = choose|k: int| is_first_with_id(ids, id, k);
    assert(is_first_with_id(ids, id, k));
    if k < i {
        assert(ids[k] != id);
    } else if i < k {
        assert(ids[i] != id);
    }
}

/// An id that occurs nowhere has no first occurrence, and the other way round.
pub proof fn lemma_first_with_id_none(ids: Seq<int>, id: int)
    ensures
        first_with_id(ids, id) is None <==> (forall|j: int| 0 <= j < ids.len() ==> ids[j] != id),
{
    if first_with_id(ids, id) is None {
        assert forall|j: int| 0 <= j < ids.len() implies ids[j] != id by {
            if ids[j] == id {
                lemma_has_first(ids, id, j);
            }
        }
    } else {
        let k = choose|k: int| is_first_with_id(ids, id, k);
        assert(is_first_with_id(ids, id, k));
        assert(ids[k] == id);
    }
}

/// An id that occurs at `j` has a first occurrence at or before `j`.
proof fn lemma_has_first(ids: Seq<int>, id: int, j: int)
    requires
        0 <= j < ids.len(),
        ids[j] == id,
    ensures
        exists|i: int| is_first_with_id(ids, id, i) && i <= j,
    decreases j,
{
    if forall|k: int| 0 <= k < j ==> ids[k] != id {
        assert(is_first_with_id(ids, id, j));
    } else {
        let k = choose|k: int| 0 <= k < j && ids[k] == id;
        lemma_has_first(ids, id, k);
        let i = choose|i: int| is_first_with_id(ids, id, i) && i <= k;
        assert(is_first_with_id(ids, id, i) && i <= j);
    }
}

/// A machine index as a mathematical one.
pub open spec fn opt_index(i: Option<usize>) -> Option<int> {
    match i {
        Some(i) => Some(i as int),
        None => None,
    }
}

/// A record at `i` with the id, and none before it, is the first with the id.
pub proof fn lemma_first_at<T: Identified>(items: Seq<Rc<T>>, id: i64, i: usize)
    requires
        i < items.len(),
        items[i as int].ident() == id,
        forall|j: int| 0 <= j < i ==> items[j].ident() != id,
    ensures
        first_with_id(ids(items), id as int) == Some(i as int),
{
    assert(ids(items)[i as int] == id);
    lemma_first_with_id_unique(ids(items), id as int, i as int);
}

/// Where no record has the id, none is the first with it.
pub proof fn lemma_absent<T: Identified>(items: Seq<Rc<T>>, id: i64)
    requires
        forall|j: int| 0 <= j < items.len() ==> items[j].ident() != id,
    ensures
        first_with_id(ids(items), id as int) is None,
{
    lemma_first_with_id_none(ids(items), id as int);
}

/// Linear search for the first record with the given id.
pub fn position_by_id<T: Identified>(items: &[Rc<T>], id: i64) -> (r: Option<usize>)
    ensures
        opt_index(r) == first_with_id(ids(items@), id as int),
{
    let n = items.len();
    let mut i: usize = 0;
    while i < n
        invariant
            n == items@.len(),
            i <= n,
            forall|j: int| 0 <= j < i ==> items@[j].ident() != id,
        decreases n - i,
    {
        if items[i].id() == id {
            proof {
                lemma_first_at(items@, id, i);
            }
            return Some(i);
        }
        i += 1;
    }
    proof {
        lemma_absent(items@, id);
    }
    None
}

/// No id occurs twice.
pub open spec fn unique_ids(ids: Seq<int>) -> bool {
    forall|i: int, j: int| 0 <= i < j < ids.len() ==> ids[i] != ids[j]
}

/// Among unique ids, the record with an id is the first with it: the search finds
/// the one record that there is.
pub proof fn lemma_unique_id_is_first(ids: Seq<int>, id: int, i: int)
    requires
        unique_ids(ids),
        0 <= i < ids.len(),
        ids[i] == id,
    ensures
        first_with_id(ids, id) == Some(i),
{
    assert(is_first_with_id(ids, id, i));
    lemma_first_with_id_unique(ids, id, i);
}

/// Tells whether every record of a collection has an id of its own.
pub fn has_unique_ids<T: Identified>(items: &[Rc<T>]) -> (r: bool)
    ensures
        r == unique_ids(ids(items@)),
{
    let n = items.len();
    let mut j: usize = 0;
    while j < n
        invariant
            n == items@.len(),
            j <= n,
            forall|a: int, b: int| 0 <= a < b < j ==> items@[a].ident() != items@[b].ident(),
        decreases n - j,
    {
        let id = items[j].id();
        let mut i: usize = 0;
        while i < j
            invariant
                n == items@.len(),
                i <= j < n,
                id == items@[j as int].ident(),
                forall|a: int| 0 <= a < i ==> items@[a].ident() != id,
            decreases j - i,
        {
            if items[i].id() == id {
                proof {
                    assert(ids(items@)[i as int] == ids(items@)[j as int]);
                }
                return false;
            }
            i += 1;
        }
        j += 1;
    }
    true
}

} // verus!
