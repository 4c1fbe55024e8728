use vstd::prelude::*;

verus! {

/// The ids a store holds, in storage order, are strictly ascending and each
/// lies in `1..next`: every id was handed out by the store's counter.
pub open spec fn ids_issued(ids: Seq<i32>, next: int) -> bool {
    &&& 1 <= next <= i32::MAX
    &&& forall|i: int, j: int| 0 <= i < j < ids.len() ==> #[trigger] ids[i] < #[trigger] ids[j]
    &&& forall|i: int| 0 <= i < ids.len() ==> 1 <= #[trigger] ids[i] < next
}

/// The sequence holds the id.
pub open spec fn holds_id(ids: Seq<i32>, id: i32) -> bool {
    exists|i: int| 0 <= i < ids.len() && ids[i] == id
}

/// The position of an id that the sequence holds.
pub open spec fn position_of(ids: Seq<i32>, id: i32) -> int {
    choose|i: int| 0 <= i < ids.len() && ids[i] == id
}

/// In a strictly ascending sequence, an id sits at one position only.
pub proof fn lemma_position_unique(ids: Seq<i32>, next: int, id: i32, k: int)
    requires
        ids_issued(ids, next),
        0 <= k < ids.len(),
        ids[k] == id,
    ensures
        holds_id(ids, id),
        position_of(ids, id) == k,
{
    let p = position_of(ids, id);
    assert(0 <= p < ids.len() && ids[p] == id);
    if p < k {
        assert(ids[p] < ids[k]);
    } else if k < p {
        assert(ids[k] < ids[p]);
    }
}

/// Appending the counter's current value keeps the ids issued, with the
/// counter moved on by one.
pub proof fn lemma_push_next(ids: Seq<i32>, next: int)
    requires
        ids_issued(ids, next),
        next < i32::MAX,
    ensures
        ids_issued(ids.push(next as i32), next + 1),
        position_of(ids.push(next as i32), next as i32) == ids.len(),
{
    let s = ids.push(next as i32);
    assert forall|i: int, j: int| 0 <= i < j < s.len() implies s[i] < s[j] by {
        if j < ids.len() {
            assert(ids[i] < ids[j]);
        } else {
            assert(s[i] == ids[i]);
        }
    }
    lemma_position_unique(s, next + 1, next as i32, ids.len() as int);
}

/// Removing one position keeps the ids issued.
pub proof fn lemma_remove_keeps(ids: Seq<i32>, next: int, k: int)
    requires
        ids_issued(ids, next),
        0 <= k < ids.len(),
    ensures
        ids_issued(ids.remove(k), next),
{
    let s = ids.remove(k);
    assert forall|i: int, j: int| 0 <= i < j < s.len() implies s[i] < s[j] by {
        let a = if i < k { i } else { i + 1 };
        let b = if j < k { j } else { j + 1 };
        assert(s[i] == ids[a] && s[j] == ids[b]);
        assert(ids[a] < ids[b]);
    }
    assert forall|i: int| 0 <= i < s.len() implies 1 <= #[trigger] s[i] < next by {
        let a = if i < k { i } else { i + 1 };
        assert(s[i] == ids[a]);
    }
}

} // verus!
