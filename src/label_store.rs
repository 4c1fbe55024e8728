use vstd::prelude::*;

use crate::ids::{holds_id, ids_issued, lemma_position_unique, lemma_push_next, lemma_remove_keeps, position_of};
use crate::model::{fresh_label, CreateLabel, Label, RepositoryError};

verus! {

/// The ids of a sequence of labels, in the same order.
pub open spec fn label_ids(s: Seq<Label>) -> Seq<i32> {
    s.map_values(|l: Label| l.id)
}

/// Labels held in memory, ordered by id, with the counter that hands out ids.
pub struct LabelRepositoryForMemory {
    labels: Vec<Label>,
    next_id: i32,
}

impl View for LabelRepositoryForMemory {
    type V = Seq<Label>;

    closed spec fn view(&self) -> Seq<Label> {
        self.labels@
    }
}

impl LabelRepositoryForMemory {
    /// The id that the next successful creation receives.
    pub closed spec fn next_id(&self) -> int {
        self.next_id as int
    }

    pub open spec fn wf(&self) -> bool {
        ids_issued(label_ids(self@), self.next_id())
    }

    pub fn new() -> (r: LabelRepositoryForMemory)
        ensures
            r.wf(),
            r@ == Seq::<Label>::empty(),
            r.next_id() == 1,
    {
        let r = LabelRepositoryForMemory { labels: Vec::new(), next_id: 1 };
        assert(label_ids(r@) =~= Seq::<i32>::empty());
        r
    }

    /// The index at which the label with this id is stored.
    fn locate(&self, id: i32) -> (r: Option<usize>)
        requires
            self.wf(),
        ensures
            match r {
                Some(k) => k < self@.len() && holds_id(label_ids(self@), id) && position_of(
                    label_ids(self@),
                    id,
                ) == k,
                None => !holds_id(label_ids(self@), id),
            },
    {
        let ghost ids = label_ids(self@);
        let mut k: usize = 0;
        while k < self.labels.len()
            invariant
                k <= self.labels@.len(),
                self.wf(),
                ids == label_ids(self@),
                forall|i: int| 0 <= i < k ==> #[trigger] ids[i] != id,
            decreases self.labels@.len() - k,
        {
            if self.labels[k].id == id {
                proof {
                    lemma_position_unique(ids, self.next_id(), id, k as int);
                }
                return Some(k);
            }
            k = k + 1;
        }
        None
    }

    /// Stores a new label under the counter's id. Fails, changing nothing,
    /// only when the counter has no id left to give.
    pub fn create(&mut self, payload: CreateLabel) -> (r: Result<Label, RepositoryError>)
        requires
            old(self).wf(),
        ensures
            final(self).wf(),
            old(self).next_id() < i32::MAX ==> {
                &&& r == Ok::<Label, RepositoryError>(
                    fresh_label(old(self).next_id() as i32, payload.name),
                )
                &&& final(self)@ == old(self)@.push(
                    fresh_label(old(self).next_id() as i32, payload.name),
                )
                &&& final(self).next_id() == old(self).next_id() + 1
            },
            old(self).next_id() == i32::MAX ==> {
                &&& r == Err::<Label, RepositoryError>(RepositoryError::NotFound)
                &&& final(self)@ == old(self)@
                &&& final(self).next_id() == old(self).next_id()
            },
    {
        if self.next_id == i32::MAX {
            return Err(RepositoryError::NotFound);
        }
        let label = Label::new(self.next_id, payload.name);
        let stored = label.copied();
        proof {
            lemma_push_next(label_ids(self@), self.next_id());
        }
        self.labels.push(stored);
        self.next_id = self.next_id + 1;
        assert(label_ids(self@) =~= label_ids(old(self)@).push(label.id));
        Ok(label)
    }

    /// Every label, by ascending id. Never fails.
    pub fn all(&self) -> (r: Result<Vec<Label>, RepositoryError>)
        requires
            self.wf(),
        ensures
            r matches Ok(v) && v@ == self@,
    {
        let mut out: Vec<Label> = Vec::new();
        let mut k: usize = 0;
        while k < self.labels.len()
            invariant
                k <= self.labels@.len(),
                out@ == self@.subrange(0, k as int),
            decreases self.labels@.len() - k,
        {
            out.push(self.labels[k].copied());
            k = k + 1;
            assert(out@ =~= self@.subrange(0, k as int));
        }
        assert(self@.subrange(0, self@.len() as int) =~= self@);
        Ok(out)
    }

    /// Removes the label with this id; its id is not handed out again.
    pub fn delete(&mut self, id: i32) -> (r: Result<(), RepositoryError>)
        requires
            old(self).wf(),
        ensures
            final(self).wf(),
            final(self).next_id() == old(self).next_id(),
            holds_id(label_ids(old(self)@), id) ==> {
                &&& r == Ok::<(), RepositoryError>(())
                &&& final(self)@ == old(self)@.remove(position_of(label_ids(old(self)@), id))
            },
            !holds_id(label_ids(old(self)@), id) ==> {
                &&& r == Err::<(), RepositoryError>(RepositoryError::NotFound)
                &&& final(self)@ == old(self)@
            },
    {
        match self.locate(id) {
            Some(k) => {
                proof {
                    lemma_remove_keeps(label_ids(self@), self.next_id(), k as int);
                }
                self.labels.remove(k);
                assert(label_ids(self@) =~= label_ids(old(self)@).remove(k as int));
                Ok(())
            },
            None => Err(RepositoryError::NotFound),
        }
    }
}

/// Once a label is deleted its id is absent, so deleting it again fails with
/// `NotFound` and leaves the store as it is.
pub proof fn law_deleted_label_is_absent(store: LabelRepositoryForMemory, id: i32)
    requires
        store.wf(),
        holds_id(label_ids(store@), id),
    ensures
        !holds_id(label_ids(store@.remove(position_of(label_ids(store@), id))), id),
{
    let ids = label_ids(store@);
    let k = position_of(ids, id);
    let rest = store@.remove(k);
    assert(label_ids(rest) =~= ids.remove(k));
    if holds_id(label_ids(rest), id) {
        let j = choose|j: int| 0 <= j < label_ids(rest).len() && label_ids(rest)[j] == id;
        let a = if j < k { j } else { j + 1 };
        assert(ids[a] == id);
        lemma_position_unique(ids, store.next_id(), id, a);
    }
}

} // verus!
