use vstd::prelude::*;

use crate::ids::{holds_id, ids_issued, lemma_position_unique, lemma_push_next, lemma_remove_keeps, position_of};
use crate::model::{fresh_todo, CreateTodo, RepositoryError, Todo, UpdateTodo};

verus! {

/// The ids of a sequence of todos, in the same order.
pub open spec fn todo_ids(s: Seq<Todo>) -> Seq<i32> {
    s.map_values(|t: Todo| t.id)
}

/// What looking an id up in a sequence of todos gives.
pub open spec fn lookup_todo(s: Seq<Todo>, id: i32) -> Result<Todo, RepositoryError> {
    if holds_id(todo_ids(s), id) {
        Ok(s[position_of(todo_ids(s), id)])
    } else {
        Err(RepositoryError::NotFound)
    }
}

/// The todo that an update payload makes of the todo with the given id.
pub open spec fn updated_todo(id: i32, payload: UpdateTodo) -> Todo {
    Todo { id, text: payload.text, completed: payload.completed }
}

/// Todos held in memory, ordered by id, with the counter that hands out ids.
pub struct TodoRepositoryForMemory {
    todos: Vec<Todo>,
    next_id: i32,
}

impl View for TodoRepositoryForMemory {
    type V = Seq<Todo>;

    closed spec fn view(&self) -> Seq<Todo> {
        self.todos@
    }
}

impl TodoRepositoryForMemory {
    /// The id that the next successful creation receives.
    pub closed spec fn next_id(&self) -> int {
        self.next_id as int
    }

    pub open spec fn wf(&self) -> bool {
        ids_issued(todo_ids(self@), self.next_id())
    }

    pub fn new() -> (r: TodoRepositoryForMemory)
        ensures
            r.wf(),
            r@ == Seq::<Todo>::empty(),
            r.next_id() == 1,
    {
        let r = TodoRepositoryForMemory { todos: Vec::new(), next_id: 1 };
        assert(todo_ids(r@) =~= Seq::<i32>::empty());
        r
    }

    /// The index at which the todo with this id is stored.
    fn locate(&self, id: i32) -> (r: Option<usize>)
        requires
            self.wf(),
        ensures
            match r {
                Some(k) => k < self@.len() && holds_id(todo_ids(self@), id) && position_of(
                    todo_ids(self@),
                    id,
                ) == k,
                None => !holds_id(todo_ids(self@), id),
            },
    {
        let ghost ids = todo_ids(self@);
        let mut k: usize = 0;
        while k < self.todos.len()
            invariant
                k <= self.todos@.len(),
                self.wf(),
                ids == todo_ids(self@),
                forall|i: int| 0 <= i < k ==> #[trigger] ids[i] != id,
            decreases self.todos@.len() - k,
        {
            if self.todos[k].id == id {
                proof {
                    lemma_position_unique(ids, self.next_id(), id, k as int);
                }
                return Some(k);
            }
            k = k + 1;
        }
        None
    }

    /// Stores a new todo under the counter's id. Fails, changing nothing,
    /// only when the counter has no id left to give.
    pub fn create(&mut self, payload: CreateTodo) -> (r: Result<Todo, RepositoryError>)
        requires
            old(self).wf(),
        ensures
            final(self).wf(),
            old(self).next_id() < i32::MAX ==> {
                &&& r == Ok::<Todo, RepositoryError>(
                    fresh_todo(old(self).next_id() as i32, payload.text),
                )
                &&& final(self)@ == old(self)@.push(
                    fresh_todo(old(self).next_id() as i32, payload.text),
                )
                &&& final(self).next_id() == old(self).next_id() + 1
            },
            old(self).next_id() == i32::MAX ==> {
                &&& r == Err::<Todo, RepositoryError>(RepositoryError::NotFound)
                &&& final(self)@ == old(self)@
                &&& final(self).next_id() == old(self).next_id()
            },
    {
        if self.next_id == i32::MAX {
            return Err(RepositoryError::NotFound);
        }
        let todo = Todo::new(self.next_id, payload.text);
        let stored = todo.copied();
        proof {
            lemma_push_next(todo_ids(self@), self.next_id());
        }
        self.todos.push(stored);
        self.next_id = self.next_id + 1;
        assert(todo_ids(self@) =~= todo_ids(old(self)@).push(todo.id));
        Ok(todo)
    }

    /// The todo with this id.
    pub fn find(&self, id: i32) -> (r: Result<Todo, RepositoryError>)
        requires
            self.wf(),
        ensures
            r == lookup_todo(self@, id),
    {
        match self.locate(id) {
            Some(k) => Ok(self.todos[k].copied()),
            None => Err(RepositoryError::NotFound),
        }
    }

    /// Every todo, by ascending id. Never fails.
    pub fn all(&self) -> (r: Result<Vec<Todo>, RepositoryError>)
        requires
            self.wf(),
        ensures
            r matches Ok(v) && v@ == self@,
    {
        let mut out: Vec<Todo> = Vec::new();
        let mut k: usize = 0;
        while k < self.todos.len()
            invariant
                k <= self.todos@.len(),
                out@ == self@.subrange(0, k as int),
            decreases self.todos@.len() - k,
        {
            out.push(self.todos[k].copied());
            k = k + 1;
            assert(out@ =~= self@.subrange(0, k as int));
        }
        assert(self@.subrange(0, self@.len() as int) =~= self@);
        Ok(out)
    }

    /// Replaces the text and completion flag of the todo with this id.
    pub fn update(&mut self, id: i32, payload: UpdateTodo) -> (r: Result<Todo, RepositoryError>)
        requires
            old(self).wf(),
        ensures
            final(self).wf(),
            final(self).next_id() == old(self).next_id(),
            holds_id(todo_ids(old(self)@), id) ==> {
                &&& r == Ok::<Todo, RepositoryError>(updated_todo(id, payload))
                &&& final(self)@ == old(self)@.update(
                    position_of(todo_ids(old(self)@), id),
                    updated_todo(id, payload),
                )
            },
            !holds_id(todo_ids(old(self)@), id) ==> {
                &&& r == Err::<Todo, RepositoryError>(RepositoryError::NotFound)
                &&& final(self)@ == old(self)@
            },
    {
        match self.locate(id) {
            Some(k) => {
                let todo = Todo { id, text: payload.text, completed: payload.completed };
                let stored = todo.copied();
                self.todos.set(k, stored);
                assert(todo_ids(self@) =~= todo_ids(old(self)@));
                Ok(todo)
            },
            None => Err(RepositoryError::NotFound),
        }
    }

    /// Removes the todo with this id; its id is not handed out again.
    pub fn delete(&mut self, id: i32) -> (r: Result<(), RepositoryError>)
        requires
            old(self).wf(),
        ensures
            final(self).wf(),
            final(self).next_id() == old(self).next_id(),
            holds_id(todo_ids(old(self)@), id) ==> {
                &&& r == Ok::<(), RepositoryError>(())
                &&& final(self)@ == old(self)@.remove(position_of(todo_ids(old(self)@), id))
            },
            !holds_id(todo_ids(old(self)@), id) ==> {
                &&& r == Err::<(), RepositoryError>(RepositoryError::NotFound)
                &&& final(self)@ == old(self)@
            },
    {
        match self.locate(id) {
            Some(k) => {
                proof {
                    lemma_remove_keeps(todo_ids(self@), self.next_id(), k as int);
                }
                self.todos.remove(k);
                assert(todo_ids(self@) =~= todo_ids(old(self)@).remove(k as int));
                Ok(())
            },
            None => Err(RepositoryError::NotFound),
        }
    }
}

/// A todo just created is what looking its id up finds afterwards.
pub proof fn law_create_then_find(store: TodoRepositoryForMemory, payload: CreateTodo)
    requires
        store.wf(),
        store.next_id() < i32::MAX,
    ensures
        lookup_todo(
            store@.push(fresh_todo(store.next_id() as i32, payload.text)),
            store.next_id() as i32,
        ) == Ok::<Todo, RepositoryError>(fresh_todo(store.next_id() as i32, payload.text)),
{
    let t = fresh_todo(store.next_id() as i32, payload.text);
    lemma_push_next(todo_ids(store@), store.next_id());
    assert(todo_ids(store@.push(t)) =~= todo_ids(store@).push(t.id));
    let n = store@.len() as int;
    assert(todo_ids(store@.push(t))[n] == t.id);
    assert(store@.push(t)[n] == t);
}

/// A fresh store holds no id: finding, updating and deleting any id fail
/// with `NotFound`.
pub proof fn law_fresh_store_holds_nothing(id: i32)
    ensures
        !holds_id(todo_ids(Seq::<Todo>::empty()), id),
        lookup_todo(Seq::<Todo>::empty(), id) == Err::<Todo, RepositoryError>(
            RepositoryError::NotFound,
        ),
{
}

/// Once a todo is deleted its id is absent, so deleting it again fails with
/// `NotFound` and leaves the store as it is.
pub proof fn law_deleted_id_is_absent(store: TodoRepositoryForMemory, id: i32)
    requires
        store.wf(),
        holds_id(todo_ids(store@), id),
    ensures
        !holds_id(todo_ids(store@.remove(position_of(todo_ids(store@), id))), id),
{
    let ids = todo_ids(store@);
    let k = position_of(ids, id);
    let rest = store@.remove(k);
    assert(todo_ids(rest) =~= ids.remove(k));
    if holds_id(todo_ids(rest), id) {
        let j = choose|j: int| 0 <= j < todo_ids(rest).len() && todo_ids(rest)[j] == id;
        let a = if j < k { j } else { j + 1 };
        assert(ids[a] == id);
        lemma_position_unique(ids, store.next_id(), id, a);
    }
}

} // verus!
