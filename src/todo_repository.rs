use vstd::prelude::*;

use crate::models::{CreateTodo, Todo, UpdateTodo};
use crate::repositories::{TodoRepository, RepositoryError};

verus! {

/// Index of the record with id `id` in `s`, searching from the end, or -1.
pub open spec fn todo_position(s: Seq<Todo>, id: i32) -> int
    decreases s.len(),
{
    if s.len() == 0 {
        -1
    } else if s.last().id == id {
        s.len() - 1
    } else {
        todo_position(s.drop_last(), id)
    }
}

/// Ids strictly ascending in storage order, all within `1..=issued`.
pub open spec fn todo_ids_ordered(s: Seq<Todo>, issued: i32) -> bool {
    &&& forall|i: int, j: int| 0 <= i < j < s.len() ==> s[i].id < s[j].id
    &&& forall|i: int| 0 <= i < s.len() ==> 1 <= #[trigger] s[i].id <= issued
}

/// What `find` returns on a store holding `s`.
pub open spec fn find_todo_result(s: Seq<Todo>, id: i32) -> Result<Todo, RepositoryError> {
    let p = todo_position(s, id);
    if p >= 0 {
        Ok(s[p])
    } else {
        Err(RepositoryError::NotFound(id))
    }
}

/// The record that an update with `payload` stores under `id`.
pub open spec fn updated_todo(id: i32, payload: UpdateTodo) -> Todo {
    Todo { id, text: payload.text, completed: payload.completed }
}

/// What `update` returns on a store holding `s`.
pub open spec fn update_todo_result(s: Seq<Todo>, id: i32, payload: UpdateTodo) -> Result<
    Todo,
    RepositoryError,
> {
    if todo_position(s, id) >= 0 {
        Ok(updated_todo(id, payload))
    } else {
        Err(RepositoryError::NotFound(id))
    }
}

/// The records after `update` on a store holding `s`.
pub open spec fn update_todo_store(s: Seq<Todo>, id: i32, payload: UpdateTodo) -> Seq<Todo> {
    let p = todo_position(s, id);
    if p >= 0 {
        s.update(p, updated_todo(id, payload))
    } else {
        s
    }
}

/// What `delete` returns on a store holding `s`.
pub open spec fn delete_todo_result(s: Seq<Todo>, id: i32) -> Result<(), RepositoryError> {
    if todo_position(s, id) >= 0 {
        Ok(())
    } else {
        Err(RepositoryError::NotFound(id))
    }
}

/// The records after `delete` on a store holding `s`.
pub open spec fn delete_todo_store(s: Seq<Todo>, id: i32) -> Seq<Todo> {
    let p = todo_position(s, id);
    if p >= 0 {
        s.remove(p)
    } else {
        s
    }
}

pub proof fn lemma_todo_position(s: Seq<Todo>, id: i32)
    ensures
        -1 <= todo_position(s, id) < s.len(),
        todo_position(s, id) >= 0 ==> s[todo_position(s, id)].id == id,
        todo_position(s, id) == -1 <==> forall|i: int| 0 <= i < s.len() ==> s[i].id != id,
    decreases s.len(),
{
    if s.len() > 0 {
        lemma_todo_position(s.drop_last(), id);
        if s.last().id != id && todo_position(s, id) == -1 {
            assert forall|i: int| 0 <= i < s.len() implies s[i].id != id by {
                if i < s.len() - 1 {
                    assert(s[i] == s.drop_last()[i]);
                }
            }
        }
    }
}

/// In an id-ordered sequence the gap between two ids is at least the gap
/// between their positions.
proof fn lemma_ordered_gap(s: Seq<Todo>, issued: i32, i: int, j: int)
    requires
        todo_ids_ordered(s, issued),
        0 <= i <= j < s.len(),
    ensures
        s[j].id - s[i].id >= j - i,
    decreases j - i,
{
    if i < j {
        lemma_ordered_gap(s, issued, i, j - 1);
    }
}


/// Todos held in process memory, in ascending id order. Ids come from a
/// counter of the ids issued so far, so none is ever issued twice.
pub struct TodoRepositoryForMemory {
    records: Vec<Todo>,
    issued: i32,
}

impl View for TodoRepositoryForMemory {
    type V = Seq<Todo>;

    closed spec fn view(&self) -> Seq<Todo> {
        self.records@
    }
}

impl TodoRepositoryForMemory {
    /// The number of ids issued so far; the next todo gets this plus one.
    pub closed spec fn issued(&self) -> i32 {
        self.issued
    }

    pub closed spec fn well_formed(&self) -> bool {
        &&& self.issued >= 0
        &&& todo_ids_ordered(self.records@, self.issued)
    }

    /// An empty store.
    pub fn new() -> (r: Self)
        ensures
            r.well_formed(),
            r@ == Seq::<Todo>::empty(),
            r.issued() == 0,
    {
        TodoRepositoryForMemory { records: Vec::new(), issued: 0 }
    }

    /// Stores a new, not completed todo under the next id and returns it.
    /// Fails with `Unexpected` only once every positive `i32` id is issued.
    pub fn create(&mut self, payload: CreateTodo) -> (r: Result<Todo, RepositoryError>)
        requires
            old(self).well_formed(),
        ensures
            final(self).well_formed(),
            old(self).issued() < i32::MAX ==> {
                let t = Todo { id: (old(self).issued() + 1) as i32, text: payload.text, completed: false };
                &&& r == Ok::<Todo, RepositoryError>(t)
                &&& final(self)@ == old(self)@.push(t)
                &&& final(self).issued() == old(self).issued() + 1
            },
            old(self).issued() == i32::MAX ==> r is Err && r->Err_0 is Unexpected && *final(self)
                == *old(self),
    {
        if self.issued == i32::MAX {
            return Err(RepositoryError::Unexpected(String::from_str("no todo id is left")));
        }
        let id: i32 = self.issued + 1;
        let todo = Todo { id, text: payload.text, completed: false };
        let ghost old_records = self.records@;
        self.records.push(todo.clone());
        self.issued = id;
        assert(todo_ids_ordered(self.records@, self.issued)) by {
            assert forall|i: int| 0 <= i < old_records.len() implies old_records[i].id < id by {}
            assert forall|i: int| 0 <= i < self.records@.len() implies self.records@[i] == (if i
                < old_records.len() {
                old_records[i]
            } else {
                todo
            }) by {}
        }
        Ok(todo)
    }

    fn position(&self, id: i32) -> (r: usize)
        ensures
            r < self@.len() ==> todo_position(self@, id) == r,
            r >= self@.len() ==> todo_position(self@, id) == -1,
    {
        let mut i: usize = self.records.len();
        assert(self.records@.subrange(0, i as int) == self.records@);
        while i > 0
            invariant
                i <= self.records@.len(),
                todo_position(self.records@, id) == todo_position(self.records@.subrange(0, i as int), id),
            decreases i,
        {
            let ghost pre = self.records@.subrange(0, i as int);
            if self.records[i - 1].id == id {
                return i - 1;
            }
            assert(pre.drop_last() == self.records@.subrange(0, i - 1));
            i = i - 1;
        }
        self.records.len()
    }

    /// The todo with id `id`.
    pub fn find(&self, id: i32) -> (r: Result<Todo, RepositoryError>)
        ensures
            r == find_todo_result(self@, id),
    {
        proof { lemma_todo_position(self@, id); }
        let p = self.position(id);
        if p < self.records.len() {
            Ok(self.records[p].clone())
        } else {
            Err(RepositoryError::NotFound(id))
        }
    }

    /// Every todo, in ascending id order.
    pub fn all(&self) -> (r: Vec<Todo>)
        ensures
            r@ == self@,
    {
        let mut out: Vec<Todo> = Vec::new();
        let mut i: usize = 0;
        while i < self.records.len()
            invariant
                i <= self.records@.len(),
                out@ == self.records@.subrange(0, i as int),
            decreases self.records@.len() - i,
        {
            out.push(self.records[i].clone());
            i = i + 1;
        }
        assert(self.records@.subrange(0, self.records@.len() as int) == self.records@);
        out
    }

    /// Replaces text and completion of the todo with id `id`.
    pub fn update(&mut self, id: i32, payload: UpdateTodo) -> (r: Result<Todo, RepositoryError>)
        requires
            old(self).well_formed(),
        ensures
            final(self).well_formed(),
            final(self).issued() == old(self).issued(),
            r == update_todo_result(old(self)@, id, payload),
            final(self)@ == update_todo_store(old(self)@, id, payload),
    {
        proof { lemma_todo_position(self@, id); }
        let p = self.position(id);
        if p < self.records.len() {
            let todo = Todo { id, text: payload.text, completed: payload.completed };
            self.records.set(p, todo.clone());
            Ok(todo)
        } else {
            Err(RepositoryError::NotFound(id))
        }
    }

    /// Removes the todo with id `id`.
    pub fn delete(&mut self, id: i32) -> (r: Result<(), RepositoryError>)
        requires
            old(self).well_formed(),
        ensures
            final(self).well_formed(),
            final(self).issued() == old(self).issued(),
            r == delete_todo_result(old(self)@, id),
            final(self)@ == delete_todo_store(old(self)@, id),
    {
        proof { lemma_todo_position(self@, id); }
        let p = self.position(id);
        if p < self.records.len() {
            let ghost old_records = self.records@;
            self.records.remove(p);
            assert forall|i: int| 0 <= i < self.records@.len() implies self.records@[i] == (if i
                < p {
                old_records[i]
            } else {
                old_records[i + 1]
            }) by {}
            Ok(())
        } else {
            Err(RepositoryError::NotFound(id))
        }
    }
}


impl TodoRepository for TodoRepositoryForMemory {
    open spec fn repository_inv(&self) -> bool {
        self.well_formed()
    }

    open spec fn todos(&self) -> Seq<Todo> {
        self@
    }

    open spec fn next_id(&self) -> i32 {
        (self.issued() + 1) as i32
    }

    open spec fn can_create(&self) -> bool {
        self.issued() < i32::MAX
    }

    fn create(&mut self, payload: CreateTodo) -> (r: Result<Todo, RepositoryError>) {
        TodoRepositoryForMemory::create(self, payload)
    }

    fn find(&self, id: i32) -> (r: Result<Todo, RepositoryError>) {
        TodoRepositoryForMemory::find(self, id)
    }

    fn all(&self) -> (r: Result<Vec<Todo>, RepositoryError>) {
        Ok(TodoRepositoryForMemory::all(self))
    }

    fn update(&mut self, id: i32, payload: UpdateTodo) -> (r: Result<Todo, RepositoryError>) {
        TodoRepositoryForMemory::update(self, id, payload)
    }

    fn delete(&mut self, id: i32) -> (r: Result<(), RepositoryError>) {
        TodoRepositoryForMemory::delete(self, id)
    }
}

/// Reading is idempotent: looking up again, by its own id, the todo that a
/// lookup returned gives the same todo, and a failed lookup fails the same way.
pub proof fn lemma_find_idempotent(s: Seq<Todo>, id: i32)
    ensures
        find_todo_result(s, id) is Ok ==> find_todo_result(s, find_todo_result(s, id)->Ok_0.id)
            == find_todo_result(s, id),
        find_todo_result(s, id) is Err ==> find_todo_result(s, id) == Err::<Todo, RepositoryError>(
            RepositoryError::NotFound(id),
        ),
{
    lemma_todo_position(s, id);
}

/// With no deletion since the store was made (as many records as ids
/// issued), the todos hold the ids 1, 2, ..., n in the order they were made.
pub proof fn lemma_ids_follow_creation(repo: TodoRepositoryForMemory)
    requires
        repo.well_formed(),
        repo@.len() == repo.issued(),
    ensures
        forall|i: int| 0 <= i < repo@.len() ==> #[trigger] repo@[i].id == i + 1,
{
    let s = repo@;
    let n = s.len() as int;
    assert forall|i: int| 0 <= i < n implies #[trigger] s[i].id == i + 1 by {
        lemma_ordered_gap(s, repo.issued(), 0, i);
        lemma_ordered_gap(s, repo.issued(), i, n - 1);
        assert(1 <= s[0].id);
        assert(s[n - 1].id <= repo.issued());
    }
}

/// `find`, `update` and `delete` agree on which ids are missing, and on a
/// missing id all three fail with `NotFound` of that id.
pub proof fn lemma_not_found_symmetry(s: Seq<Todo>, id: i32, payload: UpdateTodo)
    ensures
        find_todo_result(s, id) is Err <==> update_todo_result(s, id, payload) is Err,
        find_todo_result(s, id) is Err <==> delete_todo_result(s, id) is Err,
        (forall|i: int| 0 <= i < s.len() ==> s[i].id != id) ==> {
            &&& find_todo_result(s, id) == Err::<Todo, RepositoryError>(RepositoryError::NotFound(id))
            &&& update_todo_result(s, id, payload) == Err::<Todo, RepositoryError>(
                RepositoryError::NotFound(id),
            )
            &&& delete_todo_result(s, id) == Err::<(), RepositoryError>(RepositoryError::NotFound(id))
        },
{
    lemma_todo_position(s, id);
}

/// Round trip: `create` leaves the store it acted on with the new todo
/// appended (see its contract), and `find` of that todo's id on such a store
/// returns the todo unchanged.
pub proof fn lemma_create_then_find(before: Seq<Todo>, created: Todo)
    ensures
        find_todo_result(before.push(created), created.id) == Ok::<Todo, RepositoryError>(created),
{
    assert(before.push(created).last() == created);
}

} // verus!
