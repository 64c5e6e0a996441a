use vstd::prelude::*;

use crate::models::Label;
use crate::repositories::{LabelRepository, RepositoryError};

verus! {

/// Index of the label with id `id` in `s`, searching from the end, or -1.
pub open spec fn label_position(s: Seq<Label>, id: i32) -> int
    decreases s.len(),
{
    if s.len() == 0 {
        -1
    } else if s.last().id == id {
        s.len() - 1
    } else {
        label_position(s.drop_last(), id)
    }
}

/// Index of the label named `name` in `s`, searching from the end, or -1.
pub open spec fn label_name_position(s: Seq<Label>, name: Seq<char>) -> int
    decreases s.len(),
{
    if s.len() == 0 {
        -1
    } else if s.last().name@ == name {
        s.len() - 1
    } else {
        label_name_position(s.drop_last(), name)
    }
}

/// Ids strictly ascending and within `1..=issued`, names pairwise distinct.
pub open spec fn labels_well_formed(s: Seq<Label>, issued: i32) -> bool {
    &&& forall|i: int, j: int| 0 <= i < j < s.len() ==> s[i].id < s[j].id
    &&& forall|i: int| 0 <= i < s.len() ==> 1 <= #[trigger] s[i].id <= issued
    &&& forall|i: int, j: int| 0 <= i < j < s.len() ==> s[i].name@ != s[j].name@
}

/// What `delete` returns on a store holding `s`.
pub open spec fn delete_label_result(s: Seq<Label>, id: i32) -> Result<(), RepositoryError> {
    if label_position(s, id) >= 0 {
        Ok(())
    } else {
        Err(RepositoryError::NotFound(id))
    }
}

/// The labels after `delete` on a store holding `s`.
pub open spec fn delete_label_store(s: Seq<Label>, id: i32) -> Seq<Label> {
    let p = label_position(s, id);
    if p >= 0 {
        s.remove(p)
    } else {
        s
    }
}

pub proof fn lemma_label_position(s: Seq<Label>, id: i32)
    ensures
        -1 <= label_position(s, id) < s.len(),
        label_position(s, id) >= 0 ==> s[label_position(s, id)].id == id,
        label_position(s, id) == -1 <==> forall|i: int| 0 <= i < s.len() ==> s[i].id != id,
    decreases s.len(),
{
    if s.len() > 0 {
        lemma_label_position(s.drop_last(), id);
        if s.last().id != id && label_position(s, id) == -1 {
            assert forall|i: int| 0 <= i < s.len() implies s[i].id != id by {
                if i < s.len() - 1 {
                    assert(s[i] == s.drop_last()[i]);
                }
            }
        }
    }
}

pub proof fn lemma_label_name_position(s: Seq<Label>, name: Seq<char>)
    ensures
        -1 <= label_name_position(s, name) < s.len(),
        label_name_position(s, name) >= 0 ==> s[label_name_position(s, name)].name@ == name,
        label_name_position(s, name) == -1 <==> forall|i: int|
            0 <= i < s.len() ==> s[i].name@ != name,
    decreases s.len(),
{
    if s.len() > 0 {
        lemma_label_name_position(s.drop_last(), name);
        if s.last().name@ != name && label_name_position(s, name) == -1 {
            assert forall|i: int| 0 <= i < s.len() implies s[i].name@ != name by {
                if i < s.len() - 1 {
                    assert(s[i] == s.drop_last()[i]);
                }
            }
        }
    }
}

/// Labels held in process memory, in ascending id order. Ids come from a
/// counter of the ids issued so far; creating a label under a name that is
/// already stored returns the stored label.
pub struct LabelRepositoryForMemory {
    records: Vec<Label>,
    issued: i32,
}

impl View for LabelRepositoryForMemory {
    type V = Seq<Label>;

    closed spec fn view(&self) -> Seq<Label> {
        self.records@
    }
}

impl LabelRepositoryForMemory {
    /// The number of ids issued so far; the next label gets this plus one.
    pub closed spec fn issued(&self) -> i32 {
        self.issued
    }

    pub closed spec fn well_formed(&self) -> bool {
        &&& self.issued >= 0
        &&& labels_well_formed(self.records@, self.issued)
    }

    /// An empty store.
    pub fn new() -> (r: Self)
        ensures
            r.well_formed(),
            r@ == Seq::<Label>::empty(),
            r.issued() == 0,
    {
        LabelRepositoryForMemory { records: Vec::new(), issued: 0 }
    }

    fn position_of_name(&self, name: &String) -> (r: usize)
        ensures
            r < self@.len() ==> label_name_position(self@, name@) == r,
            r >= self@.len() ==> label_name_position(self@, name@) == -1,
    {
        let mut i: usize = self.records.len();
        assert(self.records@.subrange(0, i as int) == self.records@);
        while i > 0
            invariant
                i <= self.records@.len(),
                label_name_position(self.records@, name@) == label_name_position(
                    self.records@.subrange(0, i as int),
                    name@,
                ),
            decreases i,
        {
            let ghost pre = self.records@.subrange(0, i as int);
            if self.records[i - 1].name == *name {
                return i - 1;
            }
            assert(pre.drop_last() == self.records@.subrange(0, i - 1));
            i = i - 1;
        }
        self.records.len()
    }

    fn position(&self, id: i32) -> (r: usize)
        ensures
            r < self@.len() ==> label_position(self@, id) == r,
            r >= self@.len() ==> label_position(self@, id) == -1,
    {
        let mut i: usize = self.records.len();
        assert(self.records@.subrange(0, i as int) == self.records@);
        while i > 0
            invariant
                i <= self.records@.len(),
                label_position(self.records@, id) == label_position(
                    self.records@.subrange(0, i as int),
                    id,
                ),
            decreases i,
        {
            let ghost pre = self.records@.subrange(0, i as int);
            if self.records[i - 1].id == id {
                return i - 1;
            }
            assert(pre.drop_last() == self.records@.subrange(0, i - 1));
            i = i - 1;
        }
        self.records.len()
    }

    /// Returns the stored label named `name` if there is one; otherwise
    /// stores a new label under the next id and returns it. Fails with
    /// `Unexpected` only when a new id is needed and none is left.
    pub fn create(&mut self, name: String) -> (r: Result<Label, RepositoryError>)
        requires
            old(self).well_formed(),
        ensures
            final(self).well_formed(),
            label_name_position(old(self)@, name@) >= 0 ==> {
                &&& r == Ok::<Label, RepositoryError>(
                    old(self)@[label_name_position(old(self)@, name@)],
                )
                &&& *final(self) == *old(self)
            },
            label_name_position(old(self)@, name@) == -1 && old(self).issued() < i32::MAX ==> {
                let t = Label { id: (old(self).issued() + 1) as i32, name };
                &&& r == Ok::<Label, RepositoryError>(t)
                &&& final(self)@ == old(self)@.push(t)
                &&& final(self).issued() == old(self).issued() + 1
            },
            label_name_position(old(self)@, name@) == -1 && old(self).issued() == i32::MAX ==> {
                &&& r is Err
                &&& r->Err_0 is Unexpected
                &&& *final(self) == *old(self)
            },
    {
        proof { lemma_label_name_position(self@, name@); }
        let p = self.position_of_name(&name);
        if p < self.records.len() {
            return Ok(self.records[p].clone());
        }
        if self.issued == i32::MAX {
            return Err(RepositoryError::Unexpected(String::from_str("no label id is left")));
        }
        let id: i32 = self.issued + 1;
        let label = Label { id, name };
        let ghost old_records = self.records@;
        self.records.push(label.clone());
        self.issued = id;
        assert(labels_well_formed(self.records@, self.issued)) by {
            assert forall|i: int| 0 <= i < self.records@.len() implies self.records@[i] == (if i
                < old_records.len() {
                old_records[i]
            } else {
                label
            }) by {}
        }
        Ok(label)
    }

    /// Every label, in ascending id order.
    pub fn all(&self) -> (r: Vec<Label>)
        ensures
            r@ == self@,
    {
        let mut out: Vec<Label> = Vec::new();
        let mut i: usize = 0;
        while i < self.records.len()
            invariant
                i <= self.records@.len(),
                out@ == self.records@.subrange(0, i as int),
            decreases self.records@.len() - i,
        {
            out.push(self.records[i].clone());
            i = i + 1;
        }
        assert(self.records@.subrange(0, self.records@.len() as int) == self.records@);
        out
    }

    /// Removes the label with id `id`.
    pub fn delete(&mut self, id: i32) -> (r: Result<(), RepositoryError>)
        requires
            old(self).well_formed(),
        ensures
            final(self).well_formed(),
            final(self).issued() == old(self).issued(),
            r == delete_label_result(old(self)@, id),
            final(self)@ == delete_label_store(old(self)@, id),
    {
        proof { lemma_label_position(self@, id); }
        let p = self.position(id);
        if p < self.records.len() {
            let ghost old_records = self.records@;
            self.records.remove(p);
            assert forall|i: int| 0 <= i < self.records@.len() implies self.records@[i] == (if i
                < p {
                old_records[i]
            } else {
                old_records[i + 1]
            }) by {}
            Ok(())
        } else {
            Err(RepositoryError::NotFound(id))
        }
    }
}


impl LabelRepository for LabelRepositoryForMemory {
    open spec fn repository_inv(&self) -> bool {
        self.well_formed()
    }

    open spec fn labels(&self) -> Seq<Label> {
        self@
    }

    open spec fn next_id(&self) -> i32 {
        (self.issued() + 1) as i32
    }

    open spec fn can_create(&self) -> bool {
        self.issued() < i32::MAX
    }

    fn create(&mut self, name: String) -> (r: Result<Label, RepositoryError>) {
        proof { lemma_label_name_position(self@, name@); }
        LabelRepositoryForMemory::create(self, name)
    }

    fn all(&self) -> (r: Result<Vec<Label>, RepositoryError>) {
        Ok(LabelRepositoryForMemory::all(self))
    }

    fn delete(&mut self, id: i32) -> (r: Result<(), RepositoryError>) {
        LabelRepositoryForMemory::delete(self, id)
    }
}

} // verus!
