//! A table of records of one kind, in the order in which they were made.
//!
//! A table hands out the ids of its rows: each new row gets the next id, so
//! the rows stand in ascending order of id, and an id that has been given
//! out is never given again, whether or not its row is still there.

use crate::model::Entity;
use vstd::prelude::*;

verus! {

/// What a table needs to know of its rows.
pub trait Row: Sized {
    /// The id of the row.
    spec fn key(&self) -> i32;

    /// The id of the row under which this one hangs, if its kind hangs under
    /// anything.
    spec fn parent_key(&self) -> Option<i32>;

    /// The id of the row.
    fn id(&self) -> (id: i32)
        ensures
            id == self.key(),
    ;

    /// The id of the row under which this one hangs.
    fn parent_id(&self) -> (parent: Option<i32>)
        ensures
            parent == self.parent_key(),
    ;

    /// The row as a record of any kind.
    spec fn entity(&self) -> Entity;

    /// A copy of the row, equal to it in every field.
    fn duplicate(&self) -> (copy: Self)
        ensures
            copy == *self,
    ;

    /// A copy of the row, as a record of any kind.
    fn to_entity(&self) -> (entity: Entity)
        ensures
            entity == self.entity(),
    ;
}

/// The rows as records of any kind, in the same order.
pub open spec fn entities<T: Row>(rows: Seq<T>) -> Seq<Entity> {
    Seq::new(rows.len(), |i: int| rows[i].entity())
}

/// Copies of the rows as records of any kind, in the same order.
pub fn to_entities<T: Row>(rows: &Vec<T>) -> (wrapped: Vec<Entity>)
    ensures
        wrapped@ == entities(rows@),
{
    let mut wrapped: Vec<Entity> = Vec::new();
    let mut i: usize = 0;
    while i < rows.len()
        invariant
            i <= rows.len(),
            wrapped@ == entities(rows@.take(i as int)),
        decreases rows.len() - i,
    {
        wrapped.push(rows[i].to_entity());
        proof {
            assert(entities(rows@.take(i + 1)) =~= entities(rows@.take(i as int)).push(
                rows@[i as int].entity(),
            ));
        }
        i += 1;
    }
    proof {
        assert(rows@.take(i as int) =~= rows@);
    }
    wrapped
}

/// What a table holds: its rows in order, and the id that its next row gets.
pub struct TableView<T> {
    pub rows: Seq<T>,
    pub next_id: i32,
}

impl<T: Row> TableView<T> {
    /// The table that has never held a row. Its first row gets the id 1.
    pub open spec fn empty() -> Self {
        TableView { rows: Seq::empty(), next_id: 1 }
    }

    /// The rows stand in strictly ascending order of id, and every id is one
    /// that the table has given out.
    pub open spec fn wf(self) -> bool {
        &&& 1 <= self.next_id
        &&& forall|i: int|
            0 <= i < self.rows.len() ==> 1 <= (#[trigger] self.rows[i]).key() < self.next_id
        &&& forall|i: int, j: int|
            0 <= i < j < self.rows.len() ==> (#[trigger] self.rows[i]).key() < (
            #[trigger] self.rows[j]).key()
    }

    /// A row of the table has the id.
    pub open spec fn contains(self, id: i32) -> bool {
        exists|i: int| 0 <= i < self.rows.len() && (#[trigger] self.rows[i]).key() == id
    }

    /// Where the row with the id stands, if there is one.
    pub open spec fn index_of(self, id: i32) -> int {
        choose|i: int| 0 <= i < self.rows.len() && (#[trigger] self.rows[i]).key() == id
    }

    /// The row with the id, if there is one.
    pub open spec fn find(self, id: i32) -> Option<T> {
        if self.contains(id) {
            Some(self.rows[self.index_of(id)])
        } else {
            None
        }
    }

    /// The rows that hang under the row with the id `parent`, in the order of
    /// the table.
    pub open spec fn children(self, parent: i32) -> Seq<T> {
        self.rows.filter(|row: T| row.parent_key() == Some(parent))
    }

    /// The table has given out its last id.
    pub open spec fn exhausted(self) -> bool {
        self.next_id >= i32::MAX
    }

    /// The table with `row` added at its end.
    pub open spec fn inserted(self, row: T) -> Self {
        TableView { rows: self.rows.push(row), next_id: (self.next_id + 1) as i32 }
    }

    /// The table with `row` in the place of the row that has its id. Without
    /// such a row the table is as it was.
    pub open spec fn replaced(self, row: T) -> Self {
        if self.contains(row.key()) {
            TableView { rows: self.rows.update(self.index_of(row.key()), row), ..self }
        } else {
            self
        }
    }

    /// The table without the row that has the id. Without such a row the
    /// table is as it was.
    pub open spec fn removed(self, id: i32) -> Self {
        if self.contains(id) {
            TableView { rows: self.rows.remove(self.index_of(id)), ..self }
        } else {
            self
        }
    }

    /// Every row that hangs under a parent hangs under an id from 1 up to,
    /// and not including, `bound`.
    pub open spec fn parents_below(self, bound: i32) -> bool {
        forall|i: int|
            0 <= i < self.rows.len() ==> match (#[trigger] self.rows[i]).parent_key() {
                Some(parent) => 1 <= parent < bound,
                None => true,
            }
    }

    /// In a well-formed table a row is found under its id, at its place.
    pub proof fn lemma_find_at(self, i: int)
        requires
            self.wf(),
            0 <= i < self.rows.len(),
        ensures
            self.contains(self.rows[i].key()),
            self.index_of(self.rows[i].key()) == i,
            self.find(self.rows[i].key()) == Some(self.rows[i]),
    {
        let id = self.rows[i].key();
        let j = self.index_of(id);
        assert(0 <= j < self.rows.len() && self.rows[j].key() == id);
        if j < i {
            assert(self.rows[j].key() < self.rows[i].key());
        }
        if i < j {
            assert(self.rows[i].key() < self.rows[j].key());
        }
    }

    /// What is found has the id that was asked for, and is a row of the
    /// table.
    pub proof fn lemma_find_some(self, id: i32)
        requires
            self.contains(id),
        ensures
            0 <= self.index_of(id) < self.rows.len(),
            self.rows[self.index_of(id)].key() == id,
            self.find(id) == Some(self.rows[self.index_of(id)]),
    {
    }

    /// Adding the row with the next id keeps the table well formed.
    pub proof fn lemma_inserted_wf(self, row: T)
        requires
            self.wf(),
            !self.exhausted(),
            row.key() == self.next_id,
        ensures
            self.inserted(row).wf(),
    {
        let after = self.inserted(row);
        assert forall|i: int| 0 <= i < after.rows.len() implies 1 <= (#[trigger] after.rows[i]).key()
            < after.next_id by {
            if i < self.rows.len() {
                assert(after.rows[i] == self.rows[i]);
            }
        }
        assert forall|i: int, j: int| 0 <= i < j < after.rows.len() implies (
        #[trigger] after.rows[i]).key() < (#[trigger] after.rows[j]).key() by {
            assert(after.rows[i] == self.rows[i]);
            if j < self.rows.len() {
                assert(after.rows[j] == self.rows[j]);
            }
        }
    }

    /// After a row was added, it is found under its id, and every other id
    /// finds what it found before.
    pub proof fn lemma_inserted_find(self, row: T, id: i32)
        requires
            self.wf(),
            !self.exhausted(),
            row.key() == self.next_id,
        ensures
            self.inserted(row).find(id) == (if id == row.key() {
                Some(row)
            } else {
                self.find(id)
            }),
            self.inserted(row).contains(id) == (id == row.key() || self.contains(id)),
    {
        let after = self.inserted(row);
        self.lemma_inserted_wf(row);
        let last = self.rows.len() as int;
        assert(after.rows[last] == row);
        if id == row.key() {
            after.lemma_find_at(last);
        } else if self.contains(id) {
            let i = self.index_of(id);
            assert(after.rows[i] == self.rows[i]);
            after.lemma_find_at(i);
            self.lemma_find_at(i);
        } else {
            if after.contains(id) {
                let j = after.index_of(id);
                assert(j < last);
                assert(after.rows[j] == self.rows[j]);
                assert(self.contains(id));
            }
        }
    }

    /// Putting a row in the place of one with the same id keeps the table
    /// well formed.
    pub proof fn lemma_replaced_wf(self, row: T)
        requires
            self.wf(),
        ensures
            self.replaced(row).wf(),
            self.replaced(row).rows.len() == self.rows.len(),
            self.replaced(row).next_id == self.next_id,
    {
        if self.contains(row.key()) {
            let after = self.replaced(row);
            let k = self.index_of(row.key());
            assert(self.rows[k].key() == row.key());
            assert forall|i: int| 0 <= i < after.rows.len() implies after.rows[i].key()
                == self.rows[i].key() by {
                if i != k {
                    assert(after.rows[i] == self.rows[i]);
                }
            }
            assert forall|i: int| 0 <= i < after.rows.len() implies 1 <= (
            #[trigger] after.rows[i]).key() < after.next_id by {
                assert(after.rows[i].key() == self.rows[i].key());
            }
            assert forall|i: int, j: int| 0 <= i < j < after.rows.len() implies (
            #[trigger] after.rows[i]).key() < (#[trigger] after.rows[j]).key() by {
                assert(after.rows[i].key() == self.rows[i].key());
                assert(after.rows[j].key() == self.rows[j].key());
            }
        }
    }

    /// After a row was replaced, its id finds the new row, and every other
    /// id finds what it found before.
    pub proof fn lemma_replaced_find(self, row: T, id: i32)
        requires
            self.wf(),
        ensures
            self.replaced(row).find(id) == (if id == row.key() && self.contains(id) {
                Some(row)
            } else {
                self.find(id)
            }),
            self.replaced(row).contains(id) == self.contains(id),
    {
        if self.contains(row.key()) {
            let after = self.replaced(row);
            self.lemma_replaced_wf(row);
            let k = self.index_of(row.key());
            assert(after.rows[k] == row);
            if id == row.key() {
                after.lemma_find_at(k);
            } else if self.contains(id) {
                let i = self.index_of(id);
                assert(i != k);
                assert(after.rows[i] == self.rows[i]);
                after.lemma_find_at(i);
                self.lemma_find_at(i);
            } else {
                if after.contains(id) {
                    let j = after.index_of(id);
                    assert(j != k);
                    assert(after.rows[j] == self.rows[j]);
                    assert(self.contains(id));
                }
            }
        }
    }

    /// Taking a row out keeps the table well formed.
    pub proof fn lemma_removed_wf(self, id: i32)
        requires
            self.wf(),
        ensures
            self.removed(id).wf(),
            self.removed(id).next_id == self.next_id,
    {
        if self.contains(id) {
            let after = self.removed(id);
            let k = self.index_of(id);
            assert forall|i: int| 0 <= i < after.rows.len() implies #[trigger] after.rows[i] == (
            if i < k {
                self.rows[i]
            } else {
                self.rows[i + 1]
            }) by {}
            assert forall|i: int| 0 <= i < after.rows.len() implies 1 <= (
            #[trigger] after.rows[i]).key() < after.next_id by {
                if i < k {
                    assert(after.rows[i] == self.rows[i]);
                } else {
                    assert(after.rows[i] == self.rows[i + 1]);
                }
            }
            assert forall|i: int, j: int| 0 <= i < j < after.rows.len() implies (
            #[trigger] after.rows[i]).key() < (#[trigger] after.rows[j]).key() by {
                let a = if i < k {
                    i
                } else {
                    i + 1
                };
                let b = if j < k {
                    j
                } else {
                    j + 1
                };
                assert(after.rows[i] == self.rows[a]);
                assert(after.rows[j] == self.rows[b]);
                assert(self.rows[a].key() < self.rows[b].key());
            }
        }
    }

    /// After a row was taken out, its id finds nothing, and every other id
    /// finds what it found before.
    pub proof fn lemma_removed_find(self, id: i32, other: i32)
        requires
            self.wf(),
        ensures
            self.removed(id).find(other) == (if other == id {
                None
            } else {
                self.find(other)
            }),
            self.removed(id).contains(other) == (other != id && self.contains(other)),
    {
        let after = self.removed(id);
        self.lemma_removed_wf(id);
        if self.contains(id) {
            let k = self.index_of(id);
            if after.contains(other) {
                let j = after.index_of(other);
                let b = if j < k {
                    j
                } else {
                    j + 1
                };
                assert(after.rows[j] == self.rows[b]);
                self.lemma_find_at(b);
                self.lemma_find_at(k);
                after.lemma_find_at(j);
                assert(other != id);
            } else if self.contains(other) && other != id {
                let i = self.index_of(other);
                assert(i != k);
                let a = if i < k {
                    i
                } else {
                    i - 1
                };
                assert(after.rows[a] == self.rows[i]);
                assert(after.contains(other));
            }
        }
    }

    /// What holds of the parents of all rows for a range of ids holds for
    /// every wider range.
    pub proof fn lemma_parents_below_wider(self, bound: i32, wider: i32)
        requires
            self.parents_below(bound),
            bound <= wider,
        ensures
            self.parents_below(wider),
    {
    }

    /// What holds of the parents of all rows holds on when a row whose
    /// parent is in the range is added.
    pub proof fn lemma_parents_below_inserted(self, row: T, bound: i32)
        requires
            self.parents_below(bound),
            match row.parent_key() {
                Some(parent) => 1 <= parent < bound,
                None => true,
            },
        ensures
            self.inserted(row).parents_below(bound),
    {
        assert forall|i: int| 0 <= i < self.inserted(row).rows.len() implies match (
        #[trigger] self.inserted(row).rows[i]).parent_key() {
            Some(parent) => 1 <= parent < bound,
            None => true,
        } by {
            if i < self.rows.len() {
                assert(self.inserted(row).rows[i] == self.rows[i]);
            }
        }
    }

    /// What holds of the parents of all rows holds on when a row whose
    /// parent is in the range takes the place of another.
    pub proof fn lemma_parents_below_replaced(self, row: T, bound: i32)
        requires
            self.parents_below(bound),
            match row.parent_key() {
                Some(parent) => 1 <= parent < bound,
                None => true,
            },
        ensures
            self.replaced(row).parents_below(bound),
    {
        assert forall|i: int| 0 <= i < self.replaced(row).rows.len() implies match (
        #[trigger] self.replaced(row).rows[i]).parent_key() {
            Some(parent) => 1 <= parent < bound,
            None => true,
        } by {
            if self.contains(row.key()) && i != self.index_of(row.key()) {
                assert(self.replaced(row).rows[i] == self.rows[i]);
            }
        }
    }

    /// What holds of the parents of all rows holds on when a row is taken
    /// out.
    pub proof fn lemma_parents_below_removed(self, id: i32, bound: i32)
        requires
            self.parents_below(bound),
        ensures
            self.removed(id).parents_below(bound),
    {
        assert forall|i: int| 0 <= i < self.removed(id).rows.len() implies match (
        #[trigger] self.removed(id).rows[i]).parent_key() {
            Some(parent) => 1 <= parent < bound,
            None => true,
        } by {
            if self.contains(id) {
                let k = self.index_of(id);
                if i < k {
                    assert(self.removed(id).rows[i] == self.rows[i]);
                } else {
                    assert(self.removed(id).rows[i] == self.rows[i + 1]);
                }
            }
        }
    }

    /// A row that hangs under another parent does not count among the
    /// children.
    pub proof fn lemma_children_of_one(row: T, parent: i32)
        ensures
            (TableView { rows: seq![row], next_id: 1 }).children(parent) == (if row.parent_key()
                == Some(parent) {
                seq![row]
            } else {
                Seq::<T>::empty()
            }),
    {
        let pred = |r: T| r.parent_key() == Some(parent);
        let one = seq![row];
        reveal_with_fuel(Seq::filter, 2);
        assert(one.drop_last() =~= Seq::<T>::empty());
        assert(one.last() == row);
        assert(one.filter(pred) =~= (if pred(row) {
            seq![row]
        } else {
            Seq::<T>::empty()
        }));
    }

    /// The children of a parent are settled by the rows alone.
    pub proof fn lemma_children_of_parts(self, k: int, parent: i32)
        requires
            0 <= k < self.rows.len(),
        ensures
            self.children(parent) == (TableView { rows: self.rows.take(k), next_id: 1 }).children(
                parent,
            ) + (TableView { rows: seq![self.rows[k]], next_id: 1 }).children(parent) + (TableView {
                rows: self.rows.skip(k + 1),
                next_id: 1,
            }).children(parent),
    {
        let pred = |r: T| r.parent_key() == Some(parent);
        let head = self.rows.take(k);
        let mid = seq![self.rows[k]];
        let tail = self.rows.skip(k + 1);
        assert(self.rows =~= head + mid + tail);
        Seq::filter_distributes_over_add(head + mid, tail, pred);
        Seq::filter_distributes_over_add(head, mid, pred);
    }

    /// A new row joins the children of its own parent, at their end, and of
    /// no other.
    pub proof fn lemma_inserted_children(self, row: T, parent: i32)
        ensures
            self.inserted(row).children(parent) == (if row.parent_key() == Some(parent) {
                self.children(parent).push(row)
            } else {
                self.children(parent)
            }),
    {
        let pred = |r: T| r.parent_key() == Some(parent);
        let after = self.rows.push(row);
        reveal(Seq::filter);
        assert(after.drop_last() =~= self.rows);
        assert(after.last() == row);
    }

    /// Replacing a row leaves the children of every parent as they were,
    /// but for the parents of the old row and of the new one.
    pub proof fn lemma_replaced_children(self, row: T, parent: i32)
        requires
            self.contains(row.key()),
            self.find(row.key()).unwrap().parent_key() != Some(parent),
            row.parent_key() != Some(parent),
        ensures
            self.replaced(row).children(parent) == self.children(parent),
    {
        let k = self.index_of(row.key());
        let after = self.replaced(row);
        self.lemma_children_of_parts(k, parent);
        after.lemma_children_of_parts(k, parent);
        assert(after.rows.take(k) =~= self.rows.take(k));
        assert(after.rows.skip(k + 1) =~= self.rows.skip(k + 1));
        Self::lemma_children_of_one(row, parent);
        Self::lemma_children_of_one(self.rows[k], parent);
    }

    /// Taking a row out leaves the children of every parent as they were,
    /// but for the parent of that row.
    pub proof fn lemma_removed_children(self, id: i32, parent: i32)
        requires
            self.contains(id) ==> self.find(id).unwrap().parent_key() != Some(parent),
        ensures
            self.removed(id).children(parent) == self.children(parent),
    {
        if self.contains(id) {
            let pred = |r: T| r.parent_key() == Some(parent);
            let k = self.index_of(id);
            let after = self.removed(id);
            self.lemma_children_of_parts(k, parent);
            Self::lemma_children_of_one(self.rows[k], parent);
            let head = self.rows.take(k);
            let tail = self.rows.skip(k + 1);
            assert(after.rows =~= head + tail);
            Seq::filter_distributes_over_add(head, tail, pred);
            assert(self.children(parent) =~= head.filter(pred) + tail.filter(pred));
        }
    }

    /// Every child of a parent is a row of the table that hangs under that
    /// parent; the children stand in ascending order of id.
    pub proof fn lemma_children_are_rows(self, parent: i32)
        requires
            self.wf(),
        ensures
            forall|i: int|
                0 <= i < self.children(parent).len() ==> {
                    &&& (#[trigger] self.children(parent)[i]).parent_key() == Some(parent)
                    &&& self.find(self.children(parent)[i].key()) == Some(self.children(parent)[i])
                },
            forall|i: int, j: int|
                0 <= i < j < self.children(parent).len() ==> (#[trigger] self.children(
                    parent,
                )[i]).key() < (#[trigger] self.children(parent)[j]).key(),
        decreases self.rows.len(),
    {
        let pred = |r: T| r.parent_key() == Some(parent);
        reveal(Seq::filter);
        if self.rows.len() > 0 {
            let shorter = TableView { rows: self.rows.drop_last(), next_id: self.next_id };
            assert forall|i: int| 0 <= i < shorter.rows.len() implies #[trigger] shorter.rows[i]
                == self.rows[i] by {}
            assert(shorter.wf()) by {
                assert forall|i: int| 0 <= i < shorter.rows.len() implies 1 <= (
                #[trigger] shorter.rows[i]).key() < shorter.next_id by {
                    assert(shorter.rows[i] == self.rows[i]);
                }
                assert forall|i: int, j: int| 0 <= i < j < shorter.rows.len() implies (
                #[trigger] shorter.rows[i]).key() < (#[trigger] shorter.rows[j]).key() by {
                    assert(shorter.rows[i] == self.rows[i]);
                    assert(shorter.rows[j] == self.rows[j]);
                }
            }
            shorter.lemma_children_are_rows(parent);
            let last = self.rows.last();
            let n = self.rows.len() - 1;
            let kids = self.children(parent);
            let before = shorter.children(parent);
            assert(kids == (if pred(last) {
                before.push(last)
            } else {
                before
            }));
            assert forall|i: int| 0 <= i < kids.len() implies {
                &&& (#[trigger] kids[i]).parent_key() == Some(parent)
                &&& self.find(kids[i].key()) == Some(kids[i])
            } by {
                if i < before.len() {
                    assert(kids[i] == before[i]);
                    assert(shorter.find(before[i].key()) == Some(before[i]));
                    let at = shorter.index_of(before[i].key());
                    assert(shorter.rows[at] == self.rows[at]);
                    self.lemma_find_at(at);
                } else {
                    assert(kids[i] == last);
                    self.lemma_find_at(n);
                }
            }
            assert forall|i: int, j: int| 0 <= i < j < kids.len() implies (#[trigger] kids[i]).key()
                < (#[trigger] kids[j]).key() by {
                assert(kids[i] == before[i]);
                if j < before.len() {
                    assert(kids[j] == before[j]);
                } else {
                    assert(kids[j] == last);
                    assert(shorter.find(before[i].key()) == Some(before[i]));
                    let at = shorter.index_of(before[i].key());
                    assert(shorter.rows[at] == self.rows[at]);
                    assert(self.rows[at].key() < self.rows[n].key());
                }
            }
        }
    }

    /// A parent under which no row hangs has no children.
    pub proof fn lemma_no_children(self, parent: i32)
        requires
            forall|i: int|
                0 <= i < self.rows.len() ==> (#[trigger] self.rows[i]).parent_key() != Some(parent),
        ensures
            self.children(parent) == Seq::<T>::empty(),
    {
        let pred = |r: T| r.parent_key() == Some(parent);
        let kids = self.rows.filter(pred);
        if kids.len() > 0 {
            self.rows.lemma_filter_pred(pred, 0);
            self.rows.lemma_filter_contains_rev(pred, kids[0]);
        }
        assert(kids =~= Seq::<T>::empty());
    }
}

/// A table of records of one kind.
pub struct Table<T: Row> {
    rows: Vec<T>,
    next_id: i32,
}

impl<T: Row> View for Table<T> {
    type V = TableView<T>;

    closed spec fn view(&self) -> TableView<T> {
        TableView { rows: self.rows@, next_id: self.next_id }
    }
}

impl<T: Row> Table<T> {
    /// The rows stand in ascending order of id, under ids that the table
    /// gave out.
    pub open spec fn wf(&self) -> bool {
        self@.wf()
    }

    /// A table that has never held a row.
    pub fn new() -> (table: Self)
        ensures
            table@ == TableView::<T>::empty(),
            table.wf(),
    {
        Table { rows: Vec::new(), next_id: 1 }
    }

    /// Where the row with the id stands.
    fn position(&self, id: i32) -> (found: Option<usize>)
        requires
            self.wf(),
        ensures
            match found {
                Some(i) => i < self@.rows.len() && self@.rows[i as int].key() == id
                    && self@.index_of(id) == i && self@.contains(id),
                None => !self@.contains(id),
            },
    {
        let mut i: usize = 0;
        while i < self.rows.len()
            invariant
                self.wf(),
                i <= self.rows.len(),
                forall|k: int| 0 <= k < i ==> (#[trigger] self.rows@[k]).key() != id,
            decreases self.rows.len() - i,
        {
            if self.rows[i].id() == id {
                proof {
                    self@.lemma_find_at(i as int);
                }
                return Some(i);
            }
            i += 1;
        }
        None
    }

    /// Whether a row of the table has the id.
    pub fn contains(&self, id: i32) -> (found: bool)
        requires
            self.wf(),
        ensures
            found == self@.contains(id),
    {
        self.position(id).is_some()
    }

    /// A copy of the row with the id.
    pub fn get(&self, id: i32) -> (found: Option<T>)
        requires
            self.wf(),
        ensures
            found == self@.find(id),
    {
        match self.position(id) {
            Some(i) => Some(self.rows[i].duplicate()),
            None => None,
        }
    }

    /// The id of the row under which the row with the id hangs: what the
    /// row itself says of its parent.
    pub fn parent_of(&self, id: i32) -> (parent: Option<i32>)
        requires
            self.wf(),
        ensures
            parent == (match self@.find(id) {
                Some(row) => row.parent_key(),
                None => None,
            }),
    {
        match self.position(id) {
            Some(i) => self.rows[i].parent_id(),
            None => None,
        }
    }

    /// Copies of all rows, in the order of the table.
    pub fn all(&self) -> (rows: Vec<T>)
        ensures
            rows@ == self@.rows,
    {
        let mut rows: Vec<T> = Vec::new();
        let mut i: usize = 0;
        while i < self.rows.len()
            invariant
                i <= self.rows.len(),
                rows@ == self.rows@.take(i as int),
            decreases self.rows.len() - i,
        {
            rows.push(self.rows[i].duplicate());
            proof {
                assert(self.rows@.take(i + 1) =~= self.rows@.take(i as int).push(self.rows@[i as int]));
            }
            i += 1;
        }
        proof {
            assert(self.rows@.take(i as int) =~= self.rows@);
        }
        rows
    }

    /// Copies of the rows that hang under `parent`, in the order of the
    /// table.
    pub fn children(&self, parent: i32) -> (rows: Vec<T>)
        ensures
            rows@ == self@.children(parent),
    {
        let ghost pred = |row: T| row.parent_key() == Some(parent);
        let mut rows: Vec<T> = Vec::new();
        let mut i: usize = 0;
        while i < self.rows.len()
            invariant
                i <= self.rows.len(),
                pred == |row: T| row.parent_key() == Some(parent),
                rows@ == self.rows@.take(i as int).filter(pred),
            decreases self.rows.len() - i,
        {
            proof {
                let longer = self.rows@.take(i + 1);
                reveal(Seq::filter);
                assert(longer.drop_last() =~= self.rows@.take(i as int));
                assert(longer.last() == self.rows@[i as int]);
            }
            if self.rows[i].parent_id() == Some(parent) {
                rows.push(self.rows[i].duplicate());
            }
            i += 1;
        }
        proof {
            assert(self.rows@.take(i as int) =~= self.rows@);
        }
        rows
    }

    /// The id that the next row gets, while the table has one to give.
    pub fn next_id(&self) -> (id: Option<i32>)
        requires
            self.wf(),
        ensures
            id == (if self@.exhausted() {
                None
            } else {
                Some(self@.next_id)
            }),
    {
        if self.next_id >= i32::MAX {
            None
        } else {
            Some(self.next_id)
        }
    }

    /// Adds a row under the next id.
    pub fn insert(&mut self, row: T)
        requires
            old(self).wf(),
            !old(self)@.exhausted(),
            row.key() == old(self)@.next_id,
        ensures
            final(self)@ == old(self)@.inserted(row),
            final(self).wf(),
    {
        proof {
            self@.lemma_inserted_wf(row);
        }
        self.rows.push(row);
        self.next_id = self.next_id + 1;
    }

    /// Puts `row` in the place of the row that has its id, if there is one.
    pub fn replace(&mut self, row: T)
        requires
            old(self).wf(),
        ensures
            final(self)@ == old(self)@.replaced(row),
            final(self).wf(),
    {
        proof {
            self@.lemma_replaced_wf(row);
        }
        match self.position(row.id()) {
            Some(i) => {
                self.rows.set(i, row);
            },
            None => {},
        }
    }

    /// Takes out the row that has the id, if there is one.
    pub fn remove(&mut self, id: i32)
        requires
            old(self).wf(),
        ensures
            final(self)@ == old(self)@.removed(id),
            final(self).wf(),
    {
        proof {
            self@.lemma_removed_wf(id);
        }
        match self.position(id) {
            Some(i) => {
                self.rows.remove(i);
            },
            None => {},
        }
    }
}

} // verus!
