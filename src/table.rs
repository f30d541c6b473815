//! A table of records, each under an identifier that the table assigns.

use vstd::prelude::*;

verus! {

/// One stored record under its identifier.
pub struct Row<R> {
    pub id: i64,
    pub record: R,
}

/// Why an operation on the store was refused.
#[derive(Clone, Copy, Debug, PartialEq, Eq, Structural)]
pub enum StoreError {
    /// Every identifier a table can hand out has been used.
    IdsExhausted,
    /// A restored row does not come after the rows already held.
    OutOfOrder { id: i64 },
    /// An invoice's due date is not a calendar date in `YYYY-MM-DD` form.
    InvalidDueDate { id: i64 },
    /// An invoice was added without a status.
    MissingStatus,
    /// An invoice was added as paid without a payment date.
    PaidWithoutDate,
    /// A taxonomy name was empty.
    EmptyName,
}

/// The identifiers in `rows` rise strictly from first to last.
pub open spec fn ids_increasing<R>(rows: Seq<Row<R>>) -> bool {
    forall|i: int, j: int| 0 <= i < j < rows.len() ==> rows[i].id < rows[j].id
}

/// Whether some row of `rows` carries `id`.
pub open spec fn has_id<R>(rows: Seq<Row<R>>, id: int) -> bool {
    exists|k: int| 0 <= k < rows.len() && rows[k].id == id
}

/// Every row of `after` either carries an identifier that `before` held, or
/// one at or above `before_next`, which `after_next` does not fall below: the
/// step from `before` to `after` handed out no identifier a second time.
pub open spec fn fresh_or_kept<R>(
    before: Seq<Row<R>>,
    before_next: int,
    after: Seq<Row<R>>,
    after_next: int,
) -> bool {
    &&& before_next <= after_next
    &&& forall|i: int| 0 <= i < after.len() ==> has_id(before, (#[trigger] after[i]).id as int) || after[i].id >= before_next
}

/// Steps that hand out no identifier twice chain into a longer such history.
pub proof fn lemma_fresh_or_kept_chain<R>(
    a: Seq<Row<R>>,
    a_next: int,
    b: Seq<Row<R>>,
    b_next: int,
    c: Seq<Row<R>>,
    c_next: int,
)
    requires
        fresh_or_kept(a, a_next, b, b_next),
        fresh_or_kept(b, b_next, c, c_next),
    ensures
        fresh_or_kept(a, a_next, c, c_next),
{
    assert forall|i: int| 0 <= i < c.len() implies has_id(a, (#[trigger] c[i]).id as int) || c[i].id >= a_next by {
        if has_id(b, c[i].id as int) {
            let k = choose|k: int| 0 <= k < b.len() && b[k].id == c[i].id;
            assert(has_id(a, b[k].id as int) || b[k].id >= a_next);
        }
    }
}

/// An identifier absent from a table and below the one it hands out next
/// never shows up again, however many steps follow that hand out no
/// identifier twice. After `delete` removes an identifier, this holds of it.
pub proof fn lemma_deleted_id_never_returns<R>(
    rows: Seq<Row<R>>,
    next: int,
    later: Seq<Row<R>>,
    later_next: int,
    id: int,
)
    requires
        !has_id(rows, id),
        id < next,
        fresh_or_kept(rows, next, later, later_next),
    ensures
        !has_id(later, id),
{
    if has_id(later, id) {
        let k = choose|k: int| 0 <= k < later.len() && later[k].id == id;
        assert(has_id(rows, later[k].id as int) || later[k].id >= next);
    }
}

/// Rows in ascending identifier order; identifiers are handed out from
/// `next_id` upwards and never handed out twice.
pub struct Table<R> {
    rows: Vec<Row<R>>,
    next_id: i64,
}

impl<R> View for Table<R> {
    type V = Seq<Row<R>>;

    closed spec fn view(&self) -> Seq<Row<R>> {
        self.rows@
    }
}

impl<R> Table<R> {
    /// The identifier the next added row will receive.
    pub closed spec fn next_id(&self) -> int {
        self.next_id as int
    }

    pub open spec fn wf(&self) -> bool {
        &&& 1 <= self.next_id()
        &&& ids_increasing(self@)
        &&& forall|i: int| 0 <= i < self@.len() ==> 1 <= #[trigger] self@[i].id < self.next_id()
    }

    /// An empty table whose first row will receive identifier 1.
    pub fn new() -> (t: Self)
        ensures
            t.wf(),
            t@ == Seq::<Row<R>>::empty(),
            t.next_id() == 1,
    {
        Table { rows: Vec::new(), next_id: 1 }
    }

    /// All rows, in ascending identifier order.
    pub fn rows(&self) -> (r: &Vec<Row<R>>)
        ensures
            r@ == self@,
    {
        &self.rows
    }

    pub fn len(&self) -> (n: usize)
        ensures
            n == self@.len(),
    {
        self.rows.len()
    }

    /// Appends `record` under a fresh identifier and returns that identifier.
    pub fn add(&mut self, record: R) -> (r: Result<i64, StoreError>)
        requires
            old(self).wf(),
        ensures
            final(self).wf(),
            r.is_err() <==> old(self).next_id() == i64::MAX,
            r.is_err() ==> r == Err::<i64, StoreError>(StoreError::IdsExhausted) && *final(self) == *old(self),
            fresh_or_kept(old(self)@, old(self).next_id(), final(self)@, final(self).next_id()),
            r.is_ok() ==> {
                let id = r.unwrap();
                &&& id == old(self).next_id()
                &&& !has_id(old(self)@, id as int)
                &&& final(self)@ == old(self)@.push(Row { id, record })
                &&& final(self).next_id() == id + 1
            },
    {
        if self.next_id == i64::MAX {
            return Err(StoreError::IdsExhausted);
        }
        let id = self.next_id;
        self.rows.push(Row { id, record });
        self.next_id = id + 1;
        proof {
            self.lemma_kept_prefix(old(self));
        }
        Ok(id)
    }

    /// Brings back a row stored earlier under `id`; rows come back in
    /// ascending identifier order.
    pub fn restore(&mut self, id: i64, record: R) -> (r: Result<(), StoreError>)
        requires
            old(self).wf(),
        ensures
            final(self).wf(),
            r.is_err() <==> (id < old(self).next_id() || id == i64::MAX),
            r.is_err() ==> r == Err::<(), StoreError>(StoreError::OutOfOrder { id }) && *final(self) == *old(self),
            r.is_ok() ==> final(self)@ == old(self)@.push(Row { id, record }) && final(self).next_id() == id + 1,
            fresh_or_kept(old(self)@, old(self).next_id(), final(self)@, final(self).next_id()),
    {
        if id < self.next_id || id == i64::MAX {
            return Err(StoreError::OutOfOrder { id });
        }
        self.rows.push(Row { id, record });
        self.next_id = id + 1;
        proof {
            self.lemma_kept_prefix(old(self));
        }
        Ok(())
    }

    /// The index of the row carrying `id`, if there is one.
    pub fn position(&self, id: i64) -> (r: Option<usize>)
        requires
            self.wf(),
        ensures
            r.is_none() <==> !has_id(self@, id as int),
            r.is_some() ==> r.unwrap() < self@.len() && self@[r.unwrap() as int].id == id,
    {
        let mut i: usize = 0;
        while i < self.rows.len()
            invariant
                i <= self@.len(),
                forall|j: int| 0 <= j < i ==> self@[j].id != id,
            decreases self@.len() - i,
        {
            if self.rows[i].id == id {
                return Some(i);
            }
            i = i + 1;
        }
        None
    }

    /// Removes the row carrying `id`; a table without such a row is left as it is.
    pub fn delete(&mut self, id: i64)
        requires
            old(self).wf(),
        ensures
            final(self).wf(),
            final(self).next_id() == old(self).next_id(),
            !has_id(final(self)@, id as int),
            has_id(old(self)@, id as int) ==> id < final(self).next_id(),
            fresh_or_kept(old(self)@, old(self).next_id(), final(self)@, final(self).next_id()),
            !has_id(old(self)@, id as int) ==> *final(self) == *old(self),
            has_id(old(self)@, id as int) ==> exists|k: int|
                0 <= k < old(self)@.len() && old(self)@[k].id == id && final(self)@ == old(self)@.remove(k),
    {
        match self.position(id) {
            Some(k) => {
                self.rows.remove(k);
                assert(self@ == old(self)@.remove(k as int));
                assert forall|i: int| 0 <= i < self@.len() implies has_id(old(self)@, (#[trigger] self@[i]).id as int) by {
                    if i < k {
                        assert(self@[i] == old(self)@[i]);
                    } else {
                        assert(self@[i] == old(self)@[i + 1]);
                    }
                }
            },
            None => {},
        }
    }

    /// Puts `record` in place of the record at `index`, under the same identifier.
    pub fn set_record(&mut self, index: usize, record: R)
        requires
            old(self).wf(),
            index < old(self)@.len(),
        ensures
            final(self).wf(),
            final(self).next_id() == old(self).next_id(),
            final(self)@ == old(self)@.update(index as int, Row { id: old(self)@[index as int].id, record }),
            fresh_or_kept(old(self)@, old(self).next_id(), final(self)@, final(self).next_id()),
    {
        let id = self.rows[index].id;
        self.rows.set(index, Row { id, record });
        assert forall|i: int| 0 <= i < self@.len() implies has_id(old(self)@, (#[trigger] self@[i]).id as int) by {
            assert(self@[i].id == old(self)@[i].id);
        }
    }

    /// Makes sure that no identifier below `next` is handed out from now on:
    /// identifiers that were handed out and later removed stay retired.
    pub fn retire_ids_below(&mut self, next: i64)
        requires
            old(self).wf(),
        ensures
            final(self).wf(),
            final(self)@ == old(self)@,
            final(self).next_id() == if next > old(self).next_id() { next as int } else { old(self).next_id() },
            fresh_or_kept(old(self)@, old(self).next_id(), final(self)@, final(self).next_id()),
    {
        if next > self.next_id {
            self.next_id = next;
        }
        assert forall|i: int| 0 <= i < self@.len() implies has_id(old(self)@, (#[trigger] self@[i]).id as int) by {
            assert(self@[i] == old(self)@[i]);
        }
    }

    /// The rows of `before` are the first rows of `self`, and the only other
    /// row carries `before`'s next identifier or a later one.
    proof fn lemma_kept_prefix(&self, before: &Self)
        requires
            self@.len() == before@.len() + 1,
            forall|i: int| 0 <= i < before@.len() ==> self@[i] == before@[i],
            self@.last().id >= before.next_id(),
            before.next_id() <= self.next_id(),
        ensures
            fresh_or_kept(before@, before.next_id(), self@, self.next_id()),
    {
        assert forall|i: int| 0 <= i < self@.len() implies has_id(before@, (#[trigger] self@[i]).id as int)
            || self@[i].id >= before.next_id() by {
            if i < before@.len() {
                assert(self@[i] == before@[i]);
            }
        }
    }
}

} // verus!
