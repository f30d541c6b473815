//! Taxonomies: flat lists of names that classify records. Records refer to
//! a name as plain text; removing a name leaves such records as they are.

use vstd::prelude::*;

use crate::table::{fresh_or_kept, has_id, ids_increasing, Row, StoreError, Table};

verus! {

/// A list of non-empty names, each under its own identifier. The same name
/// may be held twice.
pub struct Taxonomy {
    table: Table<String>,
}

impl View for Taxonomy {
    type V = Seq<Row<String>>;

    closed spec fn view(&self) -> Seq<Row<String>> {
        self.table@
    }
}

/// Every name in `rows` has at least one character.
pub open spec fn names_non_empty(rows: Seq<Row<String>>) -> bool {
    forall|i: int| 0 <= i < rows.len() ==> (#[trigger] rows[i]).record@.len() > 0
}

impl Taxonomy {
    /// The identifier the next added name will receive.
    pub closed spec fn next_id(&self) -> int {
        self.table.next_id()
    }

    pub closed spec fn wf(&self) -> bool {
        &&& self.table.wf()
        &&& names_non_empty(self.table@)
    }

    pub fn new() -> (t: Self)
        ensures
            t.wf(),
            t@ == Seq::<Row<String>>::empty(),
            t.next_id() == 1,
    {
        Taxonomy { table: Table::new() }
    }

    /// All names with their identifiers, in ascending identifier order.
    pub fn list(&self) -> (r: &Vec<Row<String>>)
        requires
            self.wf(),
        ensures
            r@ == self@,
            ids_increasing(r@),
            names_non_empty(r@),
            forall|i: int| 0 <= i < r@.len() ==> 1 <= (#[trigger] r@[i]).id < self.next_id(),
    {
        self.table.rows()
    }

    /// Appends `name` under a fresh identifier and returns that identifier.
    pub fn add(&mut self, name: String) -> (r: Result<i64, StoreError>)
        requires
            old(self).wf(),
        ensures
            final(self).wf(),
            name@.len() == 0 ==> r == Err::<i64, StoreError>(StoreError::EmptyName),
            name@.len() > 0 && old(self).next_id() == i64::MAX ==> r == Err::<i64, StoreError>(StoreError::IdsExhausted),
            r.is_err() ==> *final(self) == *old(self),
            r.is_ok() <==> name@.len() > 0 && old(self).next_id() < i64::MAX,
            fresh_or_kept(old(self)@, old(self).next_id(), final(self)@, final(self).next_id()),
            r.is_ok() ==> {
                let id = r.unwrap();
                &&& id == old(self).next_id()
                &&& !has_id(old(self)@, id as int)
                &&& final(self).next_id() == id + 1
                &&& final(self)@ == old(self)@.push(Row { id, record: name })
            },
    {
        if name.as_str().unicode_len() == 0 {
            return Err(StoreError::EmptyName);
        }
        self.table.add(name)
    }

    /// Brings back a name stored earlier under `id`; names come back in
    /// ascending identifier order.
    pub fn restore(&mut self, id: i64, name: String) -> (r: Result<(), StoreError>)
        requires
            old(self).wf(),
        ensures
            final(self).wf(),
            name@.len() == 0 ==> r == Err::<(), StoreError>(StoreError::EmptyName),
            name@.len() > 0 && (id < old(self).next_id() || id == i64::MAX) ==> r == Err::<(), StoreError>(
                StoreError::OutOfOrder { id },
            ),
            r.is_err() ==> *final(self) == *old(self),
            r.is_ok() <==> name@.len() > 0 && old(self).next_id() <= id < i64::MAX,
            r.is_ok() ==> final(self)@ == old(self)@.push(Row { id, record: name }) && final(self).next_id() == id + 1,
            fresh_or_kept(old(self)@, old(self).next_id(), final(self)@, final(self).next_id()),
    {
        if name.as_str().unicode_len() == 0 {
            return Err(StoreError::EmptyName);
        }
        self.table.restore(id, name)
    }

    /// Makes sure that no identifier below `next` is handed out from now on.
    pub fn retire_ids_below(&mut self, next: i64)
        requires
            old(self).wf(),
        ensures
            final(self).wf(),
            final(self)@ == old(self)@,
            final(self).next_id() == if next > old(self).next_id() { next as int } else { old(self).next_id() },
            fresh_or_kept(old(self)@, old(self).next_id(), final(self)@, final(self).next_id()),
    {
        self.table.retire_ids_below(next);
    }

    /// Removes the name carrying `id`; without such a name nothing changes.
    pub fn delete(&mut self, id: i64)
        requires
            old(self).wf(),
        ensures
            final(self).wf(),
            final(self).next_id() == old(self).next_id(),
            !has_id(final(self)@, id as int),
            has_id(old(self)@, id as int) ==> id < final(self).next_id(),
            fresh_or_kept(old(self)@, old(self).next_id(), final(self)@, final(self).next_id()),
            !has_id(old(self)@, id as int) ==> *final(self) == *old(self),
            has_id(old(self)@, id as int) ==> exists|k: int|
                0 <= k < old(self)@.len() && old(self)@[k].id == id && final(self)@ == old(self)@.remove(k),
    {
        self.table.delete(id);
        proof {
            assert forall|i: int| 0 <= i < self.table@.len() implies (#[trigger] self.table@[i]).record@.len() > 0 by {
                if has_id(old(self)@, id as int) {
                    let k = choose|k: int|
                        0 <= k < old(self)@.len() && old(self)@[k].id == id && self.table@ == old(self)@.remove(k);
                    if i < k {
                        assert(self.table@[i] == old(self).table@[i]);
                    } else {
                        assert(self.table@[i] == old(self).table@[i + 1]);
                    }
                }
            }
        }
    }
}

} // verus!
