//! The invoice lifecycle: invoices become overdue when they are listed after
//! their due date while still open, and become paid when payment is recorded.

use vstd::prelude::*;

use crate::clock::today;
use crate::date::{iso_date_text, iso_text, parse_iso_date, parsed_iso_date, precedes, CivilDate};
use crate::records::{copy_opt_text, Invoice};
use crate::table::{fresh_or_kept, has_id, Row, StoreError, Table};

verus! {

pub open spec fn open_status() -> Seq<char> {
    "Open"@
}

pub open spec fn overdue_status() -> Seq<char> {
    "Overdue"@
}

pub open spec fn paid_status() -> Seq<char> {
    "Paid"@
}

/// An invoice with this status, due on `due`, is overdue on `today`.
pub open spec fn is_overdue(status: Seq<char>, due: (int, int, int), today: (int, int, int)) -> bool {
    status == open_status() && precedes(due, today)
}

/// The due date of an invoice, as read from its text.
pub open spec fn due_of(inv: Invoice) -> Option<(int, int, int)> {
    parsed_iso_date(inv.due_date@)
}

/// Every invoice of `rows` has a due date that reads as a calendar date.
pub open spec fn due_dates_readable(rows: Seq<Row<Invoice>>) -> bool {
    forall|i: int| 0 <= i < rows.len() ==> (#[trigger] due_of(rows[i].record)).is_some()
}

/// No invoice of `rows` is still open with a due date before `today`.
pub open spec fn none_open_past_due(rows: Seq<Row<Invoice>>, today: (int, int, int)) -> bool {
    forall|i: int| 0 <= i < rows.len() ==> !(#[trigger] due_of(rows[i].record)).is_some()
        || !is_overdue(rows[i].record.status@, due_of(rows[i].record).unwrap(), today)
}

/// `after` is `before` with its status set to `status` and nothing else changed.
pub open spec fn with_status(before: Invoice, after: Invoice, status: Seq<char>) -> bool {
    &&& after.creditor == before.creditor
    &&& after.concern == before.concern
    &&& after.category == before.category
    &&& after.amount_cents == before.amount_cents
    &&& after.due_date == before.due_date
    &&& after.path == before.path
    &&& after.description == before.description
    &&& after.status@ == status
    &&& after.payment_date == before.payment_date
}

/// `after` is what the lifecycle makes of `before` on `today`: an open
/// invoice due before `today` turns overdue, any other is kept as it is.
pub open spec fn refreshed(before: Invoice, after: Invoice, today: (int, int, int)) -> bool {
    if is_overdue(before.status@, due_of(before).unwrap(), today) {
        with_status(before, after, overdue_status())
    } else {
        after == before
    }
}

/// `after` holds the rows of `before`, each as the lifecycle makes it on `today`.
pub open spec fn all_refreshed(before: Seq<Row<Invoice>>, after: Seq<Row<Invoice>>, today: (int, int, int)) -> bool {
    &&& after.len() == before.len()
    &&& forall|i: int| 0 <= i < before.len() ==> {
        &&& (#[trigger] after[i]).id == before[i].id
        &&& refreshed(before[i].record, after[i].record, today)
    }
}

/// `ids` holds exactly the identifiers of the invoices of `before` that turn
/// overdue on `today`.
pub open spec fn overdue_ids(before: Seq<Row<Invoice>>, ids: Seq<i64>, today: (int, int, int)) -> bool {
    forall|x: i64| ids.contains(x) <==> exists|i: int|
        0 <= i < before.len() && (#[trigger] before[i]).id == x
        && is_overdue(before[i].record.status@, due_of(before[i].record).unwrap(), today)
}

/// `id` belongs to the first invoice of `rows` whose due date does not read
/// as a date.
pub open spec fn first_unreadable(rows: Seq<Row<Invoice>>, id: i64) -> bool {
    exists|k: int| {
        &&& 0 <= k < rows.len()
        &&& (#[trigger] rows[k]).id == id
        &&& due_of(rows[k].record).is_none()
        &&& forall|j: int| 0 <= j < k ==> (#[trigger] due_of(rows[j].record)).is_some()
    }
}

/// A paid invoice carries its payment date.
pub open spec fn paid_is_dated(inv: Invoice) -> bool {
    inv.status@ == paid_status() ==> inv.payment_date.is_some()
}

/// `after` is `before` paid on the date written `date`.
pub open spec fn paid(before: Invoice, after: Invoice, date: Seq<char>) -> bool {
    &&& after.creditor == before.creditor
    &&& after.concern == before.concern
    &&& after.category == before.category
    &&& after.amount_cents == before.amount_cents
    &&& after.due_date == before.due_date
    &&& after.path == before.path
    &&& after.description == before.description
    &&& after.status@ == paid_status()
    &&& after.payment_date.is_some()
    &&& after.payment_date.unwrap()@ == date
}

/// `after` holds the rows of `before` with the invoice carrying `id` paid on
/// the date written `date`, and every other row as it was.
pub open spec fn paid_in(before: Seq<Row<Invoice>>, after: Seq<Row<Invoice>>, id: int, date: Seq<char>) -> bool {
    &&& after.len() == before.len()
    &&& exists|k: int| {
        &&& 0 <= k < before.len()
        &&& (#[trigger] before[k]).id == id
        &&& after[k].id == id
        &&& paid(before[k].record, after[k].record, date)
        &&& forall|j: int| 0 <= j < before.len() && j != k ==> #[trigger] after[j] == before[j]
    }
}

/// Whether an invoice with this status, due on `due`, turns overdue on `today`.
pub fn becomes_overdue(status: &String, due: &CivilDate, today: &CivilDate) -> (r: bool)
    ensures
        r == is_overdue(status@, due@, today@),
{
    let open = "Open".to_string();
    *status == open && due.is_before(today)
}


impl Table<Invoice> {
    /// Records a new invoice. The status must be given: the store fills in no default.
    pub fn add_invoice(
        &mut self,
        creditor: String,
        concern: String,
        category: String,
        amount_cents: u64,
        due_date: String,
        path: Option<String>,
        description: Option<String>,
        status: Option<String>,
        payment_date: Option<String>,
    ) -> (r: Result<i64, StoreError>)
        requires
            old(self).wf(),
        ensures
            final(self).wf(),
            fresh_or_kept(old(self)@, old(self).next_id(), final(self)@, final(self).next_id()),
            status.is_none() ==> r == Err::<i64, StoreError>(StoreError::MissingStatus),
            status.is_some() && status.unwrap()@ == paid_status() && payment_date.is_none() ==> r == Err::<
                i64,
                StoreError,
            >(StoreError::PaidWithoutDate),
            status.is_some() && (status.unwrap()@ != paid_status() || payment_date.is_some()) && old(self).next_id()
                == i64::MAX ==> r == Err::<i64, StoreError>(StoreError::IdsExhausted),
            r.is_err() ==> *final(self) == *old(self),
            r.is_ok() <==> status.is_some() && (status.unwrap()@ != paid_status() || payment_date.is_some())
                && old(self).next_id() < i64::MAX,
            r.is_ok() ==> paid_is_dated(final(self)@.last().record),
            r.is_ok() ==> {
                let id = r.unwrap();
                &&& id == old(self).next_id()
                &&& !has_id(old(self)@, id as int)
                &&& final(self).next_id() == id + 1
                &&& final(self)@ == old(self)@.push(Row {
                    id,
                    record: Invoice {
                        creditor,
                        concern,
                        category,
                        amount_cents,
                        due_date,
                        path,
                        description,
                        status: status.unwrap(),
                        payment_date,
                    },
                })
            },
    {
        match status {
            Some(status) => {
                if status == "Paid".to_string() && payment_date.is_none() {
                    return Err(StoreError::PaidWithoutDate);
                }
                self.add(
                Invoice {
                    creditor,
                    concern,
                    category,
                    amount_cents,
                    due_date,
                    path,
                    description,
                    status,
                    payment_date,
                },
                )
            },
            None => Err(StoreError::MissingStatus),
        }
    }

    /// Brings every open invoice whose due date lies before `today` to
    /// overdue, and returns the identifiers of the invoices it changed.
    /// An invoice whose due date does not read as a date fails the whole
    /// call, and then nothing is changed.
    pub fn update_overdue_on(&mut self, today: &CivilDate) -> (r: Result<Vec<i64>, StoreError>)
        requires
            old(self).wf(),
        ensures
            final(self).wf(),
            fresh_or_kept(old(self)@, old(self).next_id(), final(self)@, final(self).next_id()),
            final(self).next_id() == old(self).next_id(),
            r.is_ok() <==> due_dates_readable(old(self)@),
            r.is_err() ==> *final(self) == *old(self) && exists|id: i64|
                #[trigger] first_unreadable(old(self)@, id)
                && r == Err::<Vec<i64>, StoreError>(StoreError::InvalidDueDate { id }),
            r.is_ok() ==> {
                &&& all_refreshed(old(self)@, final(self)@, today@)
                &&& overdue_ids(old(self)@, r.unwrap()@, today@)
                &&& none_open_past_due(final(self)@, today@)
            },
    {
        let mut dues: Vec<CivilDate> = Vec::new();
        let mut i: usize = 0;
        while i < self.len()
            invariant
                old(self).wf(),
                *self == *old(self),
                i <= self@.len(),
                dues@.len() == i,
                forall|j: int| 0 <= j < i ==> (#[trigger] due_of(self@[j].record)) == Some(dues@[j]@),
            decreases self@.len() - i,
        {
            match parse_iso_date(self.rows()[i].record.due_date.as_str()) {
                Some(d) => dues.push(d),
                None => {
                    assert(due_of(old(self)@[i as int].record).is_none());
                    assert(!due_dates_readable(old(self)@));
                    assert(first_unreadable(old(self)@, old(self)@[i as int].id));
                    return Err(StoreError::InvalidDueDate { id: self.rows()[i].id });
                },
            }
            i = i + 1;
        }
        let mut changed: Vec<i64> = Vec::new();
        let mut i: usize = 0;
        while i < self.len()
            invariant
                old(self).wf(),
                self.wf(),
                self.next_id() == old(self).next_id(),
                self@.len() == old(self)@.len(),
                dues@.len() == old(self)@.len(),
                i <= self@.len(),
                forall|j: int| 0 <= j < old(self)@.len() ==> (#[trigger] due_of(old(self)@[j].record)) == Some(dues@[j]@),
                forall|j: int| 0 <= j < self@.len() ==> (#[trigger] self@[j]).id == old(self)@[j].id,
                forall|j: int| 0 <= j < i ==> refreshed(old(self)@[j].record, (#[trigger] self@[j]).record, today@),
                forall|j: int| i <= j < self@.len() ==> #[trigger] self@[j] == old(self)@[j],
                forall|x: i64| changed@.contains(x) <==> exists|j: int|
                    0 <= j < i && (#[trigger] old(self)@[j]).id == x
                    && is_overdue(old(self)@[j].record.status@, due_of(old(self)@[j].record).unwrap(), today@),
            decreases self@.len() - i,
        {
            let ghost before = self@;
            let row = &self.rows()[i];
            if becomes_overdue(&row.record.status, &dues[i], today) {
                let id = row.id;
                let record = Invoice {
                    creditor: row.record.creditor.clone(),
                    concern: row.record.concern.clone(),
                    category: row.record.category.clone(),
                    amount_cents: row.record.amount_cents,
                    due_date: row.record.due_date.clone(),
                    path: copy_opt_text(&row.record.path),
                    description: copy_opt_text(&row.record.description),
                    status: "Overdue".to_string(),
                    payment_date: copy_opt_text(&row.record.payment_date),
                };
                self.set_record(i, record);
                let ghost earlier = changed@;
                changed.push(id);
                proof {
                    assert forall|x: i64| changed@.contains(x) <==> exists|j: int|
                        0 <= j < i + 1 && (#[trigger] old(self)@[j]).id == x
                        && is_overdue(old(self)@[j].record.status@, due_of(old(self)@[j].record).unwrap(), today@) by {
                        if x == id {
                            assert(old(self)@[i as int].id == x);
                            assert(changed@[changed@.len() - 1] == x);
                        }
                        if changed@.contains(x) && x != id {
                            let n = choose|n: int| 0 <= n < changed@.len() && changed@[n] == x;
                            assert(n < earlier.len());
                            assert(earlier[n] == x);
                            assert(earlier.contains(x));
                        }
                        if !changed@.contains(x) {
                            assert(!earlier.contains(x)) by {
                                if earlier.contains(x) {
                                    let n = choose|n: int| 0 <= n < earlier.len() && earlier[n] == x;
                                    assert(changed@[n] == x);
                                }
                            }
                            assert(x != id) by {
                                if x == id {
                                    assert(changed@[changed@.len() - 1] == x);
                                }
                            }
                        }
                    }
                }
            } else {
                assert forall|x: i64| changed@.contains(x) <==> exists|j: int|
                    0 <= j < i + 1 && (#[trigger] old(self)@[j]).id == x
                    && is_overdue(old(self)@[j].record.status@, due_of(old(self)@[j].record).unwrap(), today@) by {
                    if exists|j: int| 0 <= j < i + 1 && (#[trigger] old(self)@[j]).id == x
                        && is_overdue(old(self)@[j].record.status@, due_of(old(self)@[j].record).unwrap(), today@) {
                        let j = choose|j: int| 0 <= j < i + 1 && (#[trigger] old(self)@[j]).id == x
                            && is_overdue(old(self)@[j].record.status@, due_of(old(self)@[j].record).unwrap(), today@);
                        assert(j != i);
                    }
                }
            }
            i = i + 1;
        }
        assert(due_dates_readable(old(self)@));
        assert forall|i: int| 0 <= i < self@.len() implies !(#[trigger] due_of(self@[i].record)).is_some()
            || !is_overdue(self@[i].record.status@, due_of(self@[i].record).unwrap(), today@) by {
            assert(refreshed(old(self)@[i].record, self@[i].record, today@));
            assert(self@[i].record.due_date == old(self)@[i].record.due_date);
            reveal_strlit("Open");
            reveal_strlit("Overdue");
            assert(overdue_status()[1] != open_status()[1]);
        }
        Ok(changed)
    }

    /// `update_overdue_on` for today's local date.
    pub fn update_overdue(&mut self) -> (r: Result<Vec<i64>, StoreError>)
        requires
            old(self).wf(),
        ensures
            final(self).wf(),
            fresh_or_kept(old(self)@, old(self).next_id(), final(self)@, final(self).next_id()),
            final(self).next_id() == old(self).next_id(),
            r.is_ok() <==> due_dates_readable(old(self)@),
            r.is_err() ==> *final(self) == *old(self) && exists|id: i64|
                #[trigger] first_unreadable(old(self)@, id)
                && r == Err::<Vec<i64>, StoreError>(StoreError::InvalidDueDate { id }),
            r.is_ok() ==> exists|today: CivilDate| {
                &&& today.valid()
                &&& #[trigger] all_refreshed(old(self)@, final(self)@, today@)
                &&& overdue_ids(old(self)@, r.unwrap()@, today@)
                &&& none_open_past_due(final(self)@, today@)
            },
    {
        let day = today();
        self.update_overdue_on(&day)
    }

    /// Marks the invoice carrying `id` as paid on the date written
    /// `payment_date`, whatever its status was. Without such an invoice
    /// nothing changes.
    pub fn pay_invoice_on(&mut self, id: i64, payment_date: String)
        requires
            old(self).wf(),
        ensures
            final(self).wf(),
            fresh_or_kept(old(self)@, old(self).next_id(), final(self)@, final(self).next_id()),
            final(self).next_id() == old(self).next_id(),
            !has_id(old(self)@, id as int) ==> *final(self) == *old(self),
            has_id(old(self)@, id as int) ==> paid_in(old(self)@, final(self)@, id as int, payment_date@),
    {
        match self.position(id) {
            Some(k) => {
                let row = &self.rows()[k];
                let record = Invoice {
                    creditor: row.record.creditor.clone(),
                    concern: row.record.concern.clone(),
                    category: row.record.category.clone(),
                    amount_cents: row.record.amount_cents,
                    due_date: row.record.due_date.clone(),
                    path: copy_opt_text(&row.record.path),
                    description: copy_opt_text(&row.record.description),
                    status: "Paid".to_string(),
                    payment_date: Some(payment_date),
                };
                self.set_record(k, record);
                assert(self@[k as int].id == id);
                assert(old(self)@[k as int].id == id);
            },
            None => {},
        }
    }

    /// `pay_invoice_on` with today's local date, written `YYYY-MM-DD`.
    pub fn pay_invoice(&mut self, id: i64)
        requires
            old(self).wf(),
        ensures
            final(self).wf(),
            fresh_or_kept(old(self)@, old(self).next_id(), final(self)@, final(self).next_id()),
            final(self).next_id() == old(self).next_id(),
            !has_id(old(self)@, id as int) ==> *final(self) == *old(self),
            has_id(old(self)@, id as int) ==> exists|day: CivilDate|
                day.valid() && #[trigger] paid_in(old(self)@, final(self)@, id as int, iso_date_text(
                    day.year as int,
                    day.month as int,
                    day.day as int,
                )),
    {
        let day = today();
        let text = iso_text(&day);
        self.pay_invoice_on(id, text);
        assert(has_id(old(self)@, id as int) ==> paid_in(old(self)@, self@, id as int, iso_date_text(day.year as int, day.month as int, day.day as int)));
    }
}

/// A payment leaves the invoice paid and dated.
pub proof fn lemma_payment_is_dated(before: Invoice, after: Invoice, date: Seq<char>)
    requires
        paid(before, after, date),
    ensures
        paid_is_dated(after),
{
}

/// Marking invoices overdue keeps every paid invoice dated: it never touches
/// a paid one, and what it marks is not paid.
pub proof fn lemma_refresh_keeps_paid_dated(before: Invoice, after: Invoice, today: (int, int, int))
    requires
        paid_is_dated(before),
        refreshed(before, after, today),
    ensures
        paid_is_dated(after),
{
    reveal_strlit("Overdue");
    reveal_strlit("Paid");
    assert(overdue_status()[0] != paid_status()[0]);
}

/// Paying an invoice a second time keeps it paid and leaves the date of the
/// second payment: each payment overwrites the payment date before it.
pub proof fn lemma_second_payment_overwrites(
    first: Invoice,
    second: Invoice,
    third: Invoice,
    date1: Seq<char>,
    date2: Seq<char>,
)
    requires
        paid(first, second, date1),
        paid(second, third, date2),
    ensures
        paid(first, third, date2),
        third.status@ == paid_status(),
        third.payment_date.unwrap()@ == date2,
{
}

} // verus!
