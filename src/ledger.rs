//! Everything the office keeps: four kinds of records and the ten taxonomies
//! that classify them.

use vstd::prelude::*;

use crate::records::{AdminDocument, Invoice, Revenue, Task};
use crate::table::{Row, Table};
use crate::taxonomy::Taxonomy;

verus! {

/// The whole store. Each table and taxonomy stands on its own: no operation
/// on one of them touches another.
pub struct Ledger {
    pub invoices: Table<Invoice>,
    pub creditors: Taxonomy,
    pub concerns: Taxonomy,
    pub categories: Taxonomy,
    pub revenues: Table<Revenue>,
    pub sources: Taxonomy,
    pub revenue_types: Taxonomy,
    pub admin_docs: Table<AdminDocument>,
    pub admin_document_concerns: Taxonomy,
    pub admin_document_categories: Taxonomy,
    pub tasks: Table<Task>,
    pub task_categories: Taxonomy,
    pub task_priorities: Taxonomy,
    pub task_statuses: Taxonomy,
}

impl Ledger {
    pub open spec fn wf(&self) -> bool {
        &&& self.invoices.wf()
        &&& self.creditors.wf()
        &&& self.concerns.wf()
        &&& self.categories.wf()
        &&& self.revenues.wf()
        &&& self.sources.wf()
        &&& self.revenue_types.wf()
        &&& self.admin_docs.wf()
        &&& self.admin_document_concerns.wf()
        &&& self.admin_document_categories.wf()
        &&& self.tasks.wf()
        &&& self.task_categories.wf()
        &&& self.task_priorities.wf()
        &&& self.task_statuses.wf()
    }

    /// A store with every table and taxonomy empty.
    pub fn new() -> (l: Self)
        ensures
            l.wf(),
            l.invoices@ == Seq::<Row<Invoice>>::empty(),
            l.creditors@ == Seq::<Row<String>>::empty(),
            l.concerns@ == Seq::<Row<String>>::empty(),
            l.categories@ == Seq::<Row<String>>::empty(),
            l.revenues@ == Seq::<Row<Revenue>>::empty(),
            l.sources@ == Seq::<Row<String>>::empty(),
            l.revenue_types@ == Seq::<Row<String>>::empty(),
            l.admin_docs@ == Seq::<Row<AdminDocument>>::empty(),
            l.admin_document_concerns@ == Seq::<Row<String>>::empty(),
            l.admin_document_categories@ == Seq::<Row<String>>::empty(),
            l.tasks@ == Seq::<Row<Task>>::empty(),
            l.task_categories@ == Seq::<Row<String>>::empty(),
            l.task_priorities@ == Seq::<Row<String>>::empty(),
            l.task_statuses@ == Seq::<Row<String>>::empty(),
            l.invoices.next_id() == 1,
            l.creditors.next_id() == 1,
            l.concerns.next_id() == 1,
            l.categories.next_id() == 1,
            l.revenues.next_id() == 1,
            l.sources.next_id() == 1,
            l.revenue_types.next_id() == 1,
            l.admin_docs.next_id() == 1,
            l.admin_document_concerns.next_id() == 1,
            l.admin_document_categories.next_id() == 1,
            l.tasks.next_id() == 1,
            l.task_categories.next_id() == 1,
            l.task_priorities.next_id() == 1,
            l.task_statuses.next_id() == 1,
    {
        Ledger {
            invoices: Table::new(),
            creditors: Taxonomy::new(),
            concerns: Taxonomy::new(),
            categories: Taxonomy::new(),
            revenues: Table::new(),
            sources: Taxonomy::new(),
            revenue_types: Taxonomy::new(),
            admin_docs: Table::new(),
            admin_document_concerns: Taxonomy::new(),
            admin_document_categories: Taxonomy::new(),
            tasks: Table::new(),
            task_categories: Taxonomy::new(),
            task_priorities: Taxonomy::new(),
            task_statuses: Taxonomy::new(),
        }
    }
}

} // verus!
