//! The records kept in the store. Taxonomy values are plain names; records
//! refer to them by name, never by identifier.

use vstd::prelude::*;

verus! {

/// A bill owed to a creditor. Amounts are in hundredths of the currency unit.
pub struct Invoice {
    pub creditor: String,
    pub concern: String,
    pub category: String,
    pub amount_cents: u64,
    pub due_date: String,
    pub path: Option<String>,
    pub description: Option<String>,
    pub status: String,
    pub payment_date: Option<String>,
}

/// Money received.
pub struct Revenue {
    pub source: String,
    pub revenue_type: String,
    pub revenue_amount_cents: u64,
    pub receipt_date: String,
    pub revenue_description: Option<String>,
    pub revenue_path: Option<String>,
}

/// An administrative document kept on disk at `admin_doc_path`.
pub struct AdminDocument {
    pub admin_doc_concern: String,
    pub admin_doc_category: String,
    pub admin_doc_description: String,
    pub admin_doc_status: String,
    pub admin_doc_path: String,
}

/// A to-do item; `creation_date` is stamped by the store, not by the caller.
pub struct Task {
    pub title: String,
    pub description: String,
    pub status: String,
    pub priority: String,
    pub due_date: String,
    pub creation_date: String,
    pub category: String,
    pub attachments: Option<String>,
}

pub(crate) fn copy_opt_text(s: &Option<String>) -> (r: Option<String>)
    ensures
        r == *s,
{
    match s {
        Some(t) => Some(t.clone()),
        None => None,
    }
}

} // verus!
