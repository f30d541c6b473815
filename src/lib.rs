//! Record and taxonomy keeping for a small bookkeeping office: invoices,
//! revenues, administrative documents and tasks, each classified by free-text
//! taxonomy values, together with the invoice status lifecycle.

pub mod date;
pub mod table;
pub mod records;
mod clock;
pub mod invoices;
pub mod tasks;
pub mod taxonomy;
pub mod ledger;
