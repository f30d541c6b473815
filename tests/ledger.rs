use bookkeeping::date::CivilDate;
use bookkeeping::invoices::becomes_overdue;
use bookkeeping::ledger::Ledger;
use bookkeeping::records::{AdminDocument, Invoice, Revenue, Task};
use bookkeeping::table::{StoreError, Table};
use bookkeeping::taxonomy::Taxonomy;

fn day(year: i32, month: u32, day: u32) -> CivilDate {
    CivilDate { year, month, day }
}

fn add_open_invoice(t: &mut Table<Invoice>, creditor: &str, due: &str) -> i64 {
    t.add_invoice(
        creditor.to_string(),
        "Home".to_string(),
        "Energy".to_string(),
        12050,
        due.to_string(),
        Some("/docs/bill.pdf".to_string()),
        None,
        Some("Open".to_string()),
        None,
    )
    .unwrap()
}

#[test]
fn add_invoice_appends_one_matching_row() {
    let mut t: Table<Invoice> = Table::new();
    let first = add_open_invoice(&mut t, "Water Ltd", "2030-01-01");
    let second = add_open_invoice(&mut t, "Electric Co.", "2030-02-01");
    assert_eq!(first, 1);
    assert_eq!(second, 2);
    let rows = t.rows();
    assert_eq!(rows.len(), 2);
    assert_eq!(rows[1].id, 2);
    assert_eq!(rows[1].record.creditor, "Electric Co.");
    assert_eq!(rows[1].record.concern, "Home");
    assert_eq!(rows[1].record.category, "Energy");
    assert_eq!(rows[1].record.amount_cents, 12050);
    assert_eq!(rows[1].record.due_date, "2030-02-01");
    assert_eq!(rows[1].record.path.as_deref(), Some("/docs/bill.pdf"));
    assert_eq!(rows[1].record.description, None);
    assert_eq!(rows[1].record.status, "Open");
    assert_eq!(rows[1].record.payment_date, None);
}

#[test]
fn add_invoice_without_status_is_refused() {
    let mut t: Table<Invoice> = Table::new();
    let r = t.add_invoice(
        "Water Ltd".to_string(),
        "Home".to_string(),
        "Energy".to_string(),
        100,
        "2030-01-01".to_string(),
        None,
        None,
        None,
        None,
    );
    assert_eq!(r, Err(StoreError::MissingStatus));
    assert_eq!(t.len(), 0);
}

#[test]
fn deleted_id_is_gone_and_not_reused() {
    let mut t: Table<Invoice> = Table::new();
    let a = add_open_invoice(&mut t, "A", "2030-01-01");
    let b = add_open_invoice(&mut t, "B", "2030-01-01");
    t.delete(b);
    assert!(t.rows().iter().all(|r| r.id != b));
    assert_eq!(t.len(), 1);
    let c = add_open_invoice(&mut t, "C", "2030-01-01");
    assert_ne!(c, b);
    assert_ne!(c, a);
    assert_eq!(c, 3);
}

#[test]
fn deleting_missing_id_changes_nothing() {
    let mut t: Table<Invoice> = Table::new();
    add_open_invoice(&mut t, "A", "2030-01-01");
    t.delete(42);
    assert_eq!(t.len(), 1);
    assert_eq!(t.rows()[0].record.creditor, "A");
}

#[test]
fn open_invoice_past_due_becomes_overdue_and_stays_so() {
    let mut t: Table<Invoice> = Table::new();
    let id = add_open_invoice(&mut t, "Electric Co.", "2020-01-01");
    let changed = t.update_overdue_on(&day(2024, 6, 1)).unwrap();
    assert_eq!(changed, vec![id]);
    assert_eq!(t.rows()[0].record.status, "Overdue");
    let again = t.update_overdue_on(&day(2024, 6, 2)).unwrap();
    assert!(again.is_empty());
    assert_eq!(t.rows()[0].record.status, "Overdue");
    assert_eq!(t.rows()[0].record.due_date, "2020-01-01");
}

#[test]
fn overdue_check_against_local_clock() {
    let mut t: Table<Invoice> = Table::new();
    let id = add_open_invoice(&mut t, "Electric Co.", "2020-01-01");
    let changed = t.update_overdue().unwrap();
    assert_eq!(changed, vec![id]);
    assert_eq!(t.rows()[0].record.status, "Overdue");
}

#[test]
fn invoice_due_today_or_later_stays_open() {
    let mut t: Table<Invoice> = Table::new();
    add_open_invoice(&mut t, "A", "2024-06-01");
    add_open_invoice(&mut t, "B", "2024-06-02");
    let changed = t.update_overdue_on(&day(2024, 6, 1)).unwrap();
    assert!(changed.is_empty());
    assert_eq!(t.rows()[0].record.status, "Open");
    assert_eq!(t.rows()[1].record.status, "Open");
}

#[test]
fn only_open_invoices_turn_overdue() {
    let mut t: Table<Invoice> = Table::new();
    let open = add_open_invoice(&mut t, "A", "2020-01-01");
    let paid = add_open_invoice(&mut t, "B", "2020-01-01");
    t.pay_invoice_on(paid, "2020-01-05".to_string());
    let custom = t
        .add_invoice(
            "C".to_string(),
            "Home".to_string(),
            "Misc".to_string(),
            0,
            "2020-01-01".to_string(),
            None,
            None,
            Some("Disputed".to_string()),
            None,
        )
        .unwrap();
    let changed = t.update_overdue_on(&day(2021, 1, 1)).unwrap();
    assert_eq!(changed, vec![open]);
    assert_eq!(t.rows()[1].record.status, "Paid");
    assert_eq!(t.rows()[2].id, custom);
    assert_eq!(t.rows()[2].record.status, "Disputed");
}

#[test]
fn unreadable_due_date_fails_whole_listing() {
    let mut t: Table<Invoice> = Table::new();
    add_open_invoice(&mut t, "A", "2020-01-01");
    let bad = add_open_invoice(&mut t, "B", "not-a-date");
    let r = t.update_overdue_on(&day(2024, 6, 1));
    assert_eq!(r, Err(StoreError::InvalidDueDate { id: bad }));
    assert_eq!(t.rows()[0].record.status, "Open");
    assert_eq!(t.rows()[1].record.status, "Open");
}

#[test]
fn impossible_calendar_dates_are_unreadable() {
    for text in ["2021-02-29", "2020-13-01", "2020-04-31", ""] {
        let mut t: Table<Invoice> = Table::new();
        let id = add_open_invoice(&mut t, "A", text);
        assert_eq!(t.update_overdue_on(&day(2024, 6, 1)), Err(StoreError::InvalidDueDate { id }));
    }
    let mut t: Table<Invoice> = Table::new();
    add_open_invoice(&mut t, "A", "2020-02-29");
    assert_eq!(t.update_overdue_on(&day(2020, 3, 1)).unwrap().len(), 1);
}

#[test]
fn paid_invoice_with_unreadable_date_also_fails() {
    let mut t: Table<Invoice> = Table::new();
    let id = add_open_invoice(&mut t, "A", "someday");
    t.pay_invoice_on(id, "2024-01-01".to_string());
    assert_eq!(t.update_overdue_on(&day(2024, 6, 1)), Err(StoreError::InvalidDueDate { id }));
}

#[test]
fn paying_twice_keeps_second_date() {
    let mut t: Table<Invoice> = Table::new();
    let id = add_open_invoice(&mut t, "A", "2020-01-01");
    t.pay_invoice_on(id, "2024-01-02".to_string());
    assert_eq!(t.rows()[0].record.status, "Paid");
    assert_eq!(t.rows()[0].record.payment_date.as_deref(), Some("2024-01-02"));
    t.pay_invoice_on(id, "2024-02-03".to_string());
    assert_eq!(t.rows()[0].record.status, "Paid");
    assert_eq!(t.rows()[0].record.payment_date.as_deref(), Some("2024-02-03"));
    assert_eq!(t.rows()[0].record.creditor, "A");
    assert_eq!(t.rows()[0].record.amount_cents, 12050);
}

#[test]
fn paying_overdue_invoice_marks_it_paid() {
    let mut t: Table<Invoice> = Table::new();
    let id = add_open_invoice(&mut t, "A", "2020-01-01");
    t.update_overdue_on(&day(2021, 1, 1)).unwrap();
    t.pay_invoice_on(id, "2021-01-02".to_string());
    assert_eq!(t.rows()[0].record.status, "Paid");
}

#[test]
fn paying_missing_invoice_changes_nothing() {
    let mut t: Table<Invoice> = Table::new();
    add_open_invoice(&mut t, "A", "2020-01-01");
    t.pay_invoice_on(9, "2021-01-02".to_string());
    assert_eq!(t.rows()[0].record.status, "Open");
    assert_eq!(t.rows()[0].record.payment_date, None);
}

#[test]
fn paying_with_local_clock_writes_todays_iso_date() {
    let mut t: Table<Invoice> = Table::new();
    let id = add_open_invoice(&mut t, "A", "2020-01-01");
    let expected = chrono::Local::now().date_naive().format("%Y-%m-%d").to_string();
    t.pay_invoice(id);
    let written = t.rows()[0].record.payment_date.clone().unwrap();
    assert_eq!(t.rows()[0].record.status, "Paid");
    assert_eq!(written.len(), 10);
    assert_eq!(written, expected);
}

#[test]
fn becomes_overdue_cases() {
    let due = day(2024, 5, 31);
    assert!(becomes_overdue(&"Open".to_string(), &due, &day(2024, 6, 1)));
    assert!(!becomes_overdue(&"Open".to_string(), &due, &day(2024, 5, 31)));
    assert!(!becomes_overdue(&"Paid".to_string(), &due, &day(2025, 1, 1)));
    assert!(!becomes_overdue(&"Overdue".to_string(), &due, &day(2025, 1, 1)));
    assert!(!becomes_overdue(&"open".to_string(), &due, &day(2025, 1, 1)));
}

#[test]
fn date_order() {
    assert!(day(2023, 12, 31).is_before(&day(2024, 1, 1)));
    assert!(day(2024, 1, 31).is_before(&day(2024, 2, 1)));
    assert!(day(2024, 2, 1).is_before(&day(2024, 2, 2)));
    assert!(!day(2024, 2, 2).is_before(&day(2024, 2, 2)));
    assert!(!day(2025, 1, 1).is_before(&day(2024, 12, 31)));
}

#[test]
fn task_update_overwrites_fields_and_stamp() {
    let mut t: Table<Task> = Table::new();
    let id = t
        .add_task_at(
            "Call bank".to_string(),
            "About the loan".to_string(),
            "Todo".to_string(),
            "High".to_string(),
            "2024-07-01".to_string(),
            "Finance".to_string(),
            None,
            "2024-06-01 09:00:00".to_string(),
        )
        .unwrap();
    assert_eq!(t.rows()[0].record.creation_date, "2024-06-01 09:00:00");
    t.update_task_at(
        id,
        "Call bank".to_string(),
        "Loan settled".to_string(),
        "Done".to_string(),
        "Low".to_string(),
        "2024-07-02".to_string(),
        "Finance".to_string(),
        Some("/docs/loan.pdf".to_string()),
        "2024-06-03 10:30:00".to_string(),
    );
    let task = &t.rows()[0].record;
    assert_eq!(task.description, "Loan settled");
    assert_eq!(task.status, "Done");
    assert_eq!(task.priority, "Low");
    assert_eq!(task.due_date, "2024-07-02");
    assert_eq!(task.attachments.as_deref(), Some("/docs/loan.pdf"));
    assert_eq!(task.creation_date, "2024-06-03 10:30:00");
}

#[test]
fn two_task_updates_give_two_stamps() {
    let mut t: Table<Task> = Table::new();
    let id = t
        .add_task(
            "Title".to_string(),
            "Desc".to_string(),
            "Todo".to_string(),
            "High".to_string(),
            "2024-07-01".to_string(),
            "Home".to_string(),
            None,
        )
        .unwrap();
    let fields = || {
        (
            "Title".to_string(),
            "Desc".to_string(),
            "Todo".to_string(),
            "High".to_string(),
            "2024-07-01".to_string(),
            "Home".to_string(),
        )
    };
    let (a, b, c, d, e, f) = fields();
    t.update_task(id, a, b, c, d, e, f, None);
    let first = t.rows()[0].record.creation_date.clone();
    let mut spins: u64 = 0;
    while chrono::Local::now().naive_local().to_string() <= first && spins < 100_000_000 {
        spins += 1;
    }
    let (a, b, c, d, e, f) = fields();
    t.update_task(id, a, b, c, d, e, f, None);
    let second = t.rows()[0].record.creation_date.clone();
    assert!(!first.is_empty());
    assert_ne!(first, second);
}

#[test]
fn updating_missing_task_changes_nothing() {
    let mut t: Table<Task> = Table::new();
    t.update_task_at(
        5,
        "x".to_string(),
        "x".to_string(),
        "x".to_string(),
        "x".to_string(),
        "x".to_string(),
        "x".to_string(),
        None,
        "now".to_string(),
    );
    assert_eq!(t.len(), 0);
}

#[test]
fn deleting_creditor_leaves_invoices_alone() {
    let mut ledger = Ledger::new();
    let creditor = ledger.creditors.add("Electric Co.".to_string()).unwrap();
    let invoice = add_open_invoice(&mut ledger.invoices, "Electric Co.", "2030-01-01");
    ledger.creditors.delete(creditor);
    assert_eq!(ledger.creditors.list().len(), 0);
    assert_eq!(ledger.invoices.rows()[0].id, invoice);
    assert_eq!(ledger.invoices.rows()[0].record.creditor, "Electric Co.");
}

#[test]
fn taxonomy_keeps_duplicates_and_refuses_empty_names() {
    let mut tax = Taxonomy::new();
    assert_eq!(tax.add("Rent".to_string()), Ok(1));
    assert_eq!(tax.add("Rent".to_string()), Ok(2));
    assert_eq!(tax.add(String::new()), Err(StoreError::EmptyName));
    let names: Vec<(i64, &str)> = tax.list().iter().map(|r| (r.id, r.record.as_str())).collect();
    assert_eq!(names, vec![(1, "Rent"), (2, "Rent")]);
    tax.delete(7);
    assert_eq!(tax.list().len(), 2);
    tax.delete(1);
    assert_eq!(tax.list()[0].id, 2);
}

#[test]
fn restore_brings_rows_back_in_order() {
    let mut tax = Taxonomy::new();
    assert_eq!(tax.restore(4, "Salary".to_string()), Ok(()));
    assert_eq!(tax.restore(4, "Bonus".to_string()), Err(StoreError::OutOfOrder { id: 4 }));
    assert_eq!(tax.restore(9, String::new()), Err(StoreError::EmptyName));
    assert_eq!(tax.add("Gift".to_string()), Ok(5));
    let mut docs: Table<AdminDocument> = Table::new();
    let doc = AdminDocument {
        admin_doc_concern: "Car".to_string(),
        admin_doc_category: "Insurance".to_string(),
        admin_doc_description: "Policy".to_string(),
        admin_doc_status: "Valid".to_string(),
        admin_doc_path: "/docs/policy.pdf".to_string(),
    };
    assert_eq!(docs.restore(i64::MAX, doc), Err(StoreError::OutOfOrder { id: i64::MAX }));
}

#[test]
fn revenues_and_documents_tables() {
    let mut ledger = Ledger::new();
    let rev = ledger
        .revenues
        .add(Revenue {
            source: "Employer".to_string(),
            revenue_type: "Salary".to_string(),
            revenue_amount_cents: 250000,
            receipt_date: "2024-05-28".to_string(),
            revenue_description: None,
            revenue_path: None,
        })
        .unwrap();
    assert_eq!(rev, 1);
    assert_eq!(ledger.revenues.rows()[0].record.revenue_amount_cents, 250000);
    ledger.revenues.delete(rev);
    assert_eq!(ledger.revenues.len(), 0);
    let doc = ledger
        .admin_docs
        .add(AdminDocument {
            admin_doc_concern: "Car".to_string(),
            admin_doc_category: "Insurance".to_string(),
            admin_doc_description: "Policy".to_string(),
            admin_doc_status: "Valid".to_string(),
            admin_doc_path: "/docs/policy.pdf".to_string(),
        })
        .unwrap();
    assert_eq!(ledger.admin_docs.position(doc), Some(0));
    assert_eq!(ledger.admin_docs.position(doc + 1), None);
}

#[test]
fn paid_invoice_needs_payment_date() {
    let mut t: Table<Invoice> = Table::new();
    let r = t.add_invoice(
        "A".to_string(),
        "Home".to_string(),
        "Energy".to_string(),
        100,
        "2030-01-01".to_string(),
        None,
        None,
        Some("Paid".to_string()),
        None,
    );
    assert_eq!(r, Err(StoreError::PaidWithoutDate));
    assert_eq!(t.len(), 0);
    let ok = t.add_invoice(
        "A".to_string(),
        "Home".to_string(),
        "Energy".to_string(),
        100,
        "2030-01-01".to_string(),
        None,
        None,
        Some("Paid".to_string()),
        Some("2029-12-30".to_string()),
    );
    assert_eq!(ok, Ok(1));
}

#[test]
fn retired_ids_are_not_handed_out_again() {
    let mut tax = Taxonomy::new();
    tax.restore(1, "Rent".to_string()).unwrap();
    tax.retire_ids_below(6);
    assert_eq!(tax.add("Food".to_string()), Ok(6));
    tax.retire_ids_below(3);
    assert_eq!(tax.add("Fuel".to_string()), Ok(7));
    let mut t: Table<Task> = Table::new();
    t.retire_ids_below(10);
    let id = t
        .add_task_at(
            "x".to_string(),
            "x".to_string(),
            "x".to_string(),
            "x".to_string(),
            "x".to_string(),
            "x".to_string(),
            None,
            "now".to_string(),
        )
        .unwrap();
    assert_eq!(id, 10);
}

#[test]
fn deleting_largest_id_then_adding_gives_new_id() {
    let mut ledger = Ledger::new();
    let a = add_open_invoice(&mut ledger.invoices, "A", "2030-01-01");
    let b = add_open_invoice(&mut ledger.invoices, "B", "2030-01-01");
    ledger.invoices.delete(b);
    let c = add_open_invoice(&mut ledger.invoices, "C", "2030-01-01");
    assert!(c > b && c > a);
    assert!(ledger.invoices.rows().iter().all(|r| r.id != b));
}
