use beebot::parser::{
    all_online, count_matching, extract_metrics, tally_emails, tally_payment_rows, tally_payment_types,
    tally_vouchers, EmailStatuses, PaymentStatuses, PaymentTypes, VoucherStatuses,
};
use beebot::requests::Page;
use beebot::validators::{validate_with_threshold, Status, Value};

fn strings(items: &[&str]) -> Vec<String> {
    items.iter().map(|s| s.to_string()).collect()
}

fn page(url: &str, html: &str) -> Page {
    Page { url: url.to_string(), html: html.to_string() }
}

fn row(state: &str, code: &str) -> (Option<String>, Option<String>) {
    (Some(state.to_string()), Some(code.to_string()))
}

#[test]
fn count_matching_counts_exact_texts() {
    let cells = strings(&["Yes", "No", "Yes", "yes", " Yes"]);
    assert_eq!(count_matching(&cells, "Yes"), 2);
    assert_eq!(count_matching(&cells, "Maybe"), 0);
    assert_eq!(count_matching(&Vec::new(), "Yes"), 0);
}

#[test]
fn tally_vouchers_splits_paid_error_other() {
    let states = strings(&["Paid", "Error", "Paid", "Pending", "Refunded"]);
    assert_eq!(tally_vouchers(&states), VoucherStatuses { paid: 2, error: 1, other: 2 });
}

#[test]
fn tally_emails_ignores_unknown_texts() {
    let cells = strings(&["Yes", "No", "Bulk", "Yes", "?"]);
    assert_eq!(tally_emails(&cells), EmailStatuses { sent: 2, not_sent: 1, bulk: 1 });
}

#[test]
fn tally_payment_types_counts_both_kinds() {
    let cells = strings(&["Individual", "Group", "Individual", "Other"]);
    assert_eq!(tally_payment_types(&cells), PaymentTypes { individual: 2, group: 1 });
}

#[test]
fn repeated_product_code_counts_as_grouped() {
    let rows = vec![
        row("Validated", "A1"),
        row("Validated", "A1"),
        row("To validate", "B2"),
        row("Error", "A1"),
        row("3d secure", "C3"),
        row("Cancelled", "D4"),
        row("Error", "E5"),
        (Some("Validated".to_string()), None),
        row("Unknown", "F6"),
    ];
    assert_eq!(
        tally_payment_rows(&rows),
        PaymentStatuses { validated: 1, to_validate: 1, threed_secure: 1, cancelled: 1, error: 1, group: 2 }
    );
}

#[test]
fn all_online_needs_every_badge_online() {
    assert!(all_online(&strings(&["Online", "Worker Online", "Online"])));
    assert!(!all_online(&strings(&["Online", "Offline", "Online"])));
    assert!(!all_online(&Vec::new()));
}

const PAYMENTS_HTML: &str = r#"<html><body><table id="result_list"><tbody>
<tr><td class="field-state"> Validated </td><td class="field-product_code_link">A1</td></tr>
<tr><td class="field-state">Validated</td><td class="field-product_code_link"> A1 </td></tr>
<tr><td class="field-state">To validate</td><td class="field-product_code_link">B2</td></tr>
<tr><td class="field-state">Error</td><td class="field-product_code_link">C3</td></tr>
</tbody></table>
<table><tr><td class="field-payment_splitting">Individual</td></tr>
<tr><td class="field-payment_splitting">Group</td></tr>
<tr><td class="field-payment_splitting"> Individual </td></tr></table>
</body></html>"#;

const PAID_VOUCHERS_HTML: &str = r#"<html><body><table>
<tr><td class="field-has_pdf">Yes</td><td class="field-_has_been_sent">Yes</td><td class="field-imported_from">-</td></tr>
<tr><td class="field-has_pdf">No</td><td class="field-_has_been_sent">No</td><td class="field-imported_from">-</td></tr>
<tr><td class="field-has_pdf"> Yes </td><td class="field-_has_been_sent">Bulk</td><td class="field-imported_from">shop</td></tr>
</table></body></html>"#;

const VOUCHERS_HTML: &str = r#"<html><body><table>
<tr><td class="field-state">Paid</td></tr>
<tr><td class="field-state">Error</td></tr>
<tr><td class="field-state">Paid</td></tr>
<tr><td class="field-state">Waiting</td></tr>
</table></body></html>"#;

const WEBSITE_HTML: &str = "<html><body><h1>Welcome</h1><h1> Nos bons cadeaux - Le QuatriÃ¨me Mur </h1></body></html>";

const CELERY_ONLINE_HTML: &str = r#"<html><body><table>
<tr><td><span class="label label-success">Online</span></td></tr>
<tr><td><span class="label label-success">Online</span></td></tr>
</table></body></html>"#;

const CELERY_DOWN_HTML: &str = r#"<html><body><table>
<tr><td><span class="label label-success">Online</span></td></tr>
<tr><td><span class="label label-success">Offline</span></td></tr>
</table></body></html>"#;

fn all_pages(celery_html: &str) -> Vec<(String, Page)> {
    vec![
        ("payments".to_string(), page("https://p", PAYMENTS_HTML)),
        ("paid_vouchers".to_string(), page("https://pv", PAID_VOUCHERS_HTML)),
        ("vouchers".to_string(), page("https://v", VOUCHERS_HTML)),
        ("purchase_website".to_string(), page("https://w", WEBSITE_HTML)),
        ("celery".to_string(), page("https://c", celery_html)),
    ]
}

#[test]
fn extract_metrics_reads_every_page() {
    let r = extract_metrics(&all_pages(CELERY_ONLINE_HTML), false);
    assert_eq!(
        r.validated_payments_count,
        PaymentStatuses { validated: 1, to_validate: 1, threed_secure: 0, cancelled: 0, error: 1, group: 1 }
    );
    assert_eq!(r.payment_types_count, PaymentTypes { individual: 2, group: 1 });
    assert_eq!(r.pdf_count, 2);
    assert_eq!(r.email_check_count, EmailStatuses { sent: 1, not_sent: 1, bulk: 1 });
    assert_eq!(r.not_imported_count, 2);
    assert_eq!(r.paid_vouchers_count, VoucherStatuses { paid: 2, error: 1, other: 1 });
    assert!(r.is_website_online);
    assert!(r.is_celery_online);
    assert_eq!(r.url_validated_payments, "https://p");
    assert_eq!(r.url_pdf_count, "https://pv");
    assert_eq!(r.url_email_check_count, "https://pv");
    assert_eq!(r.url_vouchers_count, "https://v");
    assert_eq!(r.url_website, "https://w");
    assert_eq!(r.url_celery, "https://c");
    assert!(r.has_payments && r.has_paid_vouchers && r.has_vouchers && r.has_website && r.has_celery);
}

#[test]
fn celery_badge_not_online_marks_queue_down() {
    let r = extract_metrics(&all_pages(CELERY_DOWN_HTML), false);
    assert!(!r.is_celery_online);
    assert!(r.has_celery);
}

#[test]
fn website_without_expected_title_is_down() {
    let pages = vec![("purchase_website".to_string(), page("https://w", "<h1>Maintenance</h1>"))];
    let r = extract_metrics(&pages, false);
    assert!(r.has_website);
    assert!(!r.is_website_online);
}

#[test]
fn missing_pages_leave_defaults() {
    let r = extract_metrics(&Vec::new(), false);
    assert!(!r.has_payments && !r.has_paid_vouchers && !r.has_vouchers && !r.has_website && !r.has_celery);
    assert_eq!(r.validated_payments_count, PaymentStatuses {
        validated: 0,
        to_validate: 0,
        threed_secure: 0,
        cancelled: 0,
        error: 0,
        group: 0,
    });
    assert_eq!(r.not_imported_count, 0);
    assert_eq!(r.pdf_count, 0);
    assert!(!r.is_website_online && !r.is_celery_online);
    assert_eq!(r.url_website, "");
}

#[test]
fn test_mode_uses_canned_snapshot() {
    let r = extract_metrics(&Vec::new(), true);
    assert_eq!(r.validated_payments_count.validated, 100);
    assert_eq!(r.payment_types_count, PaymentTypes { individual: 80, group: 20 });
    assert_eq!(r.paid_vouchers_count, VoucherStatuses { paid: 40, error: 10, other: 50 });
    assert_eq!(r.not_imported_count, 50);
    assert_eq!(r.pdf_count, 76);
    assert_eq!(r.email_check_count, EmailStatuses { sent: 30, not_sent: 50, bulk: 20 });
    assert!(!r.is_website_online);
    assert!(r.is_celery_online);
    assert_eq!(r.url_celery, "https://test-domain.com");
}

#[test]
fn first_page_under_a_key_wins() {
    let pages = vec![
        ("vouchers".to_string(), page("https://first", VOUCHERS_HTML)),
        ("vouchers".to_string(), page("https://second", "<p></p>")),
    ];
    let r = extract_metrics(&pages, false);
    assert_eq!(r.url_vouchers_count, "https://first");
    assert_eq!(r.paid_vouchers_count.paid, 2);
}

#[test]
fn reachability_scenario_online_then_one_down() {
    let online = extract_metrics(&vec![("celery".to_string(), page("https://c", CELERY_ONLINE_HTML))], false);
    let queue = &validate_with_threshold(&online, 75)[5].0;
    assert_eq!((queue.status, queue.value), (Status::Healthy, Value::Bool(true)));
    let down = extract_metrics(&vec![("celery".to_string(), page("https://c", CELERY_DOWN_HTML))], false);
    let queue = &validate_with_threshold(&down, 75)[5].0;
    assert_eq!((queue.status, queue.value), (Status::Alert, Value::Bool(false)));
}

const CELERY_MIXED_CLASSES_HTML: &str = "<table><tr><td><span class='label label-success'>Online</span></td></tr>\
<tr><td><span class='label label-danger'>Offline</span></td></tr></table>";

#[test]
fn offline_badge_of_another_class_marks_queue_down() {
    let r = extract_metrics(&vec![("celery".to_string(), page("https://c", CELERY_MIXED_CLASSES_HTML))], false);
    assert!(r.has_celery);
    assert!(!r.is_celery_online);
}

#[test]
fn queue_page_without_badges_is_not_online() {
    let r = extract_metrics(&vec![("celery".to_string(), page("https://c", ""))], false);
    assert!(r.has_celery);
    assert!(!r.is_celery_online);
    let queue = &validate_with_threshold(&r, 75)[5].0;
    assert_eq!(queue.status, Status::Alert);
}
