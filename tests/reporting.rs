use beebot::db::{create_log, get_corresponding_value, LogEntry};
use beebot::mail::{compose_mail_body, delivery_actions, mail_subject, needs_alert, Action};
use beebot::parser::PageResults;
use beebot::requests::plan_requests;
use beebot::slack::create_message;
use beebot::text::{has_text, push_decimal, push_without_backticks};
use beebot::trend::{compare_trend, trend_of, Trend};
use beebot::validators::{Metric, Status, UnitValidationResult, Value};

fn result(metric: Metric, status: Status, message: &str, value: Value) -> UnitValidationResult {
    UnitValidationResult { metric, status, message: message.to_string(), value }
}

fn entry(payments: i32) -> LogEntry {
    LogEntry {
        id: Some(1),
        payments,
        vouchers: 3,
        pdf_count: 4,
        email_count: 5,
        website_ok: true,
        slack_sent: true,
        email_sent: false,
        datetime: None,
    }
}

#[test]
fn trend_of_counts() {
    assert_eq!(compare_trend(Some(Value::Count(50)), Value::Count(70)), Trend::Increasing);
    assert_eq!(compare_trend(Some(Value::Count(70)), Value::Count(50)), Trend::Decreasing);
    assert_eq!(compare_trend(Some(Value::Count(50)), Value::Count(50)), Trend::Unchanged);
    assert_eq!(compare_trend(Some(Value::Bool(true)), Value::Bool(true)), Trend::Unknown);
    assert_eq!(compare_trend(Some(Value::Bool(true)), Value::Count(1)), Trend::Unknown);
    assert_eq!(compare_trend(None, Value::Count(1)), Trend::Unknown);
}

#[test]
fn no_previous_record_means_unknown_for_every_metric() {
    for metric in [
        Metric::ValidatedPayments,
        Metric::PaidVouchers,
        Metric::PdfCount,
        Metric::EmailCount,
        Metric::PurchaseWebsite,
        Metric::Celery,
    ] {
        let r = result(metric, Status::Healthy, "", Value::Count(7));
        assert_eq!(trend_of(&None, &r), Trend::Unknown);
    }
}

#[test]
fn trend_against_stored_record() {
    let r = result(Metric::ValidatedPayments, Status::Healthy, "", Value::Count(70));
    assert_eq!(trend_of(&Some(entry(50)), &r), Trend::Increasing);
    assert_eq!(trend_of(&Some(entry(70)), &r), Trend::Unchanged);
    let q = result(Metric::Celery, Status::Healthy, "", Value::Bool(true));
    assert_eq!(trend_of(&Some(entry(70)), &q), Trend::Unknown);
}

#[test]
fn stored_values_map_to_metrics() {
    let e = entry(-4);
    assert_eq!(get_corresponding_value(Metric::ValidatedPayments, &e), Some(Value::Count(0)));
    assert_eq!(get_corresponding_value(Metric::PaidVouchers, &e), Some(Value::Count(3)));
    assert_eq!(get_corresponding_value(Metric::PdfCount, &e), Some(Value::Count(4)));
    assert_eq!(get_corresponding_value(Metric::EmailCount, &e), Some(Value::Count(5)));
    assert_eq!(get_corresponding_value(Metric::PurchaseWebsite, &e), Some(Value::Bool(true)));
    assert_eq!(get_corresponding_value(Metric::Celery, &e), None);
}

#[test]
fn create_log_copies_counts_and_outcomes() {
    let mut p = PageResults::default();
    p.validated_payments_count.validated = 90;
    p.paid_vouchers_count.paid = 12;
    p.pdf_count = usize::MAX;
    p.email_check_count.sent = 7;
    p.is_website_online = true;
    let log = create_log(&p, true, false);
    assert_eq!(log.id, None);
    assert_eq!(log.payments, 90);
    assert_eq!(log.vouchers, 12);
    assert_eq!(log.pdf_count, i32::MAX);
    assert_eq!(log.email_count, 7);
    assert!(log.website_ok && log.slack_sent && !log.email_sent);
    assert_eq!(log.datetime, None);
}

#[test]
fn chat_message_lines_trends_and_mention() {
    let results = vec![
        (result(Metric::ValidatedPayments, Status::Healthy, "`70/100 VALIDATED`", Value::Count(70)), "https://p".to_string()),
        (result(Metric::PurchaseWebsite, Status::Alert, "`DOWN`", Value::Bool(false)), "https://w".to_string()),
    ];
    let message = create_message(&results, Some(entry(50)), false);
    assert_eq!(
        message,
        ":square_check::trend_up: Validated payments: `70/100 VALIDATED`  <https://p| View >\n\
         :square_x::blank: Purchase website: `DOWN`  <https://w| View >\n<!channel>"
    );
}

#[test]
fn chat_message_in_test_mode_without_alert() {
    let results = vec![(
        result(Metric::PdfCount, Status::Warning, "`80/100`", Value::Count(80)),
        "https://pv".to_string(),
    )];
    let message = create_message(&results, Some(entry(50)), true);
    assert_eq!(message, "*THIS IS A TEST*\n:square_neutral::trend_up: PDF count: `80/100`  <https://pv| View >\n");
}

#[test]
fn mail_body_strips_backticks() {
    let results = vec![
        (result(Metric::EmailCount, Status::Alert, "`40/100 SENT`, `60 NOT SENT`", Value::Count(40)), String::new()),
        (result(Metric::Celery, Status::Healthy, "`ONLINE`", Value::Bool(true)), String::new()),
        (result(Metric::PdfCount, Status::Warning, "`80/100`", Value::Count(80)), String::new()),
    ];
    assert_eq!(
        compose_mail_body(&results, false),
        Some("❌ Email count: 40/100 SENT, 60 NOT SENT\n✅ Celery: ONLINE\n⚠️ PDF count: 80/100\n".to_string())
    );
    assert!(compose_mail_body(&results, true).unwrap().starts_with("THIS IS A TEST\n\n❌ Email count"));
}

#[test]
fn mail_subject_marks_test_mode() {
    assert_eq!(mail_subject(false), "🚨  EMERGENCY | Issue with app");
    assert_eq!(mail_subject(true), "🚨 THIS IS A TEST -  EMERGENCY | Issue with app");
}

#[test]
fn email_only_on_alert_and_exactly_once() {
    let calm = vec![
        (result(Metric::PdfCount, Status::Warning, "", Value::Count(1)), String::new()),
        (result(Metric::Celery, Status::Healthy, "", Value::Bool(true)), String::new()),
    ];
    assert!(!needs_alert(&calm));
    assert_eq!(delivery_actions(&calm, false), vec![Action::PostChat, Action::SaveRecord]);
    let urgent = vec![
        (result(Metric::PdfCount, Status::Alert, "", Value::Count(1)), String::new()),
        (result(Metric::Celery, Status::Alert, "", Value::Bool(false)), String::new()),
    ];
    assert!(needs_alert(&urgent));
    let actions = delivery_actions(&urgent, false);
    assert_eq!(actions, vec![Action::PostChat, Action::SendEmail, Action::SaveRecord]);
    assert_eq!(actions.iter().filter(|a| **a == Action::SendEmail).count(), 1);
    assert_eq!(delivery_actions(&urgent, true), vec![Action::PostChat, Action::SendEmail]);
}

#[test]
fn requests_use_basic_auth_for_the_queue_only() {
    let urls = vec![
        ("payments".to_string(), "https://p".to_string()),
        ("celery".to_string(), "https://c".to_string()),
    ];
    let plan = plan_requests(&urls, "Token abc", "user", "pass", false);
    assert_eq!(plan.len(), 2);
    assert_eq!(plan[0].key, "payments");
    assert_eq!(plan[0].url, "https://p");
    assert_eq!(plan[0].authorization, "Token abc");
    assert!(!plan[0].json_content);
    assert_eq!(plan[1].key, "celery");
    assert_eq!(plan[1].authorization, "Basic dXNlcjpwYXNz");
    assert!(plan[1].json_content);
    assert!(plan_requests(&urls, "Token abc", "user", "pass", true).is_empty());
}

#[test]
fn text_helpers() {
    let mut s = String::from("n=");
    push_decimal(&mut s, 0);
    push_decimal(&mut s, 4096);
    assert_eq!(s, "n=04096");
    let mut t = String::new();
    push_without_backticks(&mut t, "`a` b`");
    assert_eq!(t, "a b");
    assert!(has_text("Worker Online", "Online"));
    assert!(!has_text("Onlin", "Online"));
    assert!(has_text("abc", ""));
}

#[test]
fn no_mail_body_without_alert() {
    let results = vec![
        (result(Metric::Celery, Status::Healthy, "`ONLINE`", Value::Bool(true)), String::new()),
        (result(Metric::PdfCount, Status::Warning, "`80/100`", Value::Count(80)), String::new()),
    ];
    assert_eq!(compose_mail_body(&results, false), None);
    assert_eq!(compose_mail_body(&results, true), None);
}
