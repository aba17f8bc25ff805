//! The persisted record of a run, the baseline of the next run's trends.
use crate::parser::PageResults;
use crate::validators::{Metric, Value};
use vstd::prelude::*;

verus! {

/// One stored run: its main counts, the website check, and whether the
/// chat message and the alert email went out.
pub struct LogEntry {
    pub id: Option<i32>,
    pub payments: i32,
    pub vouchers: i32,
    pub pdf_count: i32,
    pub email_count: i32,
    pub website_ok: bool,
    pub slack_sent: bool,
    pub email_sent: bool,
    pub datetime: Option<String>,
}

/// A count as stored: capped at the largest `i32`.
pub open spec fn stored_count(n: nat) -> i32 {
    if n <= i32::MAX { n as i32 } else { i32::MAX }
}

/// A stored count read back; a negative value reads as zero.
pub open spec fn read_count(v: i32) -> usize {
    if v >= 0 { v as usize } else { 0 }
}

/// The value of `metric` recorded in `entry`; `None` for a metric that the
/// record does not hold.
pub open spec fn recorded_value(metric: Metric, entry: LogEntry) -> Option<Value> {
    match metric {
        Metric::ValidatedPayments => Some(Value::Count(read_count(entry.payments))),
        Metric::PaidVouchers => Some(Value::Count(read_count(entry.vouchers))),
        Metric::PdfCount => Some(Value::Count(read_count(entry.pdf_count))),
        Metric::EmailCount => Some(Value::Count(read_count(entry.email_count))),
        Metric::PurchaseWebsite => Some(Value::Bool(entry.website_ok)),
        Metric::Celery => None,
    }
}

fn to_stored(n: usize) -> (r: i32)
    ensures
        r == stored_count(n as nat),
{
    if n <= 0x7fff_ffff {
        n as i32
    } else {
        0x7fff_ffff
    }
}

fn from_stored(v: i32) -> (r: usize)
    ensures
        r == read_count(v),
{
    if v >= 0 {
        v as usize
    } else {
        0
    }
}

/// Builds the record of a run from its snapshot and delivery outcomes; the
/// store assigns the id and the time.
pub fn create_log(page_results: &PageResults, is_slack_message_sent: bool, is_email_sent: bool) -> (r:
    LogEntry)
    ensures
        r.id is None,
        r.payments == stored_count(page_results.validated_payments_count.validated as nat),
        r.vouchers == stored_count(page_results.paid_vouchers_count.paid as nat),
        r.pdf_count == stored_count(page_results.pdf_count as nat),
        r.email_count == stored_count(page_results.email_check_count.sent as nat),
        r.website_ok == page_results.is_website_online,
        r.slack_sent == is_slack_message_sent,
        r.email_sent == is_email_sent,
        r.datetime is None,
{
    LogEntry {
        id: None,
        payments: to_stored(page_results.validated_payments_count.validated),
        vouchers: to_stored(page_results.paid_vouchers_count.paid),
        pdf_count: to_stored(page_results.pdf_count),
        email_count: to_stored(page_results.email_check_count.sent),
        website_ok: page_results.is_website_online,
        slack_sent: is_slack_message_sent,
        email_sent: is_email_sent,
        datetime: None,
    }
}

/// The value of `metric` in a stored run, for trend comparison.
pub fn get_corresponding_value(metric: Metric, log_entry: &LogEntry) -> (r: Option<Value>)
    ensures
        r == recorded_value(metric, *log_entry),
{
    match metric {
        Metric::ValidatedPayments => Some(Value::Count(from_stored(log_entry.payments))),
        Metric::PaidVouchers => Some(Value::Count(from_stored(log_entry.vouchers))),
        Metric::PdfCount => Some(Value::Count(from_stored(log_entry.pdf_count))),
        Metric::EmailCount => Some(Value::Count(from_stored(log_entry.email_count))),
        Metric::PurchaseWebsite => Some(Value::Bool(log_entry.website_ok)),
        Metric::Celery => None,
    }
}

} // verus!
