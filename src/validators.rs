//! Classification of the extracted metrics against the threshold policy.
use crate::parser::{extracted_from, page_for, EmailStatuses, PageResults, PaymentStatuses, VoucherStatuses};
use crate::requests::Page;
use crate::text::{decimal, push_decimal};
use chrono::{Timelike, Utc};
use chrono_tz::Europe::Paris;
use vstd::prelude::*;

verus! {

/// Severity of one classified metric.
#[derive(Clone, Copy, Debug, PartialEq, Eq, Structural)]
pub enum Status {
    Healthy,
    Warning,
    Alert,
}

/// The comparable value of a metric, kept for trend detection.
#[derive(Clone, Copy, Debug, PartialEq, Eq, Structural)]
pub enum Value {
    Count(usize),
    Bool(bool),
}

/// The monitored metrics, in report order.
#[derive(Clone, Copy, Debug, PartialEq, Eq, Structural)]
pub enum Metric {
    ValidatedPayments,
    PaidVouchers,
    PdfCount,
    EmailCount,
    PurchaseWebsite,
    Celery,
}

/// One classified metric.
pub struct UnitValidationResult {
    pub metric: Metric,
    pub status: Status,
    pub message: String,
    pub value: Value,
}

/// The mathematical content of a `UnitValidationResult`.
pub struct OutcomeView {
    pub metric: Metric,
    pub status: Status,
    pub message: Seq<char>,
    pub value: Value,
}

impl View for UnitValidationResult {
    type V = OutcomeView;

    open spec fn view(&self) -> OutcomeView {
        OutcomeView { metric: self.metric, status: self.status, message: self.message@, value: self.value }
    }
}

/// Threshold, in percent, that applies during the day.
pub const DAY_THRESHOLD: usize = 75;

/// Threshold, in percent, that applies at night.
pub const NIGHT_THRESHOLD: usize = 50;

pub open spec fn metric_name(m: Metric) -> Seq<char> {
    match m {
        Metric::ValidatedPayments => "Validated payments"@,
        Metric::PaidVouchers => "Paid vouchers"@,
        Metric::PdfCount => "PDF count"@,
        Metric::EmailCount => "Email count"@,
        Metric::PurchaseWebsite => "Purchase website"@,
        Metric::Celery => "Celery"@,
    }
}

pub open spec fn value_text(v: Value) -> Seq<char> {
    match v {
        Value::Count(n) => decimal(n as nat),
        Value::Bool(b) => if b { "true"@ } else { "false"@ },
    }
}

impl Metric {
    /// The display name of the metric.
    pub fn name(self) -> (r: String)
        ensures
            r@ == metric_name(self),
    {
        match self {
            Metric::ValidatedPayments => String::from_str("Validated payments"),
            Metric::PaidVouchers => String::from_str("Paid vouchers"),
            Metric::PdfCount => String::from_str("PDF count"),
            Metric::EmailCount => String::from_str("Email count"),
            Metric::PurchaseWebsite => String::from_str("Purchase website"),
            Metric::Celery => String::from_str("Celery"),
        }
    }
}

impl Value {
    /// The value as text: the count in decimal, or `true` / `false`.
    pub fn to_text(self) -> (r: String)
        ensures
            r@ == value_text(self),
    {
        match self {
            Value::Count(n) => {
                let mut s = String::new();
                push_decimal(&mut s, n);
                assert(s@ =~= decimal(n as nat));
                s
            },
            Value::Bool(b) => if b {
                String::from_str("true")
            } else {
                String::from_str("false")
            },
        }
    }
}

impl UnitValidationResult {
    /// The display name of the classified metric.
    pub fn name(&self) -> (r: String)
        ensures
            r@ == metric_name(self.metric),
    {
        self.metric.name()
    }
}

/// The message of a metric that has no basis for classification.
pub open spec fn not_available_message() -> Seq<char> {
    "`NOT AVAILABLE`"@
}

/// Absolute count judged against a known maximum: at least 85% of it is
/// fine, at least `threshold`% of it is a warning.
pub open spec fn count_status(count: nat, max: nat, threshold: nat) -> Status {
    if max == 0 {
        Status::Alert
    } else if count >= 85 * max / 100 {
        Status::Healthy
    } else if count >= threshold * max / 100 {
        Status::Warning
    } else {
        Status::Alert
    }
}

/// Validated payments judged against the expected total: at least 85% of
/// it is fine, more than `threshold`% of it is a warning.
pub open spec fn payment_status(validated: nat, expected: nat, threshold: nat) -> Status {
    if expected == 0 {
        Status::Alert
    } else if validated >= 85 * expected / 100 {
        Status::Healthy
    } else if validated > threshold * expected / 100 {
        Status::Warning
    } else {
        Status::Alert
    }
}

/// A share of a whole: exactly all of it is fine, more than `threshold`
/// percent is a warning, anything less, or an empty whole, is an alert.
pub open spec fn percentage_status(part: nat, whole: nat, threshold: nat) -> Status {
    if whole == 0 {
        Status::Alert
    } else if part == whole {
        Status::Healthy
    } else if part * 100 > threshold * whole {
        Status::Warning
    } else {
        Status::Alert
    }
}

/// Expected number of validated payments: one hundred, less the grouped
/// ones; zero when there are a hundred grouped payments or more.
pub open spec fn expected_payments(group: nat) -> nat {
    if group < 100 { (100 - group) as nat } else { 0 }
}

pub open spec fn payment_message(s: PaymentStatuses, expected: nat) -> Seq<char> {
    "`"@ + decimal(s.validated as nat) + "/"@ + decimal(expected) + " VALIDATED` `"@ + decimal(
        s.to_validate as nat,
    ) + " TO VALIDATE` `"@ + decimal(s.error as nat) + " ERROR` `"@ + decimal(s.threed_secure as nat)
        + " 3D SECURE` `"@ + decimal(s.cancelled as nat) + " CANCELLED` `"@ + decimal(s.group as nat)
        + " GROUP`"@
}

pub open spec fn voucher_message(v: VoucherStatuses, max: nat) -> Seq<char> {
    "`"@ + decimal(v.paid as nat) + "/"@ + decimal(max) + " PAID`, `"@ + decimal(v.error as nat)
        + " ERROR`, `"@ + decimal(v.other as nat) + " OTHER`"@
}

pub open spec fn email_message(e: EmailStatuses, max: nat) -> Seq<char> {
    "`"@ + decimal(e.sent as nat) + "/"@ + decimal(max) + " SENT`, `"@ + decimal(e.not_sent as nat)
        + " NOT SENT`, `"@ + decimal(e.bulk as nat) + " BULK`"@
}

pub open spec fn pdf_message(count: nat, max: nat) -> Seq<char> {
    "`"@ + decimal(count) + "/"@ + decimal(max) + "`"@
}

/// Outcome of the validated-payments metric.
pub open spec fn payments_outcome(available: bool, s: PaymentStatuses, threshold: nat) -> OutcomeView {
    let expected = expected_payments(s.group as nat);
    if !available || expected == 0 {
        OutcomeView {
            metric: Metric::ValidatedPayments,
            status: Status::Alert,
            message: not_available_message(),
            value: Value::Count(s.validated),
        }
    } else {
        OutcomeView {
            metric: Metric::ValidatedPayments,
            status: payment_status(s.validated as nat, expected, threshold),
            message: payment_message(s, expected),
            value: Value::Count(s.validated),
        }
    }
}

/// Outcome of the paid-vouchers metric, judged against the number of
/// vouchers that were not imported.
pub open spec fn vouchers_outcome(available: bool, v: VoucherStatuses, max: nat, threshold: nat) -> OutcomeView {
    if !available || max == 0 {
        OutcomeView {
            metric: Metric::PaidVouchers,
            status: Status::Alert,
            message: not_available_message(),
            value: Value::Count(v.paid),
        }
    } else {
        OutcomeView {
            metric: Metric::PaidVouchers,
            status: percentage_status(v.paid as nat, max, threshold),
            message: voucher_message(v, max),
            value: Value::Count(v.paid),
        }
    }
}

/// Outcome of the PDF metric, judged against the number of vouchers that
/// were not imported.
pub open spec fn pdf_outcome(available: bool, count: nat, max: nat, threshold: nat) -> OutcomeView {
    if !available || max == 0 {
        OutcomeView {
            metric: Metric::PdfCount,
            status: Status::Alert,
            message: not_available_message(),
            value: Value::Count(count as usize),
        }
    } else {
        OutcomeView {
            metric: Metric::PdfCount,
            status: count_status(count, max, threshold),
            message: pdf_message(count, max),
            value: Value::Count(count as usize),
        }
    }
}

/// Outcome of the email metric, judged against the number of vouchers that
/// were not imported.
pub open spec fn email_outcome(available: bool, e: EmailStatuses, max: nat, threshold: nat) -> OutcomeView {
    if !available || max == 0 {
        OutcomeView {
            metric: Metric::EmailCount,
            status: Status::Alert,
            message: not_available_message(),
            value: Value::Count(e.sent),
        }
    } else {
        OutcomeView {
            metric: Metric::EmailCount,
            status: percentage_status(e.sent as nat, max, threshold),
            message: email_message(e, max),
            value: Value::Count(e.sent),
        }
    }
}

/// Outcome of the purchase-website check.
pub open spec fn website_outcome(available: bool, online: bool) -> OutcomeView {
    OutcomeView {
        metric: Metric::PurchaseWebsite,
        status: if available && online { Status::Healthy } else { Status::Alert },
        message: if !available {
            not_available_message()
        } else if online {
            "`ONLINE`"@
        } else {
            "`DOWN`"@
        },
        value: Value::Bool(available && online),
    }
}

/// Outcome of the worker-queue check.
pub open spec fn celery_outcome(available: bool, online: bool) -> OutcomeView {
    OutcomeView {
        metric: Metric::Celery,
        status: if available && online { Status::Healthy } else { Status::Alert },
        message: if !available {
            not_available_message()
        } else if online {
            "`ONLINE`"@
        } else {
            "Celery status: `OFFLINE`"@
        },
        value: Value::Bool(available && online),
    }
}

/// The six outcomes of a run with the source address of each, in report
/// order.
pub open spec fn expected_report(p: PageResults, threshold: nat) -> Seq<(OutcomeView, Seq<char>)> {
    seq![
        (payments_outcome(p.has_payments, p.validated_payments_count, threshold), p.url_validated_payments@),
        (
            vouchers_outcome(
                p.has_vouchers && p.has_paid_vouchers,
                p.paid_vouchers_count,
                p.not_imported_count as nat,
                threshold,
            ),
            p.url_vouchers_count@,
        ),
        (pdf_outcome(p.has_paid_vouchers, p.pdf_count as nat, p.not_imported_count as nat, threshold), p.url_pdf_count@),
        (
            email_outcome(p.has_paid_vouchers, p.email_check_count, p.not_imported_count as nat, threshold),
            p.url_email_check_count@,
        ),
        (website_outcome(p.has_website, p.is_website_online), p.url_website@),
        (celery_outcome(p.has_celery, p.is_celery_online), p.url_celery@),
    ]
}

pub open spec fn report_view(r: Seq<(UnitValidationResult, String)>) -> Seq<(OutcomeView, Seq<char>)> {
    r.map_values(|e: (UnitValidationResult, String)| (e.0@, e.1@))
}

/// The threshold in force at `hour`: the day value from 8 h to 22 h
/// included, the night value otherwise.
pub open spec fn threshold_for(hour: nat, day: nat, night: nat) -> nat {
    if 8 <= hour && hour < 23 { day } else { night }
}

/// Relies on chrono's `Utc::now`, `DateTime::with_timezone` and
/// `Timelike::hour`, with chrono-tz's `Europe::Paris`: the current hour of
/// the day in Paris, between 0 and 23.
#[verifier::external_body]
fn paris_hour() -> (r: u32)
    ensures
        r < 24,
{
    Utc::now().with_timezone(&Paris).hour()
}

/// Picks the day or the night threshold for the given hour of the day.
pub fn threshold_for_hour(hour: u32, threshold_day: usize, threshold_night: usize) -> (r: usize)
    ensures
        r == threshold_for(hour as nat, threshold_day as nat, threshold_night as nat),
{
    if hour >= 8 && hour < 23 {
        threshold_day
    } else {
        threshold_night
    }
}

fn get_threshold(threshold_day: usize, threshold_night: usize) -> (r: usize)
    ensures
        exists|h: nat| h < 24 && r == threshold_for(h, threshold_day as nat, threshold_night as nat),
{
    let hour = paris_hour();
    threshold_for_hour(hour, threshold_day, threshold_night)
}

/// `a * b`, exactly, in a type wide enough for any two `usize` values.
fn wide_product(a: usize, b: usize) -> (r: u128)
    ensures
        r == a * b,
{
    let wide_a = a as u128;
    let wide_b = b as u128;
    assert(wide_a * wide_b <= 0xffff_ffff_ffff_ffffu128 * 0xffff_ffff_ffff_ffffu128) by (nonlinear_arith)
        requires
            wide_a <= 0xffff_ffff_ffff_ffffu128,
            wide_b <= 0xffff_ffff_ffff_ffffu128,
    ;
    wide_a * wide_b
}

/// `a * b / 100`, exactly.
fn percent_of(a: usize, b: usize) -> (r: u128)
    ensures
        r == a * b / 100,
{
    wide_product(a, b) / 100
}

fn count_status_of(count: usize, max: usize, threshold: usize) -> (r: Status)
    ensures
        r == count_status(count as nat, max as nat, threshold as nat),
{
    if max == 0 {
        Status::Alert
    } else if count as u128 >= percent_of(85, max) {
        Status::Healthy
    } else if count as u128 >= percent_of(threshold, max) {
        Status::Warning
    } else {
        Status::Alert
    }
}

fn payment_status_of(validated: usize, expected: usize, threshold: usize) -> (r: Status)
    ensures
        r == payment_status(validated as nat, expected as nat, threshold as nat),
{
    if expected == 0 {
        Status::Alert
    } else if validated as u128 >= percent_of(85, expected) {
        Status::Healthy
    } else if validated as u128 > percent_of(threshold, expected) {
        Status::Warning
    } else {
        Status::Alert
    }
}

fn percentage_status_of(part: usize, whole: usize, threshold: usize) -> (r: Status)
    ensures
        r == percentage_status(part as nat, whole as nat, threshold as nat),
{
    if whole == 0 {
        Status::Alert
    } else if part == whole {
        Status::Healthy
    } else if wide_product(part, 100) > wide_product(threshold, whole) {
        Status::Warning
    } else {
        Status::Alert
    }
}

fn payment_text(s: PaymentStatuses, expected: usize) -> (r: String)
    ensures
        r@ == payment_message(s, expected as nat),
{
    let mut m = String::from_str("`");
    push_decimal(&mut m, s.validated);
    m.append("/");
    push_decimal(&mut m, expected);
    m.append(" VALIDATED` `");
    push_decimal(&mut m, s.to_validate);
    m.append(" TO VALIDATE` `");
    push_decimal(&mut m, s.error);
    m.append(" ERROR` `");
    push_decimal(&mut m, s.threed_secure);
    m.append(" 3D SECURE` `");
    push_decimal(&mut m, s.cancelled);
    m.append(" CANCELLED` `");
    push_decimal(&mut m, s.group);
    m.append(" GROUP`");
    m
}

fn voucher_text(v: VoucherStatuses, max: usize) -> (r: String)
    ensures
        r@ == voucher_message(v, max as nat),
{
    let mut m = String::from_str("`");
    push_decimal(&mut m, v.paid);
    m.append("/");
    push_decimal(&mut m, max);
    m.append(" PAID`, `");
    push_decimal(&mut m, v.error);
    m.append(" ERROR`, `");
    push_decimal(&mut m, v.other);
    m.append(" OTHER`");
    m
}

fn email_text(e: EmailStatuses, max: usize) -> (r: String)
    ensures
        r@ == email_message(e, max as nat),
{
    let mut m = String::from_str("`");
    push_decimal(&mut m, e.sent);
    m.append("/");
    push_decimal(&mut m, max);
    m.append(" SENT`, `");
    push_decimal(&mut m, e.not_sent);
    m.append(" NOT SENT`, `");
    push_decimal(&mut m, e.bulk);
    m.append(" BULK`");
    m
}

fn pdf_text(count: usize, max: usize) -> (r: String)
    ensures
        r@ == pdf_message(count as nat, max as nat),
{
    let mut m = String::from_str("`");
    push_decimal(&mut m, count);
    m.append("/");
    push_decimal(&mut m, max);
    m.append("`");
    m
}

/// Judges the PDF count against the number of vouchers not imported; an
/// unavailable page or a zero maximum is an alert marked not available.
pub fn validate_pdf_count(threshold: usize, pdf_count: usize, max_possible_count: usize, available: bool) -> (r:
    UnitValidationResult)
    ensures
        r@ == pdf_outcome(available, pdf_count as nat, max_possible_count as nat, threshold as nat),
{
    if !available || max_possible_count == 0 {
        UnitValidationResult {
            metric: Metric::PdfCount,
            status: Status::Alert,
            message: String::from_str("`NOT AVAILABLE`"),
            value: Value::Count(pdf_count),
        }
    } else {
        UnitValidationResult {
            metric: Metric::PdfCount,
            status: count_status_of(pdf_count, max_possible_count, threshold),
            message: pdf_text(pdf_count, max_possible_count),
            value: Value::Count(pdf_count),
        }
    }
}

/// Judges the validated payments against one hundred less the grouped
/// ones; an unavailable page or no expected payment is an alert marked not
/// available.
pub fn validate_payment_status(threshold: usize, statuses: PaymentStatuses, available: bool) -> (r:
    UnitValidationResult)
    ensures
        r@ == payments_outcome(available, statuses, threshold as nat),
{
    let expected: usize = if statuses.group < 100 {
        100 - statuses.group
    } else {
        0
    };
    if !available || expected == 0 {
        UnitValidationResult {
            metric: Metric::ValidatedPayments,
            status: Status::Alert,
            message: String::from_str("`NOT AVAILABLE`"),
            value: Value::Count(statuses.validated),
        }
    } else {
        UnitValidationResult {
            metric: Metric::ValidatedPayments,
            status: payment_status_of(statuses.validated, expected, threshold),
            message: payment_text(statuses, expected),
            value: Value::Count(statuses.validated),
        }
    }
}

/// Judges the share of paid vouchers; an unavailable page or a zero
/// denominator is an alert marked not available.
pub fn validate_voucher_status(
    threshold: usize,
    vouchers: VoucherStatuses,
    max_possible_value: usize,
    available: bool,
) -> (r: UnitValidationResult)
    ensures
        r@ == vouchers_outcome(available, vouchers, max_possible_value as nat, threshold as nat),
{
    if !available || max_possible_value == 0 {
        UnitValidationResult {
            metric: Metric::PaidVouchers,
            status: Status::Alert,
            message: String::from_str("`NOT AVAILABLE`"),
            value: Value::Count(vouchers.paid),
        }
    } else {
        UnitValidationResult {
            metric: Metric::PaidVouchers,
            status: percentage_status_of(vouchers.paid, max_possible_value, threshold),
            message: voucher_text(vouchers, max_possible_value),
            value: Value::Count(vouchers.paid),
        }
    }
}

/// Judges the share of sent emails; an unavailable page or a zero
/// denominator is an alert marked not available.
pub fn validate_email_status(
    threshold: usize,
    statuses: EmailStatuses,
    max_possible_value: usize,
    available: bool,
) -> (r: UnitValidationResult)
    ensures
        r@ == email_outcome(available, statuses, max_possible_value as nat, threshold as nat),
{
    if !available || max_possible_value == 0 {
        UnitValidationResult {
            metric: Metric::EmailCount,
            status: Status::Alert,
            message: String::from_str("`NOT AVAILABLE`"),
            value: Value::Count(statuses.sent),
        }
    } else {
        UnitValidationResult {
            metric: Metric::EmailCount,
            status: percentage_status_of(statuses.sent, max_possible_value, threshold),
            message: email_text(statuses, max_possible_value),
            value: Value::Count(statuses.sent),
        }
    }
}

/// Judges the purchase website check.
pub fn validate_purchase_website_status(is_ok: bool, available: bool) -> (r: UnitValidationResult)
    ensures
        r@ == website_outcome(available, is_ok),
{
    if !available {
        UnitValidationResult {
            metric: Metric::PurchaseWebsite,
            status: Status::Alert,
            message: String::from_str("`NOT AVAILABLE`"),
            value: Value::Bool(false),
        }
    } else if is_ok {
        UnitValidationResult {
            metric: Metric::PurchaseWebsite,
            status: Status::Healthy,
            message: String::from_str("`ONLINE`"),
            value: Value::Bool(true),
        }
    } else {
        UnitValidationResult {
            metric: Metric::PurchaseWebsite,
            status: Status::Alert,
            message: String::from_str("`DOWN`"),
            value: Value::Bool(false),
        }
    }
}

/// Judges the worker-queue check.
pub fn validate_celery_statuses(is_online: bool, available: bool) -> (r: UnitValidationResult)
    ensures
        r@ == celery_outcome(available, is_online),
{
    if !available {
        UnitValidationResult {
            metric: Metric::Celery,
            status: Status::Alert,
            message: String::from_str("`NOT AVAILABLE`"),
            value: Value::Bool(false),
        }
    } else if is_online {
        UnitValidationResult {
            metric: Metric::Celery,
            status: Status::Healthy,
            message: String::from_str("`ONLINE`"),
            value: Value::Bool(true),
        }
    } else {
        UnitValidationResult {
            metric: Metric::Celery,
            status: Status::Alert,
            message: String::from_str("Celery status: `OFFLINE`"),
            value: Value::Bool(false),
        }
    }
}

/// Classifies every metric of `pages` under the given threshold, in report
/// order, each with the address of its source page.
pub fn validate_with_threshold(pages: &PageResults, threshold: usize) -> (r: Vec<(UnitValidationResult, String)>)
    ensures
        report_view(r@) == expected_report(*pages, threshold as nat),
{
    let mut r: Vec<(UnitValidationResult, String)> = Vec::new();
    r.push(
        (
            validate_payment_status(threshold, pages.validated_payments_count, pages.has_payments),
            pages.url_validated_payments.clone(),
        ),
    );
    r.push(
        (
            validate_voucher_status(
                threshold,
                pages.paid_vouchers_count,
                pages.not_imported_count,
                pages.has_vouchers && pages.has_paid_vouchers,
            ),
            pages.url_vouchers_count.clone(),
        ),
    );
    r.push(
        (
            validate_pdf_count(threshold, pages.pdf_count, pages.not_imported_count, pages.has_paid_vouchers),
            pages.url_pdf_count.clone(),
        ),
    );
    r.push(
        (
            validate_email_status(
                threshold,
                pages.email_check_count,
                pages.not_imported_count,
                pages.has_paid_vouchers,
            ),
            pages.url_email_check_count.clone(),
        ),
    );
    r.push(
        (
            validate_purchase_website_status(pages.is_website_online, pages.has_website),
            pages.url_website.clone(),
        ),
    );
    r.push((validate_celery_statuses(pages.is_celery_online, pages.has_celery), pages.url_celery.clone()));
    assert(report_view(r@) =~= expected_report(*pages, threshold as nat));
    r
}

/// Classifies every metric of `pages` under the threshold in force now in
/// Paris: the day threshold from 8 h to 22 h, the night one otherwise.
pub fn validate(pages: &PageResults) -> (r: Vec<(UnitValidationResult, String)>)
    ensures
        exists|h: nat|
            h < 24 && report_view(r@) == expected_report(
                *pages,
                threshold_for(h, DAY_THRESHOLD as nat, NIGHT_THRESHOLD as nat),
            ),
{
    let threshold = get_threshold(DAY_THRESHOLD, NIGHT_THRESHOLD);
    validate_with_threshold(pages, threshold)
}

/// An alert that says the metric could not be judged.
pub open spec fn unavailable(o: OutcomeView) -> bool {
    o.status == Status::Alert && o.message == not_available_message()
}

/// A source page missing from what was retrieved makes every metric that
/// depends on it an alert that says it is not available.
pub proof fn lemma_missing_page_alerts(pages: Seq<(String, Page)>, r: PageResults, threshold: nat)
    requires
        extracted_from(r, pages, false),
    ensures
        page_for(pages, "payments"@) is None ==> unavailable(expected_report(r, threshold)[0].0),
        page_for(pages, "vouchers"@) is None ==> unavailable(expected_report(r, threshold)[1].0),
        page_for(pages, "paid_vouchers"@) is None ==> {
            &&& unavailable(expected_report(r, threshold)[1].0)
            &&& unavailable(expected_report(r, threshold)[2].0)
            &&& unavailable(expected_report(r, threshold)[3].0)
        },
        page_for(pages, "purchase_website"@) is None ==> unavailable(expected_report(r, threshold)[4].0),
        page_for(pages, "celery"@) is None ==> unavailable(expected_report(r, threshold)[5].0),
{
}

/// A zero denominator gives an alert, and never a division.
pub proof fn lemma_zero_denominator_alerts(
    available: bool,
    part: nat,
    threshold: nat,
    vouchers: VoucherStatuses,
    emails: EmailStatuses,
)
    ensures
        percentage_status(part, 0, threshold) == Status::Alert,
        count_status(part, 0, threshold) == Status::Alert,
        payment_status(part, 0, threshold) == Status::Alert,
        unavailable(vouchers_outcome(available, vouchers, 0, threshold)),
        unavailable(email_outcome(available, emails, 0, threshold)),
        unavailable(pdf_outcome(available, part, 0, threshold)),
{
}

/// Classifying the same snapshot under the same threshold twice gives the
/// same outcomes.
pub proof fn lemma_classification_repeatable(
    pages: PageResults,
    threshold: nat,
    first: Seq<(UnitValidationResult, String)>,
    second: Seq<(UnitValidationResult, String)>,
)
    requires
        report_view(first) == expected_report(pages, threshold),
        report_view(second) == expected_report(pages, threshold),
    ensures
        report_view(first) == report_view(second),
{
}

} // verus!
