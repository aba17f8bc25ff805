//! Extraction of typed metrics from the markup of the monitored pages.
use crate::html::{
    opt_text, row_texts, select_inner_html, select_row_cells, selected_html, selected_row_cells, texts,
    trim_text, trimmed,
};
use crate::requests::Page;
use crate::text::{contains_text, has_text};
use vstd::prelude::*;

verus! {

/// Delivery states of the notification emails.
#[derive(Clone, Copy, Debug, PartialEq, Eq, Structural)]
pub struct EmailStatuses {
    pub sent: usize,
    pub not_sent: usize,
    pub bulk: usize,
}

/// Validation states of the payments; `group` counts the rows whose product
/// code already appeared on an earlier row.
#[derive(Clone, Copy, Debug, PartialEq, Eq, Structural)]
pub struct PaymentStatuses {
    pub validated: usize,
    pub to_validate: usize,
    pub threed_secure: usize,
    pub cancelled: usize,
    pub error: usize,
    pub group: usize,
}

/// Payment states of the vouchers.
#[derive(Clone, Copy, Debug, PartialEq, Eq, Structural)]
pub struct VoucherStatuses {
    pub paid: usize,
    pub error: usize,
    pub other: usize,
}

/// How the payments were split.
#[derive(Clone, Copy, Debug, PartialEq, Eq, Structural)]
pub struct PaymentTypes {
    pub individual: usize,
    pub group: usize,
}

/// Everything extracted in one run. The `has_*` flags tell whether the
/// source page of a group of fields was available; where it was not, the
/// fields keep their zero or `false` defaults.
pub struct PageResults {
    pub validated_payments_count: PaymentStatuses,
    pub payment_types_count: PaymentTypes,
    pub paid_vouchers_count: VoucherStatuses,
    pub not_imported_count: usize,
    pub pdf_count: usize,
    pub email_check_count: EmailStatuses,
    pub is_website_online: bool,
    pub url_validated_payments: String,
    pub url_vouchers_count: String,
    pub url_pdf_count: String,
    pub url_email_check_count: String,
    pub url_website: String,
    pub url_celery: String,
    pub is_celery_online: bool,
    pub has_payments: bool,
    pub has_vouchers: bool,
    pub has_paid_vouchers: bool,
    pub has_website: bool,
    pub has_celery: bool,
}

pub open spec fn no_payments() -> PaymentStatuses {
    PaymentStatuses { validated: 0, to_validate: 0, threed_secure: 0, cancelled: 0, error: 0, group: 0 }
}

pub open spec fn payment_total(p: PaymentStatuses) -> int {
    p.validated + p.to_validate + p.threed_secure + p.cancelled + p.error + p.group
}

/// Number of cells whose text is `target`.
pub open spec fn count_equal(cells: Seq<Seq<char>>, target: Seq<char>) -> nat
    decreases cells.len(),
{
    if cells.len() == 0 {
        0
    } else {
        count_equal(cells.drop_last(), target) + if cells.last() == target { 1nat } else { 0nat }
    }
}

/// Number of cells whose text is neither `a` nor `b`.
pub open spec fn count_other(cells: Seq<Seq<char>>, a: Seq<char>, b: Seq<char>) -> nat
    decreases cells.len(),
{
    if cells.len() == 0 {
        0
    } else {
        count_other(cells.drop_last(), a, b) + if cells.last() != a && cells.last() != b {
            1nat
        } else {
            0nat
        }
    }
}

pub open spec fn trim_all(cells: Seq<Seq<char>>) -> Seq<Seq<char>> {
    cells.map_values(|c: Seq<char>| trimmed(c))
}

pub open spec fn trim_opt(c: Option<Seq<char>>) -> Option<Seq<char>> {
    match c {
        Some(t) => Some(trimmed(t)),
        None => None,
    }
}

pub open spec fn trim_rows(rows: Seq<(Option<Seq<char>>, Option<Seq<char>>)>) -> Seq<(Option<Seq<char>>, Option<Seq<char>>)> {
    rows.map_values(|r: (Option<Seq<char>>, Option<Seq<char>>)| (trim_opt(r.0), trim_opt(r.1)))
}

/// Number of selected cells whose trimmed text is `target`; zero when the
/// cells could not be selected.
pub open spec fn count_selected(cells: Option<Seq<Seq<char>>>, target: Seq<char>) -> nat {
    match cells {
        Some(c) => count_equal(trim_all(c), target),
        None => 0,
    }
}

/// Voucher states tallied from state texts.
pub open spec fn voucher_tally(states: Seq<Seq<char>>) -> VoucherStatuses {
    VoucherStatuses {
        paid: count_equal(states, "Paid"@) as usize,
        error: count_equal(states, "Error"@) as usize,
        other: count_other(states, "Paid"@, "Error"@) as usize,
    }
}

/// Email states tallied from "sent" texts; unknown texts count nowhere.
pub open spec fn email_tally(cells: Seq<Seq<char>>) -> EmailStatuses {
    EmailStatuses {
        sent: count_equal(cells, "Yes"@) as usize,
        not_sent: count_equal(cells, "No"@) as usize,
        bulk: count_equal(cells, "Bulk"@) as usize,
    }
}

/// Payment splits tallied from split texts; unknown texts count nowhere.
pub open spec fn payment_types_tally(cells: Seq<Seq<char>>) -> PaymentTypes {
    PaymentTypes {
        individual: count_equal(cells, "Individual"@) as usize,
        group: count_equal(cells, "Group"@) as usize,
    }
}

pub open spec fn voucher_statuses_of(cells: Option<Seq<Seq<char>>>) -> VoucherStatuses {
    match cells {
        Some(c) => voucher_tally(trim_all(c)),
        None => VoucherStatuses { paid: 0, error: 0, other: 0 },
    }
}

pub open spec fn email_statuses_of(cells: Option<Seq<Seq<char>>>) -> EmailStatuses {
    match cells {
        Some(c) => email_tally(trim_all(c)),
        None => EmailStatuses { sent: 0, not_sent: 0, bulk: 0 },
    }
}

pub open spec fn payment_types_of(cells: Option<Seq<Seq<char>>>) -> PaymentTypes {
    match cells {
        Some(c) => payment_types_tally(trim_all(c)),
        None => PaymentTypes { individual: 0, group: 0 },
    }
}

/// Product codes of the rows that have both a state and a code.
pub open spec fn complete_codes(rows: Seq<(Option<Seq<char>>, Option<Seq<char>>)>) -> Seq<Seq<char>>
    decreases rows.len(),
{
    if rows.len() == 0 {
        Seq::empty()
    } else {
        let prev = complete_codes(rows.drop_last());
        let last = rows.last();
        if last.0 is Some && last.1 is Some {
            prev.push(last.1->0)
        } else {
            prev
        }
    }
}

/// Counts one payment in the state named by `state`; unknown states count
/// nowhere.
pub open spec fn add_payment_state(p: PaymentStatuses, state: Seq<char>) -> PaymentStatuses {
    if state == "Validated"@ {
        PaymentStatuses { validated: (p.validated + 1) as usize, ..p }
    } else if state == "To validate"@ {
        PaymentStatuses { to_validate: (p.to_validate + 1) as usize, ..p }
    } else if state == "3d secure"@ {
        PaymentStatuses { threed_secure: (p.threed_secure + 1) as usize, ..p }
    } else if state == "Cancelled"@ {
        PaymentStatuses { cancelled: (p.cancelled + 1) as usize, ..p }
    } else if state == "Error"@ {
        PaymentStatuses { error: (p.error + 1) as usize, ..p }
    } else {
        p
    }
}

/// Tally of payment rows (state text, product code text): a row whose code
/// was seen on an earlier complete row counts as grouped; a row missing
/// either cell counts nowhere.
pub open spec fn tally_payments(rows: Seq<(Option<Seq<char>>, Option<Seq<char>>)>) -> PaymentStatuses
    decreases rows.len(),
{
    if rows.len() == 0 {
        no_payments()
    } else {
        let p = tally_payments(rows.drop_last());
        let last = rows.last();
        if last.0 is Some && last.1 is Some {
            if complete_codes(rows.drop_last()).contains(last.1->0) {
                PaymentStatuses { group: (p.group + 1) as usize, ..p }
            } else {
                add_payment_state(p, last.0->0)
            }
        } else {
            p
        }
    }
}

pub open spec fn payment_statuses_of(rows: Option<Seq<(Option<Seq<char>>, Option<Seq<char>>)>>) -> PaymentStatuses {
    match rows {
        Some(r) => tally_payments(trim_rows(r)),
        None => no_payments(),
    }
}

/// Some heading has exactly the expected title.
pub open spec fn website_online_of(cells: Option<Seq<Seq<char>>>) -> bool {
    count_selected(cells, "Nos bons cadeaux - Le QuatriÃ¨me Mur"@) > 0
}

/// Every cell holds `p` somewhere in its markup.
pub open spec fn all_contain(cells: Seq<Seq<char>>, p: Seq<char>) -> bool {
    forall|i: int| 0 <= i < cells.len() ==> contains_text(#[trigger] cells[i], p)
}

/// There is at least one status badge, and every one reads "Online".
pub open spec fn celery_online_of(cells: Option<Seq<Seq<char>>>) -> bool {
    match cells {
        Some(c) => c.len() > 0 && all_contain(c, "Online"@),
        None => false,
    }
}

fn trim_cells(cells: &Vec<String>) -> (r: Vec<String>)
    ensures
        texts(r@) == trim_all(texts(cells@)),
{
    let mut r: Vec<String> = Vec::new();
    let mut i: usize = 0;
    while i < cells.len()
        invariant
            i <= cells.len(),
            texts(r@) == trim_all(texts(cells@)).take(i as int),
        decreases cells.len() - i,
    {
        let t = trim_text(cells[i].as_str());
        let ghost before = r@;
        r.push(t);
        assert(texts(r@) =~= texts(before).push(t@));
        i = i + 1;
        assert(texts(r@) =~= trim_all(texts(cells@)).take(i as int));
    }
    assert(trim_all(texts(cells@)).take(i as int) =~= trim_all(texts(cells@)));
    r
}

fn trim_optional(c: &Option<String>) -> (r: Option<String>)
    ensures
        opt_text(r) == trim_opt(opt_text(*c)),
{
    match c {
        Some(s) => Some(trim_text(s.as_str())),
        None => None,
    }
}

fn trim_row_cells(rows: &Vec<(Option<String>, Option<String>)>) -> (r: Vec<(Option<String>, Option<String>)>)
    ensures
        row_texts(r@) == trim_rows(row_texts(rows@)),
{
    let mut r: Vec<(Option<String>, Option<String>)> = Vec::new();
    let mut i: usize = 0;
    while i < rows.len()
        invariant
            i <= rows.len(),
            row_texts(r@) == trim_rows(row_texts(rows@)).take(i as int),
        decreases rows.len() - i,
    {
        let row = (trim_optional(&rows[i].0), trim_optional(&rows[i].1));
        let ghost before = r@;
        r.push(row);
        assert(row_texts(r@) =~= row_texts(before).push((opt_text(row.0), opt_text(row.1))));
        i = i + 1;
        assert(row_texts(r@) =~= trim_rows(row_texts(rows@)).take(i as int));
    }
    assert(trim_rows(row_texts(rows@)).take(i as int) =~= trim_rows(row_texts(rows@)));
    r
}

/// Number of cells whose text is exactly `target`.
pub fn count_matching(cells: &Vec<String>, target: &str) -> (r: usize)
    ensures
        r == count_equal(texts(cells@), target@),
{
    let goal = String::from_str(target);
    let ghost t = texts(cells@);
    let mut count: usize = 0;
    let mut i: usize = 0;
    while i < cells.len()
        invariant
            t == texts(cells@),
            i <= cells.len(),
            count <= i,
            goal@ == target@,
            count == count_equal(t.take(i as int), target@),
        decreases cells.len() - i,
    {
        assert(t.take(i as int + 1).drop_last() =~= t.take(i as int));
        if cells[i] == goal {
            count = count + 1;
        }
        i = i + 1;
    }
    assert(t.take(i as int) =~= t);
    count
}

/// Tallies voucher state texts into paid, error and other.
pub fn tally_vouchers(states: &Vec<String>) -> (r: VoucherStatuses)
    ensures
        r == voucher_tally(texts(states@)),
{
    proof {
        reveal_strlit("Paid");
        reveal_strlit("Error");
        assert("Paid"@.len() != "Error"@.len());
    }
    let paid_text = String::from_str("Paid");
    let error_text = String::from_str("Error");
    let ghost t = texts(states@);
    let mut r = VoucherStatuses { paid: 0, error: 0, other: 0 };
    let mut i: usize = 0;
    while i < states.len()
        invariant
            t == texts(states@),
            i <= states.len(),
            paid_text@ == "Paid"@,
            error_text@ == "Error"@,
            "Paid"@ != "Error"@,
            r.paid + r.error + r.other <= i,
            r.paid == count_equal(t.take(i as int), "Paid"@),
            r.error == count_equal(t.take(i as int), "Error"@),
            r.other == count_other(t.take(i as int), "Paid"@, "Error"@),
        decreases states.len() - i,
    {
        assert(t.take(i as int + 1).drop_last() =~= t.take(i as int));
        if states[i] == paid_text {
            r.paid = r.paid + 1;
        } else if states[i] == error_text {
            r.error = r.error + 1;
        } else {
            r.other = r.other + 1;
        }
        i = i + 1;
    }
    assert(t.take(i as int) =~= t);
    r
}

/// Tallies "sent" texts into sent ("Yes"), not sent ("No") and bulk.
pub fn tally_emails(cells: &Vec<String>) -> (r: EmailStatuses)
    ensures
        r == email_tally(texts(cells@)),
{
    EmailStatuses {
        sent: count_matching(cells, "Yes"),
        not_sent: count_matching(cells, "No"),
        bulk: count_matching(cells, "Bulk"),
    }
}

/// Tallies payment split texts into individual and group payments.
pub fn tally_payment_types(cells: &Vec<String>) -> (r: PaymentTypes)
    ensures
        r == payment_types_tally(texts(cells@)),
{
    PaymentTypes { individual: count_matching(cells, "Individual"), group: count_matching(cells, "Group") }
}

/// Whether there is at least one cell and every cell reads "Online"
/// somewhere in its text; no cells at all is no sign of health.
pub fn all_online(cells: &Vec<String>) -> (r: bool)
    ensures
        r == (cells@.len() > 0 && all_contain(texts(cells@), "Online"@)),
{
    if cells.len() == 0 {
        return false;
    }
    let ghost t = texts(cells@);
    let mut i: usize = 0;
    while i < cells.len()
        invariant
            t == texts(cells@),
            t.len() == cells.len(),
            i <= cells.len(),
            forall|k: int| 0 <= k < i ==> contains_text(#[trigger] t[k], "Online"@),
        decreases cells.len() - i,
    {
        if !has_text(cells[i].as_str(), "Online") {
            assert(!contains_text(t[i as int], "Online"@));
            assert(!all_contain(t, "Online"@));
            return false;
        }
        i = i + 1;
    }
    true
}

fn contains_string(v: &Vec<String>, s: &String) -> (r: bool)
    ensures
        r == texts(v@).contains(s@),
{
    let ghost t = texts(v@);
    let mut i: usize = 0;
    while i < v.len()
        invariant
            t == texts(v@),
            t.len() == v.len(),
            i <= v.len(),
            forall|k: int| 0 <= k < i ==> t[k] != s@,
        decreases v.len() - i,
    {
        if v[i] == *s {
            assert(t[i as int] == s@);
            return true;
        }
        i = i + 1;
    }
    false
}

/// Tallies payment rows of (state text, product code text). A row whose
/// product code already appeared on an earlier complete row counts as
/// grouped instead of by its state; a row missing either cell counts
/// nowhere.
pub fn tally_payment_rows(rows: &Vec<(Option<String>, Option<String>)>) -> (r: PaymentStatuses)
    ensures
        r == tally_payments(row_texts(rows@)),
{
    let validated_text = String::from_str("Validated");
    let to_validate_text = String::from_str("To validate");
    let threed_secure_text = String::from_str("3d secure");
    let cancelled_text = String::from_str("Cancelled");
    let error_text = String::from_str("Error");
    let ghost rv = row_texts(rows@);
    let mut r = PaymentStatuses {
        validated: 0,
        to_validate: 0,
        threed_secure: 0,
        cancelled: 0,
        error: 0,
        group: 0,
    };
    let mut seen: Vec<String> = Vec::new();
    let mut i: usize = 0;
    while i < rows.len()
        invariant
            rv == row_texts(rows@),
            rv.len() == rows.len(),
            i <= rows.len(),
            validated_text@ == "Validated"@,
            to_validate_text@ == "To validate"@,
            threed_secure_text@ == "3d secure"@,
            cancelled_text@ == "Cancelled"@,
            error_text@ == "Error"@,
            payment_total(r) <= i,
            r == tally_payments(rv.take(i as int)),
            texts(seen@) == complete_codes(rv.take(i as int)),
        decreases rows.len() - i,
    {
        let ghost prefix = rv.take(i as int);
        assert(rv.take(i as int + 1).drop_last() =~= prefix);
        assert(rv.take(i as int + 1).last() == rv[i as int]);
        let row = &rows[i];
        if let Some(state) = &row.0 {
            if let Some(code) = &row.1 {
                if contains_string(&seen, code) {
                    r.group = r.group + 1;
                } else if *state == validated_text {
                    r.validated = r.validated + 1;
                } else if *state == to_validate_text {
                    r.to_validate = r.to_validate + 1;
                } else if *state == threed_secure_text {
                    r.threed_secure = r.threed_secure + 1;
                } else if *state == cancelled_text {
                    r.cancelled = r.cancelled + 1;
                } else if *state == error_text {
                    r.error = r.error + 1;
                }
                let ghost old_seen = seen@;
                seen.push(code.clone());
                assert(texts(seen@) =~= texts(old_seen).push(code@));
            }
        }
        i = i + 1;
    }
    assert(rv.take(i as int) =~= rv);
    r
}

fn count_selected_cells(html: &str, selector: &str, target: &str) -> (r: usize)
    ensures
        r == count_selected(selected_html(html@, selector@), target@),
{
    match select_inner_html(html, selector) {
        Some(cells) => count_matching(&trim_cells(&cells), target),
        None => 0,
    }
}

fn count_vouchers_statuses(html: &str) -> (r: VoucherStatuses)
    ensures
        r == voucher_statuses_of(selected_html(html@, "td.field-state"@)),
{
    match select_inner_html(html, "td.field-state") {
        Some(cells) => tally_vouchers(&trim_cells(&cells)),
        None => VoucherStatuses { paid: 0, error: 0, other: 0 },
    }
}

fn count_pdf(html: &str) -> (r: usize)
    ensures
        r == count_selected(selected_html(html@, "td.field-has_pdf"@), "Yes"@),
{
    count_selected_cells(html, "td.field-has_pdf", "Yes")
}

fn count_email_statuses(html: &str) -> (r: EmailStatuses)
    ensures
        r == email_statuses_of(selected_html(html@, "td.field-_has_been_sent"@)),
{
    match select_inner_html(html, "td.field-_has_been_sent") {
        Some(cells) => tally_emails(&trim_cells(&cells)),
        None => EmailStatuses { sent: 0, not_sent: 0, bulk: 0 },
    }
}

fn count_not_imported(html: &str) -> (r: usize)
    ensures
        r == count_selected(selected_html(html@, "td.field-imported_from"@), "-"@),
{
    count_selected_cells(html, "td.field-imported_from", "-")
}

fn count_payment_types(html: &str) -> (r: PaymentTypes)
    ensures
        r == payment_types_of(selected_html(html@, "td.field-payment_splitting"@)),
{
    match select_inner_html(html, "td.field-payment_splitting") {
        Some(cells) => tally_payment_types(&trim_cells(&cells)),
        None => PaymentTypes { individual: 0, group: 0 },
    }
}

fn has_correct_content(html: &str) -> (r: bool)
    ensures
        r == website_online_of(selected_html(html@, "h1"@)),
{
    count_selected_cells(html, "h1", "Nos bons cadeaux - Le QuatriÃ¨me Mur") > 0
}

fn get_celery_status(html: &str) -> (r: bool)
    ensures
        r == celery_online_of(selected_html(html@, "span.label"@)),
{
    match select_inner_html(html, "span.label") {
        Some(cells) => all_online(&cells),
        None => false,
    }
}

fn count_payment_statuses(html: &str) -> (r: PaymentStatuses)
    ensures
        r == payment_statuses_of(
            selected_row_cells(
                html@,
                "table#result_list tbody tr"@,
                "td.field-state"@,
                "td.field-product_code_link"@,
            ),
        ),
{
    match select_row_cells(
        html,
        "table#result_list tbody tr",
        "td.field-state",
        "td.field-product_code_link",
    ) {
        Some(rows) => tally_payment_rows(&trim_row_cells(&rows)),
        None => PaymentStatuses {
            validated: 0,
            to_validate: 0,
            threed_secure: 0,
            cancelled: 0,
            error: 0,
            group: 0,
        },
    }
}

/// The first page stored under `key`, as a map lookup would give it.
pub open spec fn page_for(pages: Seq<(String, Page)>, key: Seq<char>) -> Option<Page>
    decreases pages.len(),
{
    if pages.len() == 0 {
        None
    } else if pages[0].0@ == key {
        Some(pages[0].1)
    } else {
        page_for(pages.drop_first(), key)
    }
}

/// Address reported for a metric whose page was not retrieved.
pub open spec fn placeholder_url(is_test_mode: bool) -> Seq<char> {
    if is_test_mode { "https://test-domain.com"@ } else { Seq::empty() }
}

/// Payment counts of the fixed test-mode snapshot.
pub open spec fn canned_payments() -> PaymentStatuses {
    PaymentStatuses { validated: 100, to_validate: 0, threed_secure: 0, cancelled: 0, error: 0, group: 0 }
}

/// The payment fields of `r` as read from `page`, or as defaulted.
pub open spec fn payments_extracted(r: PageResults, page: Option<Page>, is_test_mode: bool) -> bool {
    match page {
        Some(p) => {
            &&& r.has_payments
            &&& r.validated_payments_count == payment_statuses_of(
                selected_row_cells(
                    p.html@,
                    "table#result_list tbody tr"@,
                    "td.field-state"@,
                    "td.field-product_code_link"@,
                ),
            )
            &&& r.payment_types_count == payment_types_of(selected_html(p.html@, "td.field-payment_splitting"@))
            &&& r.url_validated_payments@ == p.url@
        },
        None => {
            &&& r.has_payments == is_test_mode
            &&& r.validated_payments_count == if is_test_mode { canned_payments() } else { no_payments() }
            &&& r.payment_types_count == if is_test_mode {
                PaymentTypes { individual: 80, group: 20 }
            } else {
                PaymentTypes { individual: 0, group: 0 }
            }
            &&& r.url_validated_payments@ == placeholder_url(is_test_mode)
        },
    }
}

/// The PDF, email and not-imported fields of `r`, read from the
/// paid-vouchers page or defaulted.
pub open spec fn paid_vouchers_extracted(r: PageResults, page: Option<Page>, is_test_mode: bool) -> bool {
    match page {
        Some(p) => {
            &&& r.has_paid_vouchers
            &&& r.pdf_count == count_selected(selected_html(p.html@, "td.field-has_pdf"@), "Yes"@)
            &&& r.email_check_count == email_statuses_of(selected_html(p.html@, "td.field-_has_been_sent"@))
            &&& r.not_imported_count == count_selected(selected_html(p.html@, "td.field-imported_from"@), "-"@)
            &&& r.url_pdf_count@ == p.url@
            &&& r.url_email_check_count@ == p.url@
        },
        None => {
            &&& r.has_paid_vouchers == is_test_mode
            &&& r.pdf_count == if is_test_mode { 76usize } else { 0usize }
            &&& r.email_check_count == if is_test_mode {
                EmailStatuses { sent: 30, not_sent: 50, bulk: 20 }
            } else {
                EmailStatuses { sent: 0, not_sent: 0, bulk: 0 }
            }
            &&& r.not_imported_count == if is_test_mode { 50usize } else { 0usize }
            &&& r.url_pdf_count@ == placeholder_url(is_test_mode)
            &&& r.url_email_check_count@ == placeholder_url(is_test_mode)
        },
    }
}

/// The voucher fields of `r`, read from the vouchers page or defaulted.
pub open spec fn vouchers_extracted(r: PageResults, page: Option<Page>, is_test_mode: bool) -> bool {
    match page {
        Some(p) => {
            &&& r.has_vouchers
            &&& r.paid_vouchers_count == voucher_statuses_of(selected_html(p.html@, "td.field-state"@))
            &&& r.url_vouchers_count@ == p.url@
        },
        None => {
            &&& r.has_vouchers == is_test_mode
            &&& r.paid_vouchers_count == if is_test_mode {
                VoucherStatuses { paid: 40, error: 10, other: 50 }
            } else {
                VoucherStatuses { paid: 0, error: 0, other: 0 }
            }
            &&& r.url_vouchers_count@ == placeholder_url(is_test_mode)
        },
    }
}

/// The website fields of `r`, read from the purchase page or defaulted.
pub open spec fn website_extracted(r: PageResults, page: Option<Page>, is_test_mode: bool) -> bool {
    match page {
        Some(p) => {
            &&& r.has_website
            &&& r.is_website_online == website_online_of(selected_html(p.html@, "h1"@))
            &&& r.url_website@ == p.url@
        },
        None => {
            &&& r.has_website == is_test_mode
            &&& !r.is_website_online
            &&& r.url_website@ == placeholder_url(is_test_mode)
        },
    }
}

/// The worker-queue fields of `r`, read from its dashboard or defaulted.
pub open spec fn celery_extracted(r: PageResults, page: Option<Page>, is_test_mode: bool) -> bool {
    match page {
        Some(p) => {
            &&& r.has_celery
            &&& r.is_celery_online == celery_online_of(selected_html(p.html@, "span.label"@))
            &&& r.url_celery@ == p.url@
        },
        None => {
            &&& r.has_celery == is_test_mode
            &&& r.is_celery_online == is_test_mode
            &&& r.url_celery@ == placeholder_url(is_test_mode)
        },
    }
}

/// `r` is the snapshot that `pages` give.
pub open spec fn extracted_from(r: PageResults, pages: Seq<(String, Page)>, is_test_mode: bool) -> bool {
    &&& payments_extracted(r, page_for(pages, "payments"@), is_test_mode)
    &&& paid_vouchers_extracted(r, page_for(pages, "paid_vouchers"@), is_test_mode)
    &&& vouchers_extracted(r, page_for(pages, "vouchers"@), is_test_mode)
    &&& website_extracted(r, page_for(pages, "purchase_website"@), is_test_mode)
    &&& celery_extracted(r, page_for(pages, "celery"@), is_test_mode)
}

fn find_page(pages: &Vec<(String, Page)>, key: &str) -> (r: Option<usize>)
    ensures
        match r {
            Some(i) => i < pages@.len() && page_for(pages@, key@) == Some(pages@[i as int].1),
            None => page_for(pages@, key@) is None,
        },
{
    let goal = String::from_str(key);
    let mut i: usize = 0;
    assert(pages@.subrange(0, pages@.len() as int) =~= pages@);
    while i < pages.len()
        invariant
            i <= pages.len(),
            goal@ == key@,
            page_for(pages@, key@) == page_for(pages@.subrange(i as int, pages@.len() as int), key@),
        decreases pages.len() - i,
    {
        assert(pages@.subrange(i as int, pages@.len() as int).drop_first() =~= pages@.subrange(
            i as int + 1,
            pages@.len() as int,
        ));
        if pages[i].0 == goal {
            return Some(i);
        }
        i = i + 1;
    }
    None
}

fn initial_results(is_test_mode: bool) -> (r: PageResults)
    ensures
        payments_extracted(r, None, is_test_mode),
        paid_vouchers_extracted(r, None, is_test_mode),
        vouchers_extracted(r, None, is_test_mode),
        website_extracted(r, None, is_test_mode),
        celery_extracted(r, None, is_test_mode),
{
    if is_test_mode {
        PageResults {
            validated_payments_count: PaymentStatuses {
                validated: 100,
                to_validate: 0,
                threed_secure: 0,
                cancelled: 0,
                error: 0,
                group: 0,
            },
            payment_types_count: PaymentTypes { individual: 80, group: 20 },
            paid_vouchers_count: VoucherStatuses { paid: 40, error: 10, other: 50 },
            not_imported_count: 50,
            pdf_count: 76,
            email_check_count: EmailStatuses { sent: 30, not_sent: 50, bulk: 20 },
            is_website_online: false,
            url_validated_payments: String::from_str("https://test-domain.com"),
            url_vouchers_count: String::from_str("https://test-domain.com"),
            url_pdf_count: String::from_str("https://test-domain.com"),
            url_email_check_count: String::from_str("https://test-domain.com"),
            url_website: String::from_str("https://test-domain.com"),
            url_celery: String::from_str("https://test-domain.com"),
            is_celery_online: true,
            has_payments: true,
            has_vouchers: true,
            has_paid_vouchers: true,
            has_website: true,
            has_celery: true,
        }
    } else {
        PageResults::default()
    }
}

impl Default for PageResults {
    fn default() -> (r: Self)
        ensures
            payments_extracted(r, None, false),
            paid_vouchers_extracted(r, None, false),
            vouchers_extracted(r, None, false),
            website_extracted(r, None, false),
            celery_extracted(r, None, false),
    {
        PageResults {
            validated_payments_count: PaymentStatuses {
                validated: 0,
                to_validate: 0,
                threed_secure: 0,
                cancelled: 0,
                error: 0,
                group: 0,
            },
            payment_types_count: PaymentTypes { individual: 0, group: 0 },
            paid_vouchers_count: VoucherStatuses { paid: 0, error: 0, other: 0 },
            not_imported_count: 0,
            pdf_count: 0,
            email_check_count: EmailStatuses { sent: 0, not_sent: 0, bulk: 0 },
            is_website_online: false,
            url_validated_payments: String::new(),
            url_vouchers_count: String::new(),
            url_pdf_count: String::new(),
            url_email_check_count: String::new(),
            url_website: String::new(),
            url_celery: String::new(),
            is_celery_online: false,
            has_payments: false,
            has_vouchers: false,
            has_paid_vouchers: false,
            has_website: false,
            has_celery: false,
        }
    }
}

/// Builds the run's snapshot from the retrieved pages, keyed by source
/// ("payments", "paid_vouchers", "vouchers", "purchase_website",
/// "celery"). In test mode the fields of a missing page take fixed canned
/// values instead of zero defaults. Where a key appears more than once, its
/// first entry is used.
#[verifier::rlimit(60)]
pub fn extract_metrics(html_contents: &Vec<(String, Page)>, is_test_mode: bool) -> (r: PageResults)
    ensures
        extracted_from(r, html_contents@, is_test_mode),
{
    let mut results = initial_results(is_test_mode);

    if let Some(i) = find_page(html_contents, "payments") {
        let page = &html_contents[i].1;
        results.validated_payments_count = count_payment_statuses(page.html.as_str());
        results.payment_types_count = count_payment_types(page.html.as_str());
        results.url_validated_payments = page.url.clone();
        results.has_payments = true;
    }

    if let Some(i) = find_page(html_contents, "paid_vouchers") {
        let page = &html_contents[i].1;
        results.pdf_count = count_pdf(page.html.as_str());
        results.email_check_count = count_email_statuses(page.html.as_str());
        results.not_imported_count = count_not_imported(page.html.as_str());
        results.url_pdf_count = page.url.clone();
        results.url_email_check_count = page.url.clone();
        results.has_paid_vouchers = true;
    }

    if let Some(i) = find_page(html_contents, "vouchers") {
        let page = &html_contents[i].1;
        results.paid_vouchers_count = count_vouchers_statuses(page.html.as_str());
        results.url_vouchers_count = page.url.clone();
        results.has_vouchers = true;
    }

    if let Some(i) = find_page(html_contents, "purchase_website") {
        let page = &html_contents[i].1;
        results.url_website = page.url.clone();
        results.is_website_online = has_correct_content(page.html.as_str());
        results.has_website = true;
    }

    if let Some(i) = find_page(html_contents, "celery") {
        let page = &html_contents[i].1;
        results.url_celery = page.url.clone();
        results.is_celery_online = get_celery_status(page.html.as_str());
        results.has_celery = true;
    }

    results
}

} // verus!
