//! Composition of the alert email, and the decision of what a run delivers.
use crate::slack::any_alert;
use crate::text::{push_without_backticks, strip_backticks};
use crate::validators::{metric_name, report_view, OutcomeView, Status, UnitValidationResult};
use vstd::prelude::*;

verus! {

pub open spec fn mail_symbol(s: Status) -> Seq<char> {
    match s {
        Status::Healthy => "✅"@,
        Status::Warning => "⚠️"@,
        Status::Alert => "❌"@,
    }
}

/// One line of the email: severity, name, and the message without its
/// chat formatting backticks.
pub open spec fn mail_line(o: OutcomeView) -> Seq<char> {
    mail_symbol(o.status) + " "@ + metric_name(o.metric) + ": "@ + strip_backticks(o.message) + "\n"@
}

pub open spec fn mail_lines(rs: Seq<(OutcomeView, Seq<char>)>) -> Seq<char>
    decreases rs.len(),
{
    if rs.len() == 0 {
        Seq::empty()
    } else {
        mail_lines(rs.drop_last()) + mail_line(rs.last().0)
    }
}

/// The email body: a banner in test mode, then one line per outcome.
pub open spec fn mail_body(rs: Seq<(OutcomeView, Seq<char>)>, is_test_mode: bool) -> Seq<char> {
    (if is_test_mode { "THIS IS A TEST\n\n"@ } else { Seq::empty() }) + mail_lines(rs)
}

pub open spec fn mail_subject_text(is_test_mode: bool) -> Seq<char> {
    "🚨 "@ + (if is_test_mode { "THIS IS A TEST - "@ } else { Seq::empty() }) + " EMERGENCY | Issue with app"@
}

fn mail_symbol_text(s: Status) -> (r: &'static str)
    ensures
        r@ == mail_symbol(s),
{
    match s {
        Status::Healthy => "✅",
        Status::Warning => "⚠️",
        Status::Alert => "❌",
    }
}

fn mail_text(validation_results: &Vec<(UnitValidationResult, String)>, is_test_mode: bool) -> (r:
    String)
    ensures
        r@ == mail_body(report_view(validation_results@), is_test_mode),
{
    let ghost rs = report_view(validation_results@);
    let mut message = String::new();
    if is_test_mode {
        message.append("THIS IS A TEST\n\n");
    }
    let ghost banner = message@;
    assert(banner =~= if is_test_mode { "THIS IS A TEST\n\n"@ } else { Seq::empty() });
    let mut i: usize = 0;
    while i < validation_results.len()
        invariant
            rs == report_view(validation_results@),
            rs.len() == validation_results.len(),
            i <= validation_results.len(),
            message@ == banner + mail_lines(rs.take(i as int)),
        decreases validation_results.len() - i,
    {
        let result = &validation_results[i].0;
        let mut line = String::from_str(mail_symbol_text(result.status));
        line.append(" ");
        let name = result.name();
        line.append(name.as_str());
        line.append(": ");
        push_without_backticks(&mut line, result.message.as_str());
        line.append("\n");
        assert(line@ == mail_line(rs[i as int].0));
        message.append(line.as_str());
        assert(rs.take(i as int + 1).drop_last() =~= rs.take(i as int));
        i = i + 1;
        assert(message@ =~= banner + mail_lines(rs.take(i as int)));
    }
    assert(rs.take(i as int) =~= rs);
    message
}

/// Renders the plain-text body of the alert email. The email is reserved
/// for urgent conditions: without an alert there is no body to send.
pub fn compose_mail_body(validation_results: &Vec<(UnitValidationResult, String)>, is_test_mode: bool) -> (r:
    Option<String>)
    ensures
        r is Some <==> any_alert(report_view(validation_results@)),
        r matches Some(body) ==> body@ == mail_body(report_view(validation_results@), is_test_mode),
{
    if needs_alert(validation_results) {
        Some(mail_text(validation_results, is_test_mode))
    } else {
        None
    }
}

/// The subject line of the alert email.
pub fn mail_subject(is_test_mode: bool) -> (r: String)
    ensures
        r@ == mail_subject_text(is_test_mode),
{
    let mut subject = String::from_str("🚨 ");
    if is_test_mode {
        subject.append("THIS IS A TEST - ");
    }
    subject.append(" EMERGENCY | Issue with app");
    assert(subject@ =~= mail_subject_text(is_test_mode));
    subject
}

/// Whether some classified metric is an alert, which calls for the email.
pub fn needs_alert(results: &Vec<(UnitValidationResult, String)>) -> (r: bool)
    ensures
        r == any_alert(report_view(results@)),
{
    let ghost rs = report_view(results@);
    let mut i: usize = 0;
    while i < results.len()
        invariant
            rs == report_view(results@),
            rs.len() == results.len(),
            i <= results.len(),
            forall|k: int| 0 <= k < i ==> (#[trigger] rs[k]).0.status != Status::Alert,
        decreases results.len() - i,
    {
        if results[i].0.status == Status::Alert {
            assert(rs[i as int].0.status == Status::Alert);
            return true;
        }
        i = i + 1;
    }
    false
}

/// The side effects of a run, performed in order by its driver.
#[derive(Clone, Copy, Debug, PartialEq, Eq, Structural)]
pub enum Action {
    PostChat,
    SendEmail,
    SaveRecord,
}

/// The chat report always goes out; the email only on an alert; the record
/// is saved outside test mode. Test mode still sends both notifications,
/// each marked by its test banner, so that a dry run shows what a real run
/// would deliver; it only leaves the store untouched.
pub open spec fn planned_actions(alert: bool, is_test_mode: bool) -> Seq<Action> {
    seq![Action::PostChat] + (if alert { seq![Action::SendEmail] } else { Seq::empty() }) + (if is_test_mode {
        Seq::empty()
    } else {
        seq![Action::SaveRecord]
    })
}

/// Number of email sends in a sequence of actions.
pub open spec fn email_sends(actions: Seq<Action>) -> nat
    decreases actions.len(),
{
    if actions.len() == 0 {
        0
    } else {
        email_sends(actions.drop_last()) + if actions.last() == Action::SendEmail { 1nat } else { 0nat }
    }
}

/// Decides what a run delivers once its metrics are classified.
pub fn delivery_actions(results: &Vec<(UnitValidationResult, String)>, is_test_mode: bool) -> (r: Vec<Action>)
    ensures
        r@ == planned_actions(any_alert(report_view(results@)), is_test_mode),
{
    let alert = needs_alert(results);
    let mut actions: Vec<Action> = Vec::new();
    actions.push(Action::PostChat);
    if alert {
        actions.push(Action::SendEmail);
    }
    if !is_test_mode {
        actions.push(Action::SaveRecord);
    }
    assert(actions@ =~= planned_actions(alert, is_test_mode));
    actions
}

/// The email is attempted exactly once when some outcome is an alert, and
/// never otherwise.
pub proof fn lemma_email_once_iff_alert(results: Seq<(OutcomeView, Seq<char>)>, is_test_mode: bool)
    ensures
        email_sends(planned_actions(any_alert(results), is_test_mode)) == if any_alert(results) {
            1nat
        } else {
            0nat
        },
{
    let alert = any_alert(results);
    let plan = planned_actions(alert, is_test_mode);
    let head = seq![Action::PostChat] + (if alert { seq![Action::SendEmail] } else { Seq::empty() });
    let first = seq![Action::PostChat];
    assert(first.drop_last() =~= Seq::<Action>::empty());
    assert(email_sends(first.drop_last()) == 0);
    assert(first.last() == Action::PostChat);
    assert(email_sends(first) == 0);
    if alert {
        assert(head.drop_last() =~= first);
        assert(head.last() == Action::SendEmail);
    } else {
        assert(head =~= first);
    }
    assert(email_sends(head) == if alert { 1nat } else { 0nat });
    if is_test_mode {
        assert(plan =~= head);
    } else {
        assert(plan.drop_last() =~= head);
        assert(plan.last() == Action::SaveRecord);
    }
}

} // verus!
