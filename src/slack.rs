//! Composition of the chat report.
use crate::db::LogEntry;
use crate::trend::{trend_for, trend_of, Trend};
use crate::validators::{metric_name, report_view, OutcomeView, Status, UnitValidationResult};
use vstd::prelude::*;

verus! {

pub open spec fn status_symbol(s: Status) -> Seq<char> {
    match s {
        Status::Healthy => ":square_check:"@,
        Status::Warning => ":square_neutral:"@,
        Status::Alert => ":square_x:"@,
    }
}

pub open spec fn trend_icon(t: Trend) -> Seq<char> {
    match t {
        Trend::Increasing => ":trend_up:"@,
        Trend::Decreasing => ":trend_down:"@,
        _ => ":blank:"@,
    }
}

/// One line of the report: severity, trend, name, message, and a link to
/// the source page.
pub open spec fn slack_line(o: OutcomeView, t: Trend, url: Seq<char>) -> Seq<char> {
    status_symbol(o.status) + trend_icon(t) + " "@ + metric_name(o.metric) + ": "@ + o.message + " "@ + " <"@
        + url + "| View >\n"@
}

pub open spec fn slack_lines(rs: Seq<(OutcomeView, Seq<char>)>, last: Option<LogEntry>) -> Seq<char>
    decreases rs.len(),
{
    if rs.len() == 0 {
        Seq::empty()
    } else {
        slack_lines(rs.drop_last(), last) + slack_line(rs.last().0, trend_for(last, rs.last().0), rs.last().1)
    }
}

/// Some outcome is an alert.
pub open spec fn any_alert(rs: Seq<(OutcomeView, Seq<char>)>) -> bool {
    exists|i: int| 0 <= i < rs.len() && (#[trigger] rs[i]).0.status == Status::Alert
}

/// The whole chat report: a banner in test mode, one line per outcome, and
/// a channel-wide mention when some outcome is an alert.
pub open spec fn slack_message(rs: Seq<(OutcomeView, Seq<char>)>, last: Option<LogEntry>, is_test_mode: bool) -> Seq<
    char,
> {
    (if is_test_mode { "*THIS IS A TEST*\n"@ } else { Seq::empty() }) + slack_lines(rs, last) + (if any_alert(
        rs,
    ) {
        "<!channel>"@
    } else {
        Seq::empty()
    })
}

fn status_symbol_text(s: Status) -> (r: &'static str)
    ensures
        r@ == status_symbol(s),
{
    match s {
        Status::Healthy => ":square_check:",
        Status::Warning => ":square_neutral:",
        Status::Alert => ":square_x:",
    }
}

fn trend_icon_text(t: Trend) -> (r: &'static str)
    ensures
        r@ == trend_icon(t),
{
    match t {
        Trend::Increasing => ":trend_up:",
        Trend::Decreasing => ":trend_down:",
        _ => ":blank:",
    }
}

/// Renders the chat report of a run.
pub fn create_message(
    validation_results: &Vec<(UnitValidationResult, String)>,
    last_log: Option<LogEntry>,
    is_test_mode: bool,
) -> (r: String)
    ensures
        r@ == slack_message(report_view(validation_results@), last_log, is_test_mode),
{
    let ghost rs = report_view(validation_results@);
    let mut should_alert_channel = false;
    let mut message = String::new();
    if is_test_mode {
        message.append("*THIS IS A TEST*\n");
    }
    let ghost banner = message@;
    assert(banner =~= if is_test_mode { "*THIS IS A TEST*\n"@ } else { Seq::empty() });
    let mut i: usize = 0;
    while i < validation_results.len()
        invariant
            rs == report_view(validation_results@),
            rs.len() == validation_results.len(),
            i <= validation_results.len(),
            message@ == banner + slack_lines(rs.take(i as int), last_log),
            should_alert_channel == exists|k: int| 0 <= k < i && (#[trigger] rs[k]).0.status == Status::Alert,
        decreases validation_results.len() - i,
    {
        let result = &validation_results[i].0;
        let url = &validation_results[i].1;
        if result.status == Status::Alert {
            should_alert_channel = true;
        }
        let trend = trend_of(&last_log, result);
        let mut line = String::from_str(status_symbol_text(result.status));
        line.append(trend_icon_text(trend));
        line.append(" ");
        let name = result.name();
        line.append(name.as_str());
        line.append(": ");
        line.append(result.message.as_str());
        line.append(" ");
        line.append(" <");
        line.append(url.as_str());
        line.append("| View >\n");
        assert(line@ == slack_line(rs[i as int].0, trend, rs[i as int].1));
        message.append(line.as_str());
        assert(rs.take(i as int + 1).drop_last() =~= rs.take(i as int));
        i = i + 1;
        assert(message@ =~= banner + slack_lines(rs.take(i as int), last_log));
    }
    assert(rs.take(i as int) =~= rs);
    let ghost body = message@;
    if should_alert_channel {
        message.append("<!channel>");
    }
    assert(should_alert_channel == any_alert(rs));
    assert(message@ =~= slack_message(rs, last_log, is_test_mode));
    message
}

} // verus!
