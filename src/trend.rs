//! Direction of change of a metric since the previous run.
use crate::db::{get_corresponding_value, recorded_value, LogEntry};
use crate::validators::{OutcomeView, UnitValidationResult, Value};
use vstd::prelude::*;

verus! {

#[derive(Clone, Copy, Debug, PartialEq, Eq, Structural)]
pub enum Trend {
    Increasing,
    Decreasing,
    Unchanged,
    Unknown,
}

/// Only two counts have a direction; anything else is unknown.
pub open spec fn trend_between(previous: Option<Value>, current: Value) -> Trend {
    match (previous, current) {
        (Some(Value::Count(before)), Value::Count(now)) => if now > before {
            Trend::Increasing
        } else if now < before {
            Trend::Decreasing
        } else {
            Trend::Unchanged
        },
        _ => Trend::Unknown,
    }
}

/// Trend of an outcome against the previous run, unknown without one.
pub open spec fn trend_for(last: Option<LogEntry>, o: OutcomeView) -> Trend {
    match last {
        Some(entry) => trend_between(recorded_value(o.metric, entry), o.value),
        None => Trend::Unknown,
    }
}

/// Compares a metric's current value with its previous one.
pub fn compare_trend(previous: Option<Value>, current: Value) -> (r: Trend)
    ensures
        r == trend_between(previous, current),
{
    match (previous, current) {
        (Some(Value::Count(before)), Value::Count(now)) => if now > before {
            Trend::Increasing
        } else if now < before {
            Trend::Decreasing
        } else {
            Trend::Unchanged
        },
        _ => Trend::Unknown,
    }
}

/// The trend of one classified metric against the previous run's record.
pub fn trend_of(last_log: &Option<LogEntry>, result: &UnitValidationResult) -> (r: Trend)
    ensures
        r == trend_for(*last_log, result@),
{
    match last_log {
        Some(entry) => compare_trend(get_corresponding_value(result.metric, entry), result.value),
        None => Trend::Unknown,
    }
}

/// Without a previous record, every metric's trend is unknown.
pub proof fn lemma_no_previous_record_unknown(outcomes: Seq<OutcomeView>)
    ensures
        forall|i: int| 0 <= i < outcomes.len() ==> trend_for(None, #[trigger] outcomes[i]) == Trend::Unknown,
{
}

/// Two counts compare by their order: a larger current count is increasing,
/// a smaller one decreasing, an equal one unchanged.
pub proof fn lemma_count_trend(before: usize, now: usize)
    ensures
        now > before <==> trend_between(Some(Value::Count(before)), Value::Count(now)) == Trend::Increasing,
        now < before <==> trend_between(Some(Value::Count(before)), Value::Count(now)) == Trend::Decreasing,
        now == before <==> trend_between(Some(Value::Count(before)), Value::Count(now)) == Trend::Unchanged,
{
}

} // verus!
