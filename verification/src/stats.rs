//! Figures the dashboard derives from the alert list and the throughput
//! stream: counts per severity, the latest incidents, and the chart window.

use vstd::prelude::*;
use crate::model::{Alert, AlertSeverity, TopSource};

verus! {

/// How many alerts of `s` have severity `sev`.
pub open spec fn severity_count(s: Seq<Alert>, sev: AlertSeverity) -> nat
    decreases s.len(),
{
    if s.len() == 0 {
        0
    } else {
        severity_count(s.drop_last(), sev) + if s.last().severity == sev {
            1nat
        } else {
            0nat
        }
    }
}

/// The number of alerts of each severity.
#[derive(Clone, Copy, Debug)]
pub struct SeverityCounts {
    pub critical: usize,
    pub high: usize,
    pub medium: usize,
    pub low: usize,
}

/// Counts the alerts of each severity, as the severity chart shows them.
pub fn count_by_severity(alerts: &Vec<Alert>) -> (r: SeverityCounts)
    ensures
        r.critical == severity_count(alerts@, AlertSeverity::Critical),
        r.high == severity_count(alerts@, AlertSeverity::High),
        r.medium == severity_count(alerts@, AlertSeverity::Medium),
        r.low == severity_count(alerts@, AlertSeverity::Low),
{
    let mut r = SeverityCounts { critical: 0, high: 0, medium: 0, low: 0 };
    let mut i: usize = 0;
    while i < alerts.len()
        invariant
            i <= alerts.len(),
            r.critical == severity_count(alerts@.take(i as int), AlertSeverity::Critical),
            r.high == severity_count(alerts@.take(i as int), AlertSeverity::High),
            r.medium == severity_count(alerts@.take(i as int), AlertSeverity::Medium),
            r.low == severity_count(alerts@.take(i as int), AlertSeverity::Low),
            r.critical + r.high + r.medium + r.low == i,
        decreases alerts.len() - i,
    {
        assert(alerts@.take(i + 1).drop_last() == alerts@.take(i as int));
        match alerts[i].severity {
            AlertSeverity::Critical => r.critical = r.critical + 1,
            AlertSeverity::High => r.high = r.high + 1,
            AlertSeverity::Medium => r.medium = r.medium + 1,
            AlertSeverity::Low => r.low = r.low + 1,
        }
        i = i + 1;
    }
    assert(alerts@.take(alerts.len() as int) == alerts@);
    r
}

/// The number of critical alerts, shown in the top bar and on the dashboard.
pub fn critical_count(alerts: &Vec<Alert>) -> (r: usize)
    ensures
        r == severity_count(alerts@, AlertSeverity::Critical),
{
    count_by_severity(alerts).critical
}

/// The first `n` entries of a list (all of them when it is shorter).
pub open spec fn first_n<T>(s: Seq<T>, n: nat) -> Seq<T> {
    if s.len() <= n {
        s
    } else {
        s.take(n as int)
    }
}

/// How many of the latest incidents the dashboard previews.
pub const RECENT_ALERTS: usize = 5;

/// How many traffic sources the dashboard lists.
pub const TOP_SOURCES: usize = 5;

/// The dashboard's preview of the latest incidents: the first five alerts.
pub fn recent_alerts(alerts: Vec<Alert>) -> (r: Vec<Alert>)
    ensures
        r@ == first_n(alerts@, RECENT_ALERTS as nat),
{
    let mut v = alerts;
    v.truncate(RECENT_ALERTS);
    v
}

/// The dashboard's list of the busiest sources: the first five.
pub fn top_sources(sources: Vec<TopSource>) -> (r: Vec<TopSource>)
    ensures
        r@ == first_n(sources@, TOP_SOURCES as nat),
{
    let mut v = sources;
    v.truncate(TOP_SOURCES);
    v
}

/// How many points the throughput chart keeps.
pub const CHART_WINDOW: usize = 24;

/// The chart's samples before any throughput has been reported.
pub fn initial_chart_history() -> (r: Vec<usize>)
    ensures
        r@ == seq![120usize, 180, 140, 220, 310, 280, 350, 420, 390, 500],
{
    vec![120, 180, 140, 220, 310, 280, 350, 420, 390, 500]
}

/// The chart sample that a throughput reading becomes.
pub open spec fn chart_sample(current: u64) -> usize {
    (current % 600 + 100) as usize
}

/// The chart window after a throughput reading: unchanged for a zero
/// reading, else the sample appended and, past the window, the oldest dropped.
pub open spec fn chart_after(h: Seq<usize>, current: u64) -> Seq<usize> {
    if current > 0 {
        let p = h.push(chart_sample(current));
        if p.len() > CHART_WINDOW {
            p.drop_first()
        } else {
            p
        }
    } else {
        h
    }
}

/// Feeds a throughput reading into the chart window.
pub fn record_throughput(history: &mut Vec<usize>, current: u64)
    ensures
        final(history)@ == chart_after(old(history)@, current),
{
    if current > 0 {
        let sample: usize = (current % 600 + 100) as usize;
        history.push(sample);
        if history.len() > CHART_WINDOW {
            history.remove(0);
            assert(history@ =~= old(history)@.push(chart_sample(current)).drop_first());
        }
    }
}

} // verus!
