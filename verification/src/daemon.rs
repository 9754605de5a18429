//! One poll cycle of the daemon, as decisions: what a poll's outcome does to
//! the tracked pipelines and the dashboard, which pipelines to advance, what
//! to drop at the end, and whether to wait for the next cycle or stop.
//! The front end fetches, advances, persists and sleeps in between.

use vstd::prelude::*;
use std::collections::HashMap;
use std::path::PathBuf;
use std::time::Instant;
use crate::config::Config;
use crate::dashboard::{lists_pipelines, sorted_by_issue, update_dashboard, DashboardState};
use crate::registry::{
    active_issues, pipelines_to_advance, pruned, register_new_issues, registered, remove_done,
};
use crate::pipeline::Pipeline;

verus! {

/// What a poll of GitHub gave: the numbers of the open issues carrying the
/// label, or the text of the error.
pub enum PollOutcome {
    Fetched(Vec<u64>),
    Failed(String),
}

/// The dashboard fields other than the pipelines and the poll status are
/// the same in `a` and `b`.
pub open spec fn same_settings(a: DashboardState, b: DashboardState) -> bool {
    &&& a.repo == b.repo
    &&& a.label == b.label
    &&& a.poll_interval == b.poll_interval
    &&& a.start_time == b.start_time
}

/// Applies a poll's outcome at time `at`. After a failure the pipelines are
/// left alone, the dashboard shows `Poll error: <error>` and nothing is
/// advanced. After a success the error is cleared, each fetched issue
/// without a pipeline gets a fresh one, and the result lists the pipelines
/// to advance: each one that is neither done nor failed, once.
pub fn begin_cycle(
    pipelines: &mut HashMap<u64, Pipeline>,
    dashboard: &mut DashboardState,
    outcome: &PollOutcome,
    at: Instant,
    config: &Config,
) -> (to_advance: Vec<u64>)
    ensures
        same_settings(*old(dashboard), *final(dashboard)),
        final(dashboard).pipelines == old(dashboard).pipelines,
        final(dashboard).last_poll == Some(at),
        match *outcome {
            PollOutcome::Failed(e) => {
                &&& final(pipelines)@ == old(pipelines)@
                &&& final(dashboard).error_message matches Some(m) && m@ == "Poll error: "@ + e@
                &&& to_advance@.len() == 0
            },
            PollOutcome::Fetched(numbers) => {
                &&& registered(
                    old(pipelines)@,
                    final(pipelines)@,
                    numbers@,
                    config.repo@,
                    config.runs_dir,
                )
                &&& final(dashboard).error_message is None
                &&& to_advance@.no_duplicates()
                &&& to_advance@.to_set() == active_issues(final(pipelines)@)
            },
        },
{
    match outcome {
        PollOutcome::Failed(e) => {
            dashboard.record_poll_failure(e.as_str(), at);
            Vec::new()
        },
        PollOutcome::Fetched(numbers) => {
            dashboard.record_poll_success(at);
            register_new_issues(pipelines, numbers, &config.repo, &config.runs_dir);
            pipelines_to_advance(pipelines)
        },
    }
}

/// Ends a cycle: drops the pipelines that are done and shows the rest,
/// ordered by issue number.
pub fn finish_cycle(pipelines: &mut HashMap<u64, Pipeline>, dashboard: &mut DashboardState)
    ensures
        pruned(old(pipelines)@, final(pipelines)@),
        same_settings(*old(dashboard), *final(dashboard)),
        final(dashboard).last_poll == old(dashboard).last_poll,
        final(dashboard).error_message == old(dashboard).error_message,
        lists_pipelines(final(dashboard).pipelines@, final(pipelines)@),
        sorted_by_issue(final(dashboard).pipelines@),
{
    remove_done(pipelines);
    update_dashboard(pipelines, dashboard);
}

/// How long to wait before the next cycle, or `None` to stop. After a failed
/// poll the daemon always waits the poll interval and tries again; after a
/// full cycle it stops if shutdown was requested, else waits the interval.
pub fn wait_after_cycle(poll_failed: bool, shutdown_requested: bool, poll_interval: u64) -> (w:
    Option<u64>)
    ensures
        w == (if !poll_failed && shutdown_requested {
            None
        } else {
            Some(poll_interval)
        }),
{
    if !poll_failed && shutdown_requested {
        None
    } else {
        Some(poll_interval)
    }
}

/// Across a cycle (registration, advancing, which changes pipelines but
/// neither adds nor drops any, then pruning) every issue that the poll
/// returned is still tracked at the end, unless its pipeline was done.
pub proof fn lemma_cycle_keeps_fetched(
    m0: Map<u64, Pipeline>,
    m1: Map<u64, Pipeline>,
    m2: Map<u64, Pipeline>,
    m3: Map<u64, Pipeline>,
    numbers: Seq<u64>,
    repo: Seq<char>,
    runs_dir: PathBuf,
    n: u64,
)
    requires
        registered(m0, m1, numbers, repo, runs_dir),
        m2.dom() == m1.dom(),
        pruned(m2, m3),
        numbers.contains(n),
    ensures
        m3.contains_key(n) || m2[n].stage is Done,
{
    assert(numbers.to_set().contains(n));
    assert(m1.contains_key(n));
}

} // verus!
