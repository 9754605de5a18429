//! What the dashboard shows: one view per pipeline, and the daemon's status.

use vstd::prelude::*;
use std::collections::HashMap;
use std::time::Instant;
use crate::registry::key_list;
use crate::pipeline::{Pipeline, Stage};
use crate::text::{
    all_digits, decimal, decimal_string, digit_value, digits_value, is_digit,
    lemma_decimal_reads_back, lemma_two_digits_reads_back, two_digit_string, two_digits,
};
use crate::time::{elapsed, now, whole_seconds};

verus! {

broadcast use vstd::std_specs::hash::group_hash_axioms;

/// A snapshot of one pipeline, as the dashboard renders it.
#[derive(Debug, Clone)]
pub struct PipelineView {
    pub issue_number: u64,
    pub title: String,
    pub stage: Stage,
    pub is_failed: bool,
}

/// The title shown for a pipeline: the issue's title, or `Issue #<n>` while
/// the title is not known.
pub open spec fn view_title(p: Pipeline) -> Seq<char> {
    if p.issue_title@.len() == 0 {
        "Issue #"@ + decimal(p.issue_number as nat)
    } else {
        p.issue_title@
    }
}

/// `v` is the dashboard's view of `p`.
pub open spec fn is_view_of(v: PipelineView, p: Pipeline) -> bool {
    &&& v.issue_number == p.issue_number
    &&& v.title@ == view_title(p)
    &&& v.stage == p.stage
    &&& v.is_failed == (p.stage is Failed)
}

impl<'a> From<&'a Pipeline> for PipelineView {
    /// The view of `p`. The title is never empty.
    fn from(p: &'a Pipeline) -> (v: Self)
        ensures
            is_view_of(v, *p),
    {
        let title = if p.issue_title.as_str().is_empty() {
            let mut t = String::from_str("Issue #");
            let digits = decimal_string(p.issue_number);
            t.append(digits.as_str());
            t
        } else {
            p.issue_title.clone()
        };
        PipelineView {
            issue_number: p.issue_number,
            title,
            stage: p.stage.clone(),
            is_failed: p.is_failed(),
        }
    }
}

/// A view holds a `String`, which has no value in specifications, so the
/// conversion is described by the `ensures` of `from` instead.
impl<'a> vstd::std_specs::convert::FromSpecImpl<&'a Pipeline> for PipelineView {
    open spec fn obeys_from_spec() -> bool {
        false
    }

    open spec fn from_spec(p: &'a Pipeline) -> Self {
        arbitrary()
    }
}

/// A view's title is never empty.
pub proof fn lemma_view_title_not_empty(p: Pipeline)
    ensures
        view_title(p).len() > 0,
{
    if p.issue_title@.len() == 0 {
        assert(decimal(p.issue_number as nat).len() > 0) by {
            reveal_with_fuel(decimal, 2);
        }
    }
}

/// The views are ordered by issue number.
pub open spec fn sorted_by_issue(views: Seq<PipelineView>) -> bool {
    forall|a: int, b: int|
        0 <= a < b < views.len() ==> #[trigger] views[a].issue_number
            <= #[trigger] views[b].issue_number
}

/// `views[i]` is the view of the pipeline that `m` holds under `keys[i]`.
pub open spec fn views_follow_keys(
    views: Seq<PipelineView>,
    m: Map<u64, Pipeline>,
    keys: Seq<u64>,
) -> bool {
    &&& keys.len() == views.len()
    &&& forall|i: int| 0 <= i < keys.len() ==> #[trigger] m.contains_key(keys[i])
    &&& forall|i: int| 0 <= i < keys.len() ==> is_view_of(#[trigger] views[i], m[keys[i]])
}

/// `views` holds exactly one view of each pipeline in `m`.
pub open spec fn lists_pipelines(views: Seq<PipelineView>, m: Map<u64, Pipeline>) -> bool {
    exists|keys: Seq<u64>|
        {
            &&& #[trigger] views_follow_keys(views, m, keys)
            &&& keys.no_duplicates()
            &&& keys.to_set() == m.dom()
        }
}

/// One view of each pipeline, ordered by issue number.
pub fn dashboard_views(m: &HashMap<u64, Pipeline>) -> (views: Vec<PipelineView>)
    ensures
        lists_pipelines(views@, m@),
        sorted_by_issue(views@),
        views@.len() == m@.len(),
{
    let keys = key_list(m);
    let mut out: Vec<PipelineView> = Vec::new();
    let ghost mut ks: Seq<u64> = Seq::empty();
    for i in 0..keys.len()
        invariant
            keys@.no_duplicates(),
            keys@.to_set() == m@.dom(),
            views_follow_keys(out@, m@, ks),
            ks.no_duplicates(),
            ks.to_set() == keys@.take(i as int).to_set(),
            sorted_by_issue(out@),
    {
        let k = keys[i];
        assert(keys@.to_set().contains(k)) by {
            assert(keys@[i as int] == k);
        }
        let p = m.get(&k).unwrap();
        let v = PipelineView::from(p);
        let mut j: usize = 0;
        while j < out.len() && out[j].issue_number <= v.issue_number
            invariant
                j <= out@.len(),
                forall|a: int| 0 <= a < j ==> #[trigger] out@[a].issue_number <= v.issue_number,
            decreases out@.len() - j,
        {
            j = j + 1;
        }
        let ghost old_out = out@;
        let ghost old_ks = ks;
        out.insert(j, v);
        proof {
            let pre0 = keys@.take(i as int);
            let pre1 = keys@.take(i + 1);
            ks = ks.insert(j as int, k);
            assert(!old_ks.contains(k)) by {
                if old_ks.contains(k) {
                    assert(old_ks.to_set().contains(k));
                    let t = choose|t: int| 0 <= t < pre0.len() && pre0[t] == k;
                    assert(keys@[t] == keys@[i as int]);
                }
            }
            assert(ks.to_set() =~= keys@.take(i + 1).to_set()) by {
                assert(keys@.take(i + 1) =~= keys@.take(i as int).push(k));
                assert forall|x: u64| ks.to_set().contains(x) <==> keys@.take(i + 1).to_set().contains(x) by {
                    if ks.to_set().contains(x) {
                        let t = choose|t: int| 0 <= t < ks.len() && ks[t] == x;
                        if t == j {
                            assert(pre1[i as int] == x);
                        } else {
                            if t < j {
                                assert(old_ks[t] == x);
                            } else {
                                assert(old_ks[t - 1] == x);
                            }
                            assert(old_ks.contains(x));
                            assert(pre0.to_set().contains(x));
                            assert(pre0.contains(x));
                            let u = choose|u: int| 0 <= u < pre0.len() && pre0[u] == x;
                            assert(pre1[u] == x);
                        }
                        assert(pre1.contains(x));
                    }
                    if keys@.take(i + 1).to_set().contains(x) {
                        if x == k {
                            assert(ks[j as int] == x);
                        } else {
                            let t = choose|t: int| 0 <= t < pre1.len() && pre1[t] == x;
                            assert(t < i);
                            assert(pre0[t] == x);
                            assert(old_ks.to_set().contains(x));
                            let u = choose|u: int| 0 <= u < old_ks.len() && old_ks[u] == x;
                            if u < j {
                                assert(ks[u] == x);
                            } else {
                                assert(ks[u + 1] == x);
                            }
                        }
                    }
                }
            }
            assert(ks.no_duplicates()) by {
                assert forall|a: int, b: int|
                    #![trigger ks[a], ks[b]]
                    0 <= a < ks.len() && 0 <= b < ks.len() && a != b implies ks[a] != ks[b] by {
                    if a != j && b != j {
                        let a0 = if a < j { a } else { a - 1 };
                        let b0 = if b < j { b } else { b - 1 };
                        assert(old_ks[a0] == ks[a]);
                        assert(old_ks[b0] == ks[b]);
                    } else if a == j {
                        let b0 = if b < j { b } else { b - 1 };
                        assert(old_ks[b0] == ks[b]);
                    } else {
                        let a0 = if a < j { a } else { a - 1 };
                        assert(old_ks[a0] == ks[a]);
                    }
                }
            }
            assert(views_follow_keys(out@, m@, ks)) by {
                assert forall|t: int| 0 <= t < ks.len() implies #[trigger] m@.contains_key(ks[t])
                    && is_view_of(out@[t], m@[ks[t]]) by {
                    if t < j {
                        assert(out@[t] == old_out[t]);
                        assert(ks[t] == old_ks[t]);
                    } else if t > j {
                        assert(out@[t] == old_out[t - 1]);
                        assert(ks[t] == old_ks[t - 1]);
                    }
                }
            }
            assert(sorted_by_issue(out@)) by {
                assert forall|a: int, b: int| 0 <= a < b < out@.len() implies
                    #[trigger] out@[a].issue_number <= #[trigger] out@[b].issue_number by {
                    if b < j {
                        assert(out@[a] == old_out[a]);
                        assert(out@[b] == old_out[b]);
                    } else if b == j {
                        assert(out@[a] == old_out[a]);
                    } else if a < j {
                        assert(out@[a] == old_out[a]);
                        assert(out@[b] == old_out[b - 1]);
                        assert(old_out[j as int].issue_number > v.issue_number);
                    } else if a == j {
                        assert(out@[b] == old_out[b - 1]);
                        assert(old_out[j as int].issue_number > v.issue_number);
                        if j < b - 1 {
                            assert(old_out[j as int].issue_number <= old_out[b - 1].issue_number);
                        }
                    } else {
                        assert(out@[a] == old_out[a - 1]);
                        assert(out@[b] == old_out[b - 1]);
                    }
                }
            }
        }
    }
    proof {
        assert(keys@.take(keys@.len() as int) =~= keys@);
        assert(views_follow_keys(out@, m@, ks));
        ks.unique_seq_to_set();
        keys@.unique_seq_to_set();
    }
    out
}

/// The uptime text for `secs` seconds: `<h>h <mm>m <ss>s` from one hour on,
/// `<m>m <ss>s` before.
pub open spec fn uptime_text(secs: nat) -> Seq<char> {
    let h = secs / 3600;
    let m = (secs % 3600) / 60;
    let s = secs % 60;
    if h > 0 {
        decimal(h) + "h "@ + two_digits(m) + "m "@ + two_digits(s) + "s"@
    } else {
        decimal(m) + "m "@ + two_digits(s) + "s"@
    }
}

/// Writes an uptime of `secs` seconds.
pub fn format_uptime(secs: u64) -> (r: String)
    ensures
        r@ == uptime_text(secs as nat),
{
    let hrs = secs / 3600;
    let mins = (secs % 3600) / 60;
    let s = secs % 60;
    if hrs > 0 {
        let mut r = decimal_string(hrs);
        r.append("h ");
        let mm = two_digit_string(mins);
        r.append(mm.as_str());
        r.append("m ");
        let ss = two_digit_string(s);
        r.append(ss.as_str());
        r.append("s");
        r
    } else {
        let mut r = decimal_string(mins);
        r.append("m ");
        let ss = two_digit_string(s);
        r.append(ss.as_str());
        r.append("s");
        r
    }
}

/// Two digits reading as `v`.
pub open spec fn two_digits_read(a: char, b: char, v: int) -> bool {
    is_digit(a) && is_digit(b) && 10 * digit_value(a) + digit_value(b) == v
}

proof fn lemma_two_digit_chars(n: nat)
    requires
        n < 100,
    ensures
        two_digits(n).len() == 2,
        two_digits_read(two_digits(n)[0], two_digits(n)[1], n as int),
{
    lemma_two_digits_reads_back(n);
    let t = two_digits(n);
    assert(t.drop_last().drop_last() =~= Seq::<char>::empty());
    assert(t.drop_last().last() == t[0]);
    reveal_with_fuel(digits_value, 3);
}

/// From one hour on, the uptime reads `<hours>h <mm>m <ss>s`: the hours in
/// decimal, then minutes and seconds as exactly two digits each, reading
/// back as the minutes past the hour and the seconds past the minute.
pub proof fn lemma_uptime_with_hours(secs: nat)
    requires
        secs >= 3600,
    ensures
        ({
            let t = uptime_text(secs);
            let n = t.len() - 9;
            &&& n >= 1
            &&& all_digits(t.take(n))
            &&& digits_value(t.take(n)) == secs / 3600
            &&& t[n] == 'h' && t[n + 1] == ' '
            &&& two_digits_read(t[n + 2], t[n + 3], ((secs % 3600) / 60) as int)
            &&& t[n + 4] == 'm' && t[n + 5] == ' '
            &&& two_digits_read(t[n + 6], t[n + 7], (secs % 60) as int)
            &&& t[n + 8] == 's'
        }),
{
    let h = secs / 3600;
    let m = (secs % 3600) / 60;
    let sec = secs % 60;
    reveal_strlit("h ");
    reveal_strlit("m ");
    reveal_strlit("s");
    lemma_decimal_reads_back(h);
    lemma_two_digit_chars(m);
    lemma_two_digit_chars(sec);
    let d = decimal(h);
    let t = uptime_text(secs);
    assert(t =~= d + seq!['h', ' '] + two_digits(m) + seq!['m', ' '] + two_digits(sec) + seq!['s']);
    let n = d.len() as int;
    assert(t.take(n) =~= d);
}

/// Under an hour, the uptime reads `<minutes>m <ss>s`: the minutes in
/// decimal, then the seconds as exactly two digits reading back as the
/// seconds past the minute.
pub proof fn lemma_uptime_under_an_hour(secs: nat)
    requires
        secs < 3600,
    ensures
        ({
            let t = uptime_text(secs);
            let n = t.len() - 5;
            &&& n >= 1
            &&& all_digits(t.take(n))
            &&& digits_value(t.take(n)) == secs / 60
            &&& t[n] == 'm' && t[n + 1] == ' '
            &&& two_digits_read(t[n + 2], t[n + 3], (secs % 60) as int)
            &&& t[n + 4] == 's'
        }),
{
    let m = (secs % 3600) / 60;
    let sec = secs % 60;
    assert(secs % 3600 == secs);
    reveal_strlit("m ");
    reveal_strlit("s");
    lemma_decimal_reads_back(m);
    lemma_two_digit_chars(sec);
    let d = decimal(m);
    let t = uptime_text(secs);
    assert(t =~= d + seq!['m', ' '] + two_digits(sec) + seq!['s']);
    let n = d.len() as int;
    assert(t.take(n) =~= d);
}

/// The parts an uptime text is made of add back up to the seconds: minutes
/// and seconds each stay below 60.
pub proof fn lemma_uptime_parts(secs: nat)
    ensures
        (secs / 3600) * 3600 + ((secs % 3600) / 60) * 60 + secs % 60 == secs,
        (secs % 3600) / 60 < 60,
        secs % 60 < 60,
{
    assert((secs % 3600) == ((secs % 3600) / 60) * 60 + (secs % 3600) % 60);
    assert((secs % 3600) % 60 == secs % 60) by (nonlinear_arith);
}

/// The state the daemon shares with the dashboard.
#[derive(Debug)]
pub struct DashboardState {
    pub repo: String,
    pub label: String,
    pub poll_interval: u64,
    pub start_time: Instant,
    pub pipelines: Vec<PipelineView>,
    pub last_poll: Option<Instant>,
    pub error_message: Option<String>,
}

impl DashboardState {
    /// A dashboard for `repo` and `label` started at `start_time`, with no
    /// pipelines, no poll and no error yet.
    pub fn started_at(repo: String, label: String, poll_interval: u64, start_time: Instant) -> (s:
        Self)
        ensures
            s.repo == repo,
            s.label == label,
            s.poll_interval == poll_interval,
            s.start_time == start_time,
            s.pipelines@.len() == 0,
            s.last_poll is None,
            s.error_message is None,
    {
        DashboardState {
            repo,
            label,
            poll_interval,
            start_time,
            pipelines: Vec::new(),
            last_poll: None,
            error_message: None,
        }
    }

    /// A dashboard for `repo` and `label` started now: `started_at` with the
    /// clock's reading, which the clock decides.
    pub fn new(repo: String, label: String, poll_interval: u64) -> (s: Self)
        ensures
            s.repo == repo,
            s.label == label,
            s.poll_interval == poll_interval,
            s.pipelines@.len() == 0,
            s.last_poll is None,
            s.error_message is None,
    {
        DashboardState::started_at(repo, label, poll_interval, now())
    }

    /// The time since the dashboard started, as `format_uptime` writes it.
    /// The seconds come from the clock.
    pub fn uptime_string(&self) -> (r: String)
        ensures
            exists|secs: u64| r@ == uptime_text(secs as nat),
    {
        let secs = whole_seconds(&elapsed(&self.start_time));
        format_uptime(secs)
    }

    /// Notes a successful poll at `at` and clears the error.
    pub fn record_poll_success(&mut self, at: Instant)
        ensures
            final(self).repo == old(self).repo,
            final(self).label == old(self).label,
            final(self).poll_interval == old(self).poll_interval,
            final(self).start_time == old(self).start_time,
            final(self).pipelines == old(self).pipelines,
            final(self).last_poll == Some(at),
            final(self).error_message is None,
    {
        self.error_message = None;
        self.last_poll = Some(at);
    }

    /// Notes a failed poll at `at`: the error reads `Poll error: <error>`.
    pub fn record_poll_failure(&mut self, error: &str, at: Instant)
        ensures
            final(self).repo == old(self).repo,
            final(self).label == old(self).label,
            final(self).poll_interval == old(self).poll_interval,
            final(self).start_time == old(self).start_time,
            final(self).pipelines == old(self).pipelines,
            final(self).last_poll == Some(at),
            final(self).error_message matches Some(e) && e@ == "Poll error: "@ + error@,
    {
        let mut e = String::from_str("Poll error: ");
        e.append(error);
        self.error_message = Some(e);
        self.last_poll = Some(at);
    }
}

/// Shows one view of each pipeline in `pipelines`, ordered by issue number;
/// the rest of the dashboard is left as it was.
pub fn update_dashboard(pipelines: &HashMap<u64, Pipeline>, state: &mut DashboardState)
    ensures
        final(state).repo == old(state).repo,
        final(state).label == old(state).label,
        final(state).poll_interval == old(state).poll_interval,
        final(state).start_time == old(state).start_time,
        final(state).last_poll == old(state).last_poll,
        final(state).error_message == old(state).error_message,
        lists_pipelines(final(state).pipelines@, pipelines@),
        sorted_by_issue(final(state).pipelines@),
        final(state).pipelines@.len() == pipelines@.len(),
{
    state.pipelines = dashboard_views(pipelines);
}

} // verus!
