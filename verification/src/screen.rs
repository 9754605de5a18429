//! The dashboard's content, decided here and drawn by the terminal front
//! end: styled text segments for the header, each pipeline row and the
//! footer, the key that quits, and the colours of the startup banner.

use vstd::prelude::*;
use crate::dashboard::{uptime_text, DashboardState, PipelineView, format_uptime};
use crate::pipeline::{spec_stage_count, spec_stage_index, stage_text, Stage};
use crate::text::{
    digit_value, digits_value, is_digit, lemma_decimal_reads_back,
    can_truncate, contains_text, decimal, decimal_string, pad_end, pad_end_string, text_contains,
    truncate_str, truncated,
};
use crate::time::{elapsed, whole_seconds};

verus! {

/// The colours the dashboard and banner use; `Plain` leaves the terminal's own.
#[derive(Debug, Clone, Copy, PartialEq, Eq)]
pub enum Tone {
    Plain,
    Yellow,
    DarkYellow,
    Cyan,
    Magenta,
    Green,
    Red,
    DarkRed,
    White,
    DarkGray,
}

/// A run of text drawn in one style.
#[derive(Debug, Clone)]
pub struct Segment {
    pub text: String,
    pub tone: Tone,
    pub bold: bool,
    pub italic: bool,
}

/// A segment as a plain value: text, colour, bold, italic.
pub type Styled = (Seq<char>, Tone, bool, bool);

pub open spec fn seg_model(s: Segment) -> Styled {
    (s.text@, s.tone, s.bold, s.italic)
}

pub open spec fn line_model(l: Seq<Segment>) -> Seq<Styled> {
    l.map_values(|s: Segment| seg_model(s))
}

pub open spec fn lines_model(ls: Seq<Vec<Segment>>) -> Seq<Seq<Styled>> {
    ls.map_values(|l: Vec<Segment>| line_model(l@))
}

/// Text with no colour or emphasis.
pub open spec fn plain(t: Seq<char>) -> Styled {
    (t, Tone::Plain, false, false)
}

/// Text in a colour, without emphasis.
pub open spec fn tinted(t: Seq<char>, tone: Tone) -> Styled {
    (t, tone, false, false)
}

/// Text in a colour, in bold.
pub open spec fn strong(t: Seq<char>, tone: Tone) -> Styled {
    (t, tone, true, false)
}

fn push_segment(line: &mut Vec<Segment>, text: String, tone: Tone, bold: bool, italic: bool)
    ensures
        line_model(final(line)@) == line_model(old(line)@).push((text@, tone, bold, italic)),
{
    let ghost before = line@;
    line.push(Segment { text, tone, bold, italic });
    assert(line_model(line@) =~= line_model(before).push(seg_model(line@[line@.len() - 1])));
}

fn push_line(lines: &mut Vec<Vec<Segment>>, line: Vec<Segment>)
    ensures
        lines_model(final(lines)@) == lines_model(old(lines)@).push(line_model(line@)),
{
    let ghost before = lines@;
    let ghost l = line@;
    lines.push(line);
    assert(lines_model(lines@) =~= lines_model(before).push(line_model(l)));
}

/// How long ago the last poll was: `never`, or `<n>s ago`.
pub open spec fn last_poll_text(since: Option<u64>) -> Seq<char> {
    match since {
        None => "never"@,
        Some(n) => decimal(n as nat) + "s ago"@,
    }
}

/// Writes how long ago the last poll was.
pub fn last_poll_string(since: Option<u64>) -> (r: String)
    ensures
        r@ == last_poll_text(since),
{
    match since {
        None => String::from_str("never"),
        Some(n) => {
            let mut r = decimal_string(n);
            r.append("s ago");
            r
        },
    }
}

/// The header's two lines: the product name and repository, then the
/// label, poll interval, last poll and uptime.
pub open spec fn header_model(
    repo: Seq<char>,
    label: Seq<char>,
    poll_interval: u64,
    uptime: Seq<char>,
    last_poll: Seq<char>,
) -> Seq<Seq<Styled>> {
    seq![
        seq![
            strong(" ⚒  GUILD "@, Tone::Yellow),
            plain(" — "@),
            strong(repo, Tone::Cyan),
        ],
        seq![
            plain(" Label: "@),
            tinted(label, Tone::Magenta),
            plain("  │  Poll: "@),
            plain(decimal(poll_interval as nat) + "s"@),
            plain("  │  Last: "@),
            plain(last_poll),
            plain("  │  Uptime: "@),
            tinted(uptime, Tone::Green),
        ],
    ]
}

/// The header for an uptime of `uptime_secs` seconds and, if there was a
/// poll, `since_poll` seconds after it.
pub fn header_lines_at(state: &DashboardState, uptime_secs: u64, since_poll: Option<u64>) -> (lines:
    Vec<Vec<Segment>>)
    ensures
        lines_model(lines@) == header_model(
            state.repo@,
            state.label@,
            state.poll_interval,
            uptime_text(uptime_secs as nat),
            last_poll_text(since_poll),
        ),
{
    let mut first: Vec<Segment> = Vec::new();
    push_segment(&mut first, String::from_str(" ⚒  GUILD "), Tone::Yellow, true, false);
    push_segment(&mut first, String::from_str(" — "), Tone::Plain, false, false);
    push_segment(&mut first, state.repo.clone(), Tone::Cyan, true, false);
    let mut second: Vec<Segment> = Vec::new();
    push_segment(&mut second, String::from_str(" Label: "), Tone::Plain, false, false);
    push_segment(&mut second, state.label.clone(), Tone::Magenta, false, false);
    push_segment(&mut second, String::from_str("  │  Poll: "), Tone::Plain, false, false);
    let mut poll = decimal_string(state.poll_interval);
    poll.append("s");
    push_segment(&mut second, poll, Tone::Plain, false, false);
    push_segment(&mut second, String::from_str("  │  Last: "), Tone::Plain, false, false);
    push_segment(&mut second, last_poll_string(since_poll), Tone::Plain, false, false);
    push_segment(&mut second, String::from_str("  │  Uptime: "), Tone::Plain, false, false);
    push_segment(&mut second, format_uptime(uptime_secs), Tone::Green, false, false);
    let mut lines: Vec<Vec<Segment>> = Vec::new();
    push_line(&mut lines, first);
    push_line(&mut lines, second);
    proof {
        let h = header_model(
            state.repo@,
            state.label@,
            state.poll_interval,
            uptime_text(uptime_secs as nat),
            last_poll_text(since_poll),
        );
        assert(lines_model(lines@)[0] =~= h[0]);
        assert(lines_model(lines@)[1] =~= h[1]);
        assert(lines_model(lines@) =~= h);
    }
    lines
}

/// The header as of now: the uptime and the time since the last poll come
/// from the clock; there is a time since the last poll exactly when there
/// was a poll.
pub fn header_lines(state: &DashboardState) -> (lines: Vec<Vec<Segment>>)
    ensures
        exists|uptime_secs: u64, since_poll: Option<u64>|
            since_poll is Some == state.last_poll is Some && lines_model(lines@) == header_model(
                state.repo@,
                state.label@,
                state.poll_interval,
                uptime_text(uptime_secs as nat),
                last_poll_text(since_poll),
            ),
{
    let uptime_secs = whole_seconds(&elapsed(&state.start_time));
    let since_poll = match &state.last_poll {
        Some(t) => Some(whole_seconds(&elapsed(t))),
        None => None,
    };
    header_lines_at(state, uptime_secs, since_poll)
}

/// The header panel's title.
pub fn header_title() -> (s: Segment)
    ensures
        seg_model(s) == strong(" The Autonomous Software Factory "@, Tone::Yellow),
{
    Segment {
        text: String::from_str(" The Autonomous Software Factory "),
        tone: Tone::Yellow,
        bold: true,
        italic: false,
    }
}

/// The pipelines panel's title.
pub fn panel_title() -> (s: String)
    ensures
        s@ == " ACTIVE PIPELINES "@,
{
    String::from_str(" ACTIVE PIPELINES ")
}

/// The lines of the pipelines panel when there is no pipeline: waiting for
/// labeled issues once a poll has happened, starting up before.
pub open spec fn empty_panel_model(has_polled: bool) -> Seq<Styled> {
    if has_polled {
        seq![
            plain(""@),
            tinted("  No active pipelines"@, Tone::DarkGray),
            plain(""@),
            tinted("  Waiting for issues labeled with the target label..."@, Tone::DarkGray),
        ]
    } else {
        seq![plain(""@), ("  Starting up... waiting for first poll cycle"@, Tone::Yellow, false, true)]
    }
}

/// The pipelines panel's lines when there is no pipeline, one segment each.
pub fn empty_panel_lines(has_polled: bool) -> (lines: Vec<Segment>)
    ensures
        line_model(lines@) == empty_panel_model(has_polled),
{
    let mut lines: Vec<Segment> = Vec::new();
    if has_polled {
        push_segment(&mut lines, String::new(), Tone::Plain, false, false);
        push_segment(&mut lines, String::from_str("  No active pipelines"), Tone::DarkGray, false, false);
        push_segment(&mut lines, String::new(), Tone::Plain, false, false);
        push_segment(
            &mut lines,
            String::from_str("  Waiting for issues labeled with the target label..."),
            Tone::DarkGray,
            false,
            false,
        );
    } else {
        push_segment(&mut lines, String::new(), Tone::Plain, false, false);
        push_segment(
            &mut lines,
            String::from_str("  Starting up... waiting for first poll cycle"),
            Tone::Yellow,
            false,
            true,
        );
    }
    proof {
        assert(""@ =~= Seq::<char>::empty()) by {
            reveal_strlit("");
        }
        assert(line_model(lines@) =~= empty_panel_model(has_polled));
    }
    lines
}

/// A stage's colour: green when done, red when failed, yellow while working.
pub open spec fn stage_tone(s: Stage) -> Tone {
    match s {
        Stage::Done => Tone::Green,
        Stage::Failed(_) => Tone::Red,
        _ => Tone::Yellow,
    }
}

/// A stage's mark: a tick when done, a cross when failed, a gear while working.
pub open spec fn stage_symbol(s: Stage) -> Seq<char> {
    match s {
        Stage::Done => " ✓"@,
        Stage::Failed(_) => " ✗"@,
        _ => " ⚙"@,
    }
}

/// The colour of a stage, for its name, mark and progress bar.
pub fn tone_for_stage(s: &Stage) -> (t: Tone)
    ensures
        t == stage_tone(*s),
{
    match s {
        Stage::Done => Tone::Green,
        Stage::Failed(_) => Tone::Red,
        _ => Tone::Yellow,
    }
}

/// The mark shown after a stage's name.
pub fn symbol_for_stage(s: &Stage) -> (r: String)
    ensures
        r@ == stage_symbol(*s),
{
    match s {
        Stage::Done => String::from_str(" ✓"),
        Stage::Failed(_) => String::from_str(" ✗"),
        _ => String::from_str(" ⚙"),
    }
}

/// The issue number as a row starts it: `  #` and the number, left-aligned
/// in five columns.
pub open spec fn issue_tag(n: u64) -> Seq<char> {
    "  #"@ + pad_end(decimal(n as nat), 5)
}

/// A pipeline row's title line: issue number, title cut to 40 bytes, stage
/// name and mark.
pub open spec fn title_line_model(pv: PipelineView) -> Seq<Styled> {
    seq![
        strong(issue_tag(pv.issue_number), Tone::Cyan),
        tinted(truncated(pv.title@, 40), Tone::White),
        plain("  "@),
        strong(stage_text(pv.stage), stage_tone(pv.stage)),
        tinted(stage_symbol(pv.stage), stage_tone(pv.stage)),
    ]
}

/// The title line of a pipeline row.
pub fn pipeline_title_line(pv: &PipelineView) -> (line: Vec<Segment>)
    requires
        can_truncate(pv.title@, 40),
    ensures
        line_model(line@) == title_line_model(*pv),
{
    let tone = tone_for_stage(&pv.stage);
    let mut tag = String::from_str("  #");
    let number = pad_end_string(decimal_string(pv.issue_number), 5);
    tag.append(number.as_str());
    let mut line: Vec<Segment> = Vec::new();
    push_segment(&mut line, tag, Tone::Cyan, true, false);
    push_segment(&mut line, truncate_str(pv.title.as_str(), 40), Tone::White, false, false);
    push_segment(&mut line, String::from_str("  "), Tone::Plain, false, false);
    push_segment(&mut line, pv.stage.to_string(), tone, true, false);
    push_segment(&mut line, symbol_for_stage(&pv.stage), tone, false, false);
    proof {
        assert(line_model(line@) =~= title_line_model(*pv));
    }
    line
}

/// The progress bar's label: `  stage <index>/<count>`.
pub open spec fn gauge_label_text(s: Stage) -> Seq<char> {
    "  stage "@ + decimal(spec_stage_index(s)) + "/"@ + decimal(spec_stage_count())
}

/// The gauge label reads `  stage <i>/9`, where `<i>` is one digit: the
/// stage's index, 0 for a failed pipeline, which is also the number of
/// stages `progress_parts` fills the bar with.
pub proof fn lemma_gauge_label_layout(s: Stage)
    ensures
        ({
            let t = gauge_label_text(s);
            &&& t.len() == 11
            &&& t.take(8) == "  stage "@
            &&& is_digit(t[8])
            &&& digit_value(t[8]) == spec_stage_index(s)
            &&& digit_value(t[8]) == (if s is Failed { 0 } else { spec_stage_index(s) })
            &&& t[9] == '/'
            &&& t[10] == '9'
        }),
{
    reveal_strlit("  stage ");
    reveal_strlit("/");
    let i = spec_stage_index(s);
    lemma_decimal_reads_back(i);
    lemma_decimal_reads_back(spec_stage_count());
    let d = decimal(i);
    let c = decimal(spec_stage_count());
    assert(d =~= Seq::<char>::empty().push(d[0]));
    assert(c =~= Seq::<char>::empty().push(c[0]));
    reveal_with_fuel(digits_value, 2);
    let t = gauge_label_text(s);
    assert(t =~= "  stage "@ + seq![d[0]] + seq!['/'] + seq![c[0]]);
    assert(t.take(8) =~= "  stage "@);
    assert(digit_value(c[0]) == 9);
    assert(c[0] == '9');
}

/// Writes the progress bar's label.
pub fn gauge_label(s: &Stage) -> (r: String)
    ensures
        r@ == gauge_label_text(*s),
{
    let mut r = String::from_str("  stage ");
    let i = decimal_string(s.stage_index() as u64);
    r.append(i.as_str());
    r.append("/");
    let n = decimal_string(Stage::stage_count() as u64);
    r.append(n.as_str());
    r
}

/// The progress bar's fill as a fraction: none for a failed pipeline, else
/// the stage's index out of the stage count. The fraction never exceeds one.
pub fn progress_parts(pv: &PipelineView) -> (r: (usize, usize))
    ensures
        r.0 == (if pv.is_failed { 0 } else { spec_stage_index(pv.stage) }),
        r.1 == spec_stage_count(),
        r.0 <= r.1,
{
    let total = Stage::stage_count();
    if pv.is_failed {
        (0, total)
    } else {
        (pv.stage.stage_index(), total)
    }
}

/// The footer's three groups: 0 for a pipeline at work, 1 for one that is
/// done, 2 for one that failed.
pub open spec fn stage_group(s: Stage) -> nat {
    match s {
        Stage::Done => 1,
        Stage::Failed(_) => 2,
        _ => 0,
    }
}

/// How many of `vs` are in group `g`.
pub open spec fn count_group(vs: Seq<PipelineView>, g: nat) -> nat
    decreases vs.len(),
{
    if vs.len() == 0 {
        0
    } else {
        count_group(vs.drop_last(), g) + if stage_group(vs.last().stage) == g {
            1nat
        } else {
            0nat
        }
    }
}

/// How the footer counts grow: a view at `Done` adds one to the done count
/// only, a `Failed` one to the failed count only, and a view at any working
/// stage to the active count only; with no views every count is zero.
pub proof fn lemma_count_group_push(vs: Seq<PipelineView>, v: PipelineView)
    ensures
        count_group(Seq::empty(), 0) == 0,
        count_group(Seq::empty(), 1) == 0,
        count_group(Seq::empty(), 2) == 0,
        count_group(vs.push(v), 1) == count_group(vs, 1) + if v.stage is Done {
            1int
        } else {
            0int
        },
        count_group(vs.push(v), 2) == count_group(vs, 2) + if v.stage is Failed {
            1int
        } else {
            0int
        },
        count_group(vs.push(v), 0) == count_group(vs, 0) + if !(v.stage is Done) && !(
        v.stage is Failed) {
            1int
        } else {
            0int
        },
{
    assert(vs.push(v).drop_last() =~= vs);
}

/// Counts the views at work, done and failed.
pub fn footer_counts(vs: &Vec<PipelineView>) -> (r: (usize, usize, usize))
    ensures
        r.0 == count_group(vs@, 0),
        r.1 == count_group(vs@, 1),
        r.2 == count_group(vs@, 2),
{
    let mut active: usize = 0;
    let mut done: usize = 0;
    let mut failed: usize = 0;
    for i in 0..vs.len()
        invariant
            active == count_group(vs@.take(i as int), 0),
            done == count_group(vs@.take(i as int), 1),
            failed == count_group(vs@.take(i as int), 2),
            active + done + failed == i,
    {
        proof {
            assert(vs@.take(i + 1).drop_last() =~= vs@.take(i as int));
            lemma_count_groups(vs@.take(i as int));
        }
        match vs[i].stage {
            Stage::Done => done = done + 1,
            Stage::Failed(_) => failed = failed + 1,
            _ => active = active + 1,
        }
    }
    proof {
        assert(vs@.take(vs@.len() as int) =~= vs@);
    }
    (active, done, failed)
}

/// Every pipeline is counted in exactly one group: the counts at work, done
/// and failed add up to the number of pipelines.
pub proof fn lemma_count_groups(vs: Seq<PipelineView>)
    ensures
        count_group(vs, 0) + count_group(vs, 1) + count_group(vs, 2) == vs.len(),
    decreases vs.len(),
{
    if vs.len() > 0 {
        lemma_count_groups(vs.drop_last());
    }
}

/// The footer: the quit key, the counts, the failed count when there is a
/// failure, and the last error cut to 50 bytes when there is one.
pub open spec fn footer_model(active: nat, done: nat, failed: nat, error: Option<Seq<char>>) -> Seq<
    Styled,
> {
    let base = seq![
        plain("  "@),
        strong("q"@, Tone::Plain),
        plain(": quit  │  "@),
        tinted(decimal(active) + " active"@, Tone::Yellow),
        plain("  "@),
        tinted(decimal(done) + " done"@, Tone::Green),
    ];
    let with_failed = if failed > 0 {
        base + seq![plain("  "@), tinted(decimal(failed) + " failed"@, Tone::Red)]
    } else {
        base
    };
    match error {
        Some(e) => with_failed + seq![plain("  │  "@), tinted(truncated(e, 50), Tone::Red)],
        None => with_failed,
    }
}

/// The error text the footer shows, if any.
pub open spec fn error_text(e: Option<String>) -> Option<Seq<char>> {
    match e {
        Some(s) => Some(s@),
        None => None,
    }
}

/// The footer for `state`.
pub fn footer_segments(state: &DashboardState) -> (line: Vec<Segment>)
    requires
        state.error_message matches Some(e) ==> can_truncate(e@, 50),
    ensures
        line_model(line@) == footer_model(
            count_group(state.pipelines@, 0),
            count_group(state.pipelines@, 1),
            count_group(state.pipelines@, 2),
            error_text(state.error_message),
        ),
{
    let (active, done, failed) = footer_counts(&state.pipelines);
    let mut line: Vec<Segment> = Vec::new();
    push_segment(&mut line, String::from_str("  "), Tone::Plain, false, false);
    push_segment(&mut line, String::from_str("q"), Tone::Plain, true, false);
    push_segment(&mut line, String::from_str(": quit  │  "), Tone::Plain, false, false);
    let mut a = decimal_string(active as u64);
    a.append(" active");
    push_segment(&mut line, a, Tone::Yellow, false, false);
    push_segment(&mut line, String::from_str("  "), Tone::Plain, false, false);
    let mut d = decimal_string(done as u64);
    d.append(" done");
    push_segment(&mut line, d, Tone::Green, false, false);
    let ghost base = line_model(line@);
    if failed > 0 {
        push_segment(&mut line, String::from_str("  "), Tone::Plain, false, false);
        let mut f = decimal_string(failed as u64);
        f.append(" failed");
        push_segment(&mut line, f, Tone::Red, false, false);
    }
    let ghost with_failed = line_model(line@);
    match &state.error_message {
        Some(err) => {
            push_segment(&mut line, String::from_str("  │  "), Tone::Plain, false, false);
            push_segment(&mut line, truncate_str(err.as_str(), 50), Tone::Red, false, false);
        },
        None => {},
    }
    proof {
        let m = footer_model(
            count_group(state.pipelines@, 0),
            count_group(state.pipelines@, 1),
            count_group(state.pipelines@, 2),
            error_text(state.error_message),
        );
        assert(line_model(line@) =~= m);
    }
    line
}

/// A key the dashboard reacts to.
#[derive(Debug, Clone, Copy, PartialEq, Eq)]
pub enum KeyInput {
    Char(char),
    Esc,
    Other,
}

/// The dashboard quits on a press of `q`, `Q` or Escape, and on nothing else.
pub fn should_quit(is_press: bool, key: KeyInput) -> (b: bool)
    ensures
        b == (is_press && (key == KeyInput::Char('q') || key == KeyInput::Char('Q') || key
            == KeyInput::Esc)),
{
    if !is_press {
        return false;
    }
    match key {
        KeyInput::Char(c) => c == 'q' || c == 'Q',
        KeyInput::Esc => true,
        KeyInput::Other => false,
    }
}

/// The colour a banner line is drawn in, checked in this order: the title
/// line in yellow, the forge in red, the flames in dark red, the gears in
/// cyan, the motto in green, the name plate in white; any other line in the
/// banner's base colour (`None`).
pub open spec fn banner_tone(line: Seq<char>) -> Option<Tone> {
    if contains_text(line, "GUILD"@) && contains_text(line, "░▒▓█"@) {
        Some(Tone::Yellow)
    } else if contains_text(line, "FORGE"@) || contains_text(line, "▓▓▓"@) {
        Some(Tone::Red)
    } else if contains_text(line, "🔥"@) {
        Some(Tone::DarkRed)
    } else if contains_text(line, "⚙"@) {
        Some(Tone::Cyan)
    } else if contains_text(line, "We build while you sleep"@) {
        Some(Tone::Green)
    } else if contains_text(line, "AUTONOMOUS"@) || contains_text(line, "F A C T O R Y"@) {
        Some(Tone::White)
    } else {
        None
    }
}

/// The colour a banner line is drawn in; `None` for the base colour.
pub fn banner_line_tone(line: &str) -> (t: Option<Tone>)
    ensures
        t == banner_tone(line@),
{
    if text_contains(line, "GUILD") && text_contains(line, "░▒▓█") {
        Some(Tone::Yellow)
    } else if text_contains(line, "FORGE") || text_contains(line, "▓▓▓") {
        Some(Tone::Red)
    } else if text_contains(line, "🔥") {
        Some(Tone::DarkRed)
    } else if text_contains(line, "⚙") {
        Some(Tone::Cyan)
    } else if text_contains(line, "We build while you sleep") {
        Some(Tone::Green)
    } else if text_contains(line, "AUTONOMOUS") || text_contains(line, "F A C T O R Y") {
        Some(Tone::White)
    } else {
        None
    }
}

/// The banner's base colour, which every line returns to.
pub fn banner_base_tone() -> (t: Tone)
    ensures
        t == Tone::DarkYellow,
{
    Tone::DarkYellow
}

} // verus!
