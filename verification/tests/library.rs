use std::collections::HashMap;
use std::path::PathBuf;
use std::time::Instant;

use guild::config::{Cli, Config};
use guild::daemon::{begin_cycle, finish_cycle, wait_after_cycle, PollOutcome};
use guild::dashboard::{dashboard_views, format_uptime, update_dashboard, DashboardState, PipelineView};
use guild::github::{
    command_output, next_issue_limit, CommandError, FIRST_ISSUE_LIMIT, commit_args, create_branch_args, failure_message, issue_list_args, issue_view_args,
    pr_create_args, pr_view_args, push_branch_args, repo_clone_args, stage_all_args,
};
use guild::registry::{key_list, pipelines_to_advance, register_new_issues, remove_done};
use guild::screen::{
    banner_line_tone, empty_panel_lines, footer_counts, footer_segments, gauge_label,
    header_lines_at, last_poll_string, pipeline_title_line, progress_parts, should_quit,
    KeyInput, Segment, Tone,
};
use guild::pipeline::{Pipeline, Stage};
use guild::text::{
    chars_of, decimal_string, pad_end_string, text_contains, truncate_str, two_digit_string,
};

fn texts(line: &[Segment]) -> Vec<String> {
    line.iter().map(|s| s.text.clone()).collect()
}

fn pipeline(n: u64, stage: Stage, title: &str) -> Pipeline {
    let mut p = Pipeline::new(n, "owner/repo".to_string(), &PathBuf::from("/runs"));
    p.stage = stage;
    p.issue_title = title.to_string();
    p
}

fn view(n: u64, stage: Stage) -> PipelineView {
    PipelineView::from(&pipeline(n, stage, "t"))
}

#[test]
fn decimal_writes_numbers() {
    assert_eq!(decimal_string(0), "0");
    assert_eq!(decimal_string(7), "7");
    assert_eq!(decimal_string(1234567), "1234567");
    assert_eq!(decimal_string(u64::MAX), "18446744073709551615");
}

#[test]
fn two_digits_pads_with_zero() {
    assert_eq!(two_digit_string(0), "00");
    assert_eq!(two_digit_string(5), "05");
    assert_eq!(two_digit_string(42), "42");
    assert_eq!(two_digit_string(123), "123");
}

#[test]
fn pad_end_fills_with_spaces() {
    assert_eq!(pad_end_string("42".to_string(), 5), "42   ");
    assert_eq!(pad_end_string("123456".to_string(), 5), "123456");
}

#[test]
fn contains_finds_substrings() {
    assert!(text_contains("a FORGE b", "FORGE"));
    assert!(text_contains("abc", ""));
    assert!(!text_contains("FORG", "FORGE"));
    assert!(text_contains("x 🔥 y", "🔥"));
    assert_eq!(chars_of("h→i"), vec!['h', '→', 'i']);
}

#[test]
fn truncate_counts_bytes() {
    assert_eq!(truncate_str("abcdef", 6), "abcdef");
    assert_eq!(truncate_str("abcdefg", 6), "abcde…");
    // "é" takes two bytes: byte 3 starts "l".
    assert_eq!(truncate_str("héllo", 4), "hé…");
}

#[test]
fn uptime_formats() {
    assert_eq!(format_uptime(0), "0m 00s");
    assert_eq!(format_uptime(59), "0m 59s");
    assert_eq!(format_uptime(61), "1m 01s");
    assert_eq!(format_uptime(3599), "59m 59s");
    assert_eq!(format_uptime(3600), "1h 00m 00s");
    assert_eq!(format_uptime(3725), "1h 02m 05s");
    assert_eq!(format_uptime(90061), "25h 01m 01s");
}

#[test]
fn stage_clone_is_equal() {
    let s = Stage::Failed("boom".to_string());
    assert_eq!(s.clone(), s);
    assert_eq!(Stage::Watch.clone(), Stage::Watch);
}

#[test]
fn new_pipeline_starts_at_ingest() {
    let runs = PathBuf::from("/var/runs");
    let p = Pipeline::new(42, "owner/repo".to_string(), &runs);
    assert_eq!(p.issue_number, 42);
    assert_eq!(p.repo, "owner/repo");
    assert_eq!(p.stage, Stage::Ingest);
    assert_eq!(p.run_dir, PathBuf::from("/var/runs/issue-42"));
    assert_eq!(p.worktree, PathBuf::from("/var/runs/issue-42/worktree"));
    assert_eq!(p.pr_number, None);
    assert_eq!(p.blocker_fingerprint, None);
    assert_eq!(p.branch_name, "guild/issue-42");
    assert_eq!(p.issue_title, "");
    assert!(!p.is_done());
    assert!(!p.is_failed());
}

#[test]
fn done_and_failed_are_told_apart() {
    let d = pipeline(1, Stage::Done, "a");
    let f = pipeline(2, Stage::Failed("e".to_string()), "b");
    assert!(d.is_done() && !d.is_failed());
    assert!(f.is_failed() && !f.is_done());
}

#[test]
fn failed_view_is_marked_failed() {
    let v = PipelineView::from(&pipeline(3, Stage::Failed("e".to_string()), ""));
    assert!(v.is_failed);
    assert_eq!(v.title, "Issue #3");
    assert_eq!(v.stage, Stage::Failed("e".to_string()));
}

#[test]
fn dashboard_starts_empty() {
    let s = DashboardState::new("o/r".to_string(), "guild".to_string(), 30);
    assert_eq!(s.repo, "o/r");
    assert_eq!(s.label, "guild");
    assert_eq!(s.poll_interval, 30);
    assert!(s.pipelines.is_empty());
    assert!(s.last_poll.is_none());
    assert!(s.error_message.is_none());
}

#[test]
fn poll_status_is_recorded() {
    let mut s = DashboardState::new("o/r".to_string(), "guild".to_string(), 30);
    let t = Instant::now();
    s.record_poll_failure("network down", t);
    assert_eq!(s.error_message.as_deref(), Some("Poll error: network down"));
    assert_eq!(s.last_poll, Some(t));
    s.record_poll_success(t);
    assert!(s.error_message.is_none());
}

#[test]
fn views_are_sorted_by_issue() {
    let mut m = HashMap::new();
    for n in [30u64, 4, 17, 9, 1] {
        m.insert(n, pipeline(n, Stage::Plan, ""));
    }
    let views = dashboard_views(&m);
    let numbers: Vec<u64> = views.iter().map(|v| v.issue_number).collect();
    assert_eq!(numbers, vec![1, 4, 9, 17, 30]);
    assert_eq!(views[2].title, "Issue #9");
}

#[test]
fn keys_are_listed_once() {
    let mut m = HashMap::new();
    m.insert(5u64, pipeline(5, Stage::Plan, ""));
    m.insert(6u64, pipeline(6, Stage::Plan, ""));
    let mut ks = key_list(&m);
    ks.sort();
    assert_eq!(ks, vec![5, 6]);
}

#[test]
fn registering_keeps_existing_pipelines() {
    let runs = PathBuf::from("/runs");
    let mut m = HashMap::new();
    m.insert(1u64, pipeline(1, Stage::Verify, "known"));
    register_new_issues(&mut m, &vec![1, 2, 2, 3], &"owner/repo".to_string(), &runs);
    assert_eq!(m.len(), 3);
    assert_eq!(m[&1].stage, Stage::Verify);
    assert_eq!(m[&1].issue_title, "known");
    assert_eq!(m[&2].stage, Stage::Ingest);
    assert_eq!(m[&3].branch_name, "guild/issue-3");
    // A second registration of the same issues changes nothing.
    register_new_issues(&mut m, &vec![1, 2, 3], &"owner/repo".to_string(), &runs);
    assert_eq!(m.len(), 3);
    assert_eq!(m[&1].stage, Stage::Verify);
}

#[test]
fn only_active_pipelines_advance() {
    let mut m = HashMap::new();
    m.insert(1u64, pipeline(1, Stage::Plan, ""));
    m.insert(2u64, pipeline(2, Stage::Done, ""));
    m.insert(3u64, pipeline(3, Stage::Failed("x".to_string()), ""));
    m.insert(4u64, pipeline(4, Stage::Watch, ""));
    let mut ks = pipelines_to_advance(&m);
    ks.sort();
    assert_eq!(ks, vec![1, 4]);
}

#[test]
fn done_pipelines_are_removed() {
    let mut m = HashMap::new();
    m.insert(1u64, pipeline(1, Stage::Plan, ""));
    m.insert(2u64, pipeline(2, Stage::Done, ""));
    m.insert(3u64, pipeline(3, Stage::Failed("x".to_string()), ""));
    remove_done(&mut m);
    let mut ks: Vec<u64> = m.keys().copied().collect();
    ks.sort();
    assert_eq!(ks, vec![1, 3]);
}

fn config() -> Config {
    Config::from_cli(&Cli {
        repo: "owner/repo".to_string(),
        label: "guild".to_string(),
        poll_interval: 30,
        copilot_cmd: "copilot".to_string(),
        runs_dir: "./runs".to_string(),
    })
}

#[test]
fn config_takes_cli_options() {
    let c = config();
    assert_eq!(c.repo, "owner/repo");
    assert_eq!(c.label, "guild");
    assert_eq!(c.poll_interval, 30);
    assert_eq!(c.copilot_cmd, "copilot");
    assert_eq!(c.runs_dir, PathBuf::from("./runs"));
    let d = c.clone();
    assert_eq!(d.runs_dir, c.runs_dir);
}

#[test]
fn failed_poll_changes_no_pipeline() {
    let c = config();
    let mut m = HashMap::new();
    m.insert(1u64, pipeline(1, Stage::Plan, ""));
    let mut s = DashboardState::new("owner/repo".to_string(), "guild".to_string(), 30);
    let adv = begin_cycle(&mut m, &mut s, &PollOutcome::Failed("boom".to_string()), Instant::now(), &c);
    assert!(adv.is_empty());
    assert_eq!(m.len(), 1);
    assert_eq!(s.error_message.as_deref(), Some("Poll error: boom"));
    assert_eq!(wait_after_cycle(true, true, 30), Some(30));
}

#[test]
fn full_cycle_registers_and_prunes() {
    let c = config();
    let mut m = HashMap::new();
    m.insert(2u64, pipeline(2, Stage::Done, ""));
    let mut s = DashboardState::new("owner/repo".to_string(), "guild".to_string(), 30);
    s.record_poll_failure("old", Instant::now());
    let mut adv = begin_cycle(&mut m, &mut s, &PollOutcome::Fetched(vec![5, 2, 3]), Instant::now(), &c);
    adv.sort();
    assert_eq!(adv, vec![3, 5]);
    assert!(s.error_message.is_none());
    assert_eq!(m[&5].run_dir, PathBuf::from("./runs/issue-5"));
    finish_cycle(&mut m, &mut s);
    let numbers: Vec<u64> = s.pipelines.iter().map(|v| v.issue_number).collect();
    assert_eq!(numbers, vec![3, 5]);
    assert!(!m.contains_key(&2));
    assert_eq!(wait_after_cycle(false, false, 30), Some(30));
    assert_eq!(wait_after_cycle(false, true, 30), None);
}

#[test]
fn gh_arguments() {
    assert_eq!(
        issue_list_args("o/r", "guild", FIRST_ISSUE_LIMIT),
        vec!["issue", "list", "--repo", "o/r", "--label", "guild", "--state", "open", "--json",
            "number,title,body,state,labels", "--limit", "50"]
    );
    assert_eq!(issue_list_args("o/r", "x", 400)[11], "400");
    assert_eq!(
        issue_view_args("o/r", 12),
        vec!["issue", "view", "12", "--repo", "o/r", "--json",
            "number,title,body,state,labels,comments"]
    );
    assert_eq!(
        repo_clone_args("o/r", "/tmp/w"),
        vec!["repo", "clone", "o/r", "/tmp/w", "--", "--depth=1", "--single-branch"]
    );
    assert_eq!(
        pr_create_args("o/r", "main", "guild/issue-1", "T", "B"),
        vec!["pr", "create", "--repo", "o/r", "--base", "main", "--head", "guild/issue-1",
            "--title", "T", "--body", "B", "--draft", "--json", "number"]
    );
    assert_eq!(
        pr_view_args("o/r", 8),
        vec!["pr", "view", "8", "--repo", "o/r", "--json",
            "number,state,mergeable,reviewDecision,statusCheckRollup"]
    );
}

#[test]
fn git_arguments() {
    assert_eq!(create_branch_args("b"), vec!["checkout", "-b", "b"]);
    assert_eq!(stage_all_args(), vec!["add", "-A"]);
    assert_eq!(commit_args("msg"), vec!["commit", "-m", "msg"]);
    assert_eq!(push_branch_args("b"), vec!["push", "-u", "origin", "b"]);
}

#[test]
fn failure_messages() {
    let args = vec!["issue".to_string(), "list".to_string()];
    assert_eq!(
        failure_message("gh", &args, "exit status: 1", "not found"),
        "gh issue failed (exit exit status: 1): not found"
    );
    assert_eq!(failure_message("git", &vec![], "2", ""), "git  failed (exit 2): ");
}

#[test]
fn header_shows_settings_and_times() {
    let s = DashboardState::new("o/r".to_string(), "guild".to_string(), 30);
    let lines = header_lines_at(&s, 65, None);
    assert_eq!(texts(&lines[0]), vec![" ⚒  GUILD ", " — ", "o/r"]);
    assert_eq!(lines[0][0].tone, Tone::Yellow);
    assert!(lines[0][2].bold);
    assert_eq!(
        texts(&lines[1]),
        vec![" Label: ", "guild", "  │  Poll: ", "30s", "  │  Last: ", "never", "  │  Uptime: ",
            "1m 05s"]
    );
    assert_eq!(lines[1][7].tone, Tone::Green);
    assert_eq!(last_poll_string(Some(12)), "12s ago");
}

#[test]
fn empty_panel_messages() {
    let waiting = empty_panel_lines(true);
    assert_eq!(texts(&waiting), vec!["", "  No active pipelines", "",
        "  Waiting for issues labeled with the target label..."]);
    let starting = empty_panel_lines(false);
    assert_eq!(texts(&starting), vec!["", "  Starting up... waiting for first poll cycle"]);
    assert!(starting[1].italic);
}

#[test]
fn pipeline_row_content() {
    let v = PipelineView::from(&pipeline(42, Stage::Implement, "Fix the auth bug"));
    let line = pipeline_title_line(&v);
    assert_eq!(texts(&line), vec!["  #42   ", "Fix the auth bug", "  ", "IMPLEMENT", " ⚙"]);
    assert_eq!(line[3].tone, Tone::Yellow);
    assert_eq!(gauge_label(&v.stage), "  stage 4/9");
    assert_eq!(progress_parts(&v), (4, 9));
    let failed = view(1, Stage::Failed("x".to_string()));
    assert_eq!(progress_parts(&failed), (0, 9));
    assert_eq!(pipeline_title_line(&failed)[4].text, " ✗");
    let done = view(2, Stage::Done);
    assert_eq!(pipeline_title_line(&done)[3].tone, Tone::Green);
    let long = PipelineView::from(&pipeline(3, Stage::Plan, &"x".repeat(45)));
    assert_eq!(pipeline_title_line(&long)[1].text, format!("{}…", "x".repeat(39)));
}

#[test]
fn footer_counts_and_text() {
    let mut s = DashboardState::new("o/r".to_string(), "guild".to_string(), 30);
    s.pipelines = vec![
        view(1, Stage::Plan),
        view(2, Stage::Done),
        view(3, Stage::Failed("x".to_string())),
        view(4, Stage::Fix),
    ];
    assert_eq!(footer_counts(&s.pipelines), (2, 1, 1));
    assert_eq!(
        texts(&footer_segments(&s)),
        vec!["  ", "q", ": quit  │  ", "2 active", "  ", "1 done", "  ", "1 failed"]
    );
    s.pipelines.truncate(2);
    s.record_poll_failure("bad", Instant::now());
    assert_eq!(
        texts(&footer_segments(&s)),
        vec!["  ", "q", ": quit  │  ", "1 active", "  ", "1 done", "  │  ", "Poll error: bad"]
    );
}

#[test]
fn quit_keys() {
    assert!(should_quit(true, KeyInput::Char('q')));
    assert!(should_quit(true, KeyInput::Char('Q')));
    assert!(should_quit(true, KeyInput::Esc));
    assert!(!should_quit(true, KeyInput::Char('x')));
    assert!(!should_quit(true, KeyInput::Other));
    assert!(!should_quit(false, KeyInput::Char('q')));
}

#[test]
fn banner_colours() {
    assert_eq!(banner_line_tone("      ░▒▓█ GUILD █▓▒░"), Some(Tone::Yellow));
    assert_eq!(banner_line_tone("  ║  ░░ FORGE ░░░░  ║"), Some(Tone::Red));
    assert_eq!(banner_line_tone("  ▓▓▓█████▓▓▓▓▓"), Some(Tone::Red));
    assert_eq!(banner_line_tone("   🔥 🔥 🔥"), Some(Tone::DarkRed));
    assert_eq!(banner_line_tone("  │ ⚙ │──│ ⚙ │"), Some(Tone::Cyan));
    assert_eq!(banner_line_tone("\"We build while you sleep\""), Some(Tone::Green));
    assert_eq!(banner_line_tone("THE  AUTONOMOUS  SOFTWARE"), Some(Tone::White));
    assert_eq!(banner_line_tone("  ║     ║"), None);
    assert_eq!(banner_line_tone("GUILD alone"), None);
}

#[test]
fn command_output_reads_results() {
    let args = vec!["issue".to_string()];
    assert_eq!(
        command_output("gh", &args, true, "exit status: 0", "", b"[]".to_vec()),
        Ok("[]".to_string())
    );
    assert_eq!(
        command_output("gh", &args, true, "exit status: 0", "", vec![0xff, 0xfe]),
        Err(CommandError::InvalidUtf8)
    );
    assert_eq!(
        command_output("gh", &args, false, "exit status: 1", "boom", b"[]".to_vec()),
        Err(CommandError::Failed("gh issue failed (exit exit status: 1): boom".to_string()))
    );
}

#[test]
fn update_dashboard_lists_sorted_views() {
    let mut m = HashMap::new();
    m.insert(8u64, pipeline(8, Stage::Done, "eight"));
    m.insert(2u64, pipeline(2, Stage::Plan, ""));
    let mut s = DashboardState::new("o/r".to_string(), "guild".to_string(), 30);
    s.record_poll_failure("kept", Instant::now());
    update_dashboard(&m, &mut s);
    let titles: Vec<String> = s.pipelines.iter().map(|v| v.title.clone()).collect();
    assert_eq!(titles, vec!["Issue #2".to_string(), "eight".to_string()]);
    assert_eq!(s.error_message.as_deref(), Some("Poll error: kept"));
}

#[test]
fn listing_is_repeated_until_complete() {
    assert_eq!(next_issue_limit(50, 12), None);
    assert_eq!(next_issue_limit(50, 49), None);
    assert_eq!(next_issue_limit(50, 50), Some(100));
    assert_eq!(next_issue_limit(100, 100), Some(200));
    assert_eq!(next_issue_limit(0, 0), Some(1));
    assert_eq!(next_issue_limit(u64::MAX / 2 + 1, usize::MAX), Some(u64::MAX));
    assert_eq!(next_issue_limit(u64::MAX, usize::MAX), None);
}

#[test]
fn dashboard_started_at_given_instant() {
    let t = Instant::now();
    let s = DashboardState::started_at("o/r".to_string(), "guild".to_string(), 30, t);
    assert_eq!(s.start_time, t);
    assert_eq!(s.repo, "o/r");
    assert!(s.pipelines.is_empty() && s.last_poll.is_none() && s.error_message.is_none());
}

#[test]
fn truncating_twice_is_truncating_once() {
    for (text, max) in [("hello", 10), ("hello world!!!", 5), ("héllo", 4), ("abcdefg", 6)] {
        let once = truncate_str(text, max);
        assert_eq!(truncate_str(&once, max), once);
    }
}
