use guild::dashboard::{DashboardState, PipelineView};
use guild::pipeline::{Pipeline, Stage};
use guild::text::truncate_str;

#[test]
fn test_stage_display() {
    assert_eq!(Stage::Ingest.to_string(), "INGEST");
    assert_eq!(Stage::Understand.to_string(), "UNDERSTAND");
    assert_eq!(Stage::Plan.to_string(), "PLAN");
    assert_eq!(Stage::Implement.to_string(), "IMPLEMENT");
    assert_eq!(Stage::Verify.to_string(), "VERIFY");
    assert_eq!(Stage::Submit.to_string(), "SUBMIT");
    assert_eq!(Stage::Watch.to_string(), "WATCH");
    assert_eq!(Stage::Fix.to_string(), "FIX");
    assert_eq!(Stage::Done.to_string(), "DONE");
    assert_eq!(
        Stage::Failed("oops".to_string()).to_string(),
        "FAILED: oops"
    );
}

#[test]
fn test_stage_index() {
    assert_eq!(Stage::Ingest.stage_index(), 1);
    assert_eq!(Stage::Understand.stage_index(), 2);
    assert_eq!(Stage::Plan.stage_index(), 3);
    assert_eq!(Stage::Implement.stage_index(), 4);
    assert_eq!(Stage::Verify.stage_index(), 5);
    assert_eq!(Stage::Submit.stage_index(), 6);
    assert_eq!(Stage::Watch.stage_index(), 7);
    assert_eq!(Stage::Fix.stage_index(), 8);
    assert_eq!(Stage::Done.stage_index(), 9);
    assert_eq!(Stage::Failed("x".to_string()).stage_index(), 0);
}

#[test]
fn test_stage_count() {
    assert_eq!(Stage::stage_count(), 9);
}

#[test]
fn test_pipeline_view_from_pipeline() {
    let p = Pipeline {
        issue_number: 42,
        repo: "owner/repo".to_string(),
        stage: Stage::Implement,
        run_dir: std::path::PathBuf::from("/tmp/test"),
        worktree: std::path::PathBuf::from("/tmp/test/worktree"),
        pr_number: None,
        blocker_fingerprint: None,
        branch_name: "guild/issue-42".to_string(),
        issue_title: "Fix the auth bug".to_string(),
    };

    let view = PipelineView::from(&p);
    assert_eq!(view.issue_number, 42);
    assert_eq!(view.title, "Fix the auth bug");
    assert_eq!(view.stage, Stage::Implement);
    assert!(!view.is_failed);
}

#[test]
fn test_pipeline_view_empty_title() {
    let p = Pipeline {
        issue_number: 7,
        repo: "owner/repo".to_string(),
        stage: Stage::Ingest,
        run_dir: std::path::PathBuf::from("/tmp/test"),
        worktree: std::path::PathBuf::from("/tmp/test/worktree"),
        pr_number: None,
        blocker_fingerprint: None,
        branch_name: "guild/issue-7".to_string(),
        issue_title: String::new(),
    };

    let view = PipelineView::from(&p);
    assert_eq!(view.title, "Issue #7");
}

#[test]
fn test_dashboard_state_uptime() {
    let state = DashboardState::new("owner/repo".to_string(), "guild".to_string(), 30);
    let uptime = state.uptime_string();
    assert!(uptime.contains("0m"));
}

#[test]
fn test_truncate_str() {
    assert_eq!(truncate_str("hello", 10), "hello");
    assert_eq!(truncate_str("hello world!!!", 5), "hell…");
}
