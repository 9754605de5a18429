//! The stages an issue passes through on its way to a pull request, and the
//! per-issue pipeline record.

use vstd::prelude::*;
use std::path::PathBuf;
use crate::paths::{join, joined_path};
use crate::text::{decimal, decimal_string};

verus! {

/// A pipeline's position: eight working stages in order, then `Done`, or
/// `Failed` with a reason.
#[derive(Debug, PartialEq, Eq)]
pub enum Stage {
    Ingest,
    Understand,
    Plan,
    Implement,
    Verify,
    Submit,
    Watch,
    Fix,
    Done,
    Failed(String),
}

impl Clone for Stage {
    fn clone(&self) -> (r: Self)
        ensures
            r == *self,
    {
        match self {
            Stage::Ingest => Stage::Ingest,
            Stage::Understand => Stage::Understand,
            Stage::Plan => Stage::Plan,
            Stage::Implement => Stage::Implement,
            Stage::Verify => Stage::Verify,
            Stage::Submit => Stage::Submit,
            Stage::Watch => Stage::Watch,
            Stage::Fix => Stage::Fix,
            Stage::Done => Stage::Done,
            Stage::Failed(m) => Stage::Failed(m.clone()),
        }
    }
}

/// The number of stages a successful pipeline counts through.
pub open spec fn spec_stage_count() -> nat {
    9
}

/// The 1-based position of a stage in the pipeline; a failed pipeline is at 0.
pub open spec fn spec_stage_index(s: Stage) -> nat {
    match s {
        Stage::Ingest => 1,
        Stage::Understand => 2,
        Stage::Plan => 3,
        Stage::Implement => 4,
        Stage::Verify => 5,
        Stage::Submit => 6,
        Stage::Watch => 7,
        Stage::Fix => 8,
        Stage::Done => 9,
        Stage::Failed(_) => 0,
    }
}

/// How a stage is written on screen.
pub open spec fn stage_text(s: Stage) -> Seq<char> {
    match s {
        Stage::Ingest => "INGEST"@,
        Stage::Understand => "UNDERSTAND"@,
        Stage::Plan => "PLAN"@,
        Stage::Implement => "IMPLEMENT"@,
        Stage::Verify => "VERIFY"@,
        Stage::Submit => "SUBMIT"@,
        Stage::Watch => "WATCH"@,
        Stage::Fix => "FIX"@,
        Stage::Done => "DONE"@,
        Stage::Failed(m) => "FAILED: "@ + m@,
    }
}

impl Stage {
    /// The stage's position, 1 to 9; 0 for `Failed`.
    pub fn stage_index(&self) -> (i: usize)
        ensures
            i == spec_stage_index(*self),
    {
        match self {
            Stage::Ingest => 1,
            Stage::Understand => 2,
            Stage::Plan => 3,
            Stage::Implement => 4,
            Stage::Verify => 5,
            Stage::Submit => 6,
            Stage::Watch => 7,
            Stage::Fix => 8,
            Stage::Done => 9,
            Stage::Failed(_) => 0,
        }
    }

    /// The number of stages a successful pipeline counts through.
    pub fn stage_count() -> (n: usize)
        ensures
            n == spec_stage_count(),
    {
        9
    }

    /// The stage's name as the dashboard shows it.
    pub fn to_string(&self) -> (r: String)
        ensures
            r@ == stage_text(*self),
    {
        match self {
            Stage::Ingest => String::from_str("INGEST"),
            Stage::Understand => String::from_str("UNDERSTAND"),
            Stage::Plan => String::from_str("PLAN"),
            Stage::Implement => String::from_str("IMPLEMENT"),
            Stage::Verify => String::from_str("VERIFY"),
            Stage::Submit => String::from_str("SUBMIT"),
            Stage::Watch => String::from_str("WATCH"),
            Stage::Fix => String::from_str("FIX"),
            Stage::Done => String::from_str("DONE"),
            Stage::Failed(m) => {
                let mut r = String::from_str("FAILED: ");
                r.append(m.as_str());
                r
            },
        }
    }
}

/// Every stage's index lies between 0 and the stage count, and it is 0
/// exactly for a failed pipeline.
pub proof fn lemma_stage_index_range(s: Stage)
    ensures
        spec_stage_index(s) <= spec_stage_count(),
        spec_stage_index(s) == 0 <==> s is Failed,
{
}

/// The working stages come in a fixed order, each one further along than
/// the one before, and `Done` is furthest of all.
pub proof fn lemma_stage_order()
    ensures
        spec_stage_index(Stage::Ingest) < spec_stage_index(Stage::Understand),
        spec_stage_index(Stage::Understand) < spec_stage_index(Stage::Plan),
        spec_stage_index(Stage::Plan) < spec_stage_index(Stage::Implement),
        spec_stage_index(Stage::Implement) < spec_stage_index(Stage::Verify),
        spec_stage_index(Stage::Verify) < spec_stage_index(Stage::Submit),
        spec_stage_index(Stage::Submit) < spec_stage_index(Stage::Watch),
        spec_stage_index(Stage::Watch) < spec_stage_index(Stage::Fix),
        spec_stage_index(Stage::Fix) < spec_stage_index(Stage::Done),
        spec_stage_index(Stage::Done) == spec_stage_count(),
{
}

/// The state of the work on one issue.
#[derive(Debug)]
pub struct Pipeline {
    pub issue_number: u64,
    pub repo: String,
    pub stage: Stage,
    pub run_dir: PathBuf,
    pub worktree: PathBuf,
    pub pr_number: Option<u64>,
    pub blocker_fingerprint: Option<String>,
    pub branch_name: String,
    pub issue_title: String,
}

/// The name of the per-issue directory and of the branch suffix.
pub open spec fn issue_slug(number: nat) -> Seq<char> {
    "issue-"@ + decimal(number)
}

/// The branch a pipeline works on: `guild/issue-<number>`.
pub open spec fn branch_for(number: nat) -> Seq<char> {
    "guild/"@ + issue_slug(number)
}

/// `p` is the record of a pipeline that has just been opened for issue
/// `number` of `repo`, with its run directory under `runs_dir`.
pub open spec fn is_fresh_pipeline(p: Pipeline, number: u64, repo: Seq<char>, runs_dir: PathBuf) -> bool {
    &&& p.issue_number == number
    &&& p.repo@ == repo
    &&& p.stage == Stage::Ingest
    &&& p.run_dir == joined_path(runs_dir, issue_slug(number as nat))
    &&& p.worktree == joined_path(p.run_dir, "worktree"@)
    &&& p.pr_number is None
    &&& p.blocker_fingerprint is None
    &&& p.branch_name@ == branch_for(number as nat)
    &&& p.issue_title@.len() == 0
}

impl Pipeline {
    /// Opens a pipeline for issue `issue_number` of `repo`: it starts at
    /// `Ingest`, works in `<runs_dir>/issue-<n>/worktree` on the branch
    /// `guild/issue-<n>`, and knows no title, pull request or blocker yet.
    pub fn new(issue_number: u64, repo: String, runs_dir: &PathBuf) -> (p: Pipeline)
        ensures
            is_fresh_pipeline(p, issue_number, repo@, *runs_dir),
    {
        let mut slug = String::from_str("issue-");
        let digits = decimal_string(issue_number);
        slug.append(digits.as_str());
        let run_dir = join(runs_dir, slug.as_str());
        let worktree = join(&run_dir, "worktree");
        let mut branch_name = String::from_str("guild/");
        branch_name.append(slug.as_str());
        Pipeline {
            issue_number,
            repo,
            stage: Stage::Ingest,
            run_dir,
            worktree,
            pr_number: None,
            blocker_fingerprint: None,
            branch_name,
            issue_title: String::new(),
        }
    }

    /// The pipeline has finished its work.
    pub fn is_done(&self) -> (b: bool)
        ensures
            b == (self.stage is Done),
    {
        match self.stage {
            Stage::Done => true,
            _ => false,
        }
    }

    /// The pipeline has stopped on an error.
    pub fn is_failed(&self) -> (b: bool)
        ensures
            b == (self.stage is Failed),
    {
        match self.stage {
            Stage::Failed(_) => true,
            _ => false,
        }
    }
}

} // verus!
