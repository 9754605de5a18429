//! The GitHub records the daemon reads, and the `gh` and `git` command lines
//! it runs.

use vstd::prelude::*;
use crate::text::{decimal, decimal_string};
use vstd::utf8::{decode_utf8, valid_utf8};

verus! {

/// An issue as `gh issue list` / `gh issue view` report it.
#[derive(Debug, Clone)]
pub struct Issue {
    pub number: u64,
    pub title: String,
    pub body: Option<String>,
    pub state: String,
    pub labels: Vec<Label>,
    pub comments: Vec<Comment>,
}

/// An issue label.
#[derive(Debug, Clone)]
pub struct Label {
    pub name: String,
}

/// A comment on an issue.
#[derive(Debug, Clone)]
pub struct Comment {
    pub author: CommentAuthor,
    pub body: String,
    pub created_at: String,
}

/// The author of a comment.
#[derive(Debug, Clone)]
pub struct CommentAuthor {
    pub login: String,
}

/// A pull request's state, checks and review as `gh pr view` reports them.
#[derive(Debug, Clone)]
pub struct PrStatus {
    pub number: u64,
    pub state: String,
    pub mergeable: String,
    pub review_decision: String,
    pub check_runs: Vec<CheckRun>,
}

/// One check on a pull request.
#[derive(Debug, Clone)]
pub struct CheckRun {
    pub name: String,
    pub status: String,
    pub conclusion: Option<String>,
}

/// A command line's arguments as text.
pub open spec fn arg_texts(args: Seq<String>) -> Seq<Seq<char>> {
    args.map_values(|a: String| a@)
}

fn push_arg(args: &mut Vec<String>, a: &str)
    ensures
        arg_texts(final(args)@) == arg_texts(old(args)@).push(a@),
{
    let ghost before = args@;
    args.push(String::from_str(a));
    assert(arg_texts(args@) =~= arg_texts(before).push(a@));
}

/// The number of issues the first listing of a poll asks for.
pub const FIRST_ISSUE_LIMIT: u64 = 50;

/// `gh` arguments listing up to `limit` open issues of `repo` that carry
/// `label`.
pub open spec fn issue_list_argv(repo: Seq<char>, label: Seq<char>, limit: nat) -> Seq<Seq<char>> {
    seq![
        "issue"@,
        "list"@,
        "--repo"@,
        repo,
        "--label"@,
        label,
        "--state"@,
        "open"@,
        "--json"@,
        "number,title,body,state,labels"@,
        "--limit"@,
        decimal(limit),
    ]
}

/// The `gh` arguments that list up to `limit` open issues of `repo`
/// carrying `label`, as JSON with number, title, body, state and labels.
/// `gh` reports at most `limit` issues; `next_issue_limit` says whether a
/// listing is complete or must be asked for again with a larger limit.
pub fn issue_list_args(repo: &str, label: &str, limit: u64) -> (args: Vec<String>)
    ensures
        arg_texts(args@) == issue_list_argv(repo@, label@, limit as nat),
{
    let mut args: Vec<String> = Vec::new();
    push_arg(&mut args, "issue");
    push_arg(&mut args, "list");
    push_arg(&mut args, "--repo");
    push_arg(&mut args, repo);
    push_arg(&mut args, "--label");
    push_arg(&mut args, label);
    push_arg(&mut args, "--state");
    push_arg(&mut args, "open");
    push_arg(&mut args, "--json");
    push_arg(&mut args, "number,title,body,state,labels");
    push_arg(&mut args, "--limit");
    let n = decimal_string(limit);
    push_arg(&mut args, n.as_str());
    assert(arg_texts(args@) =~= issue_list_argv(repo@, label@, limit as nat));
    args
}

/// The next limit to list issues with, after a listing limited to `limit`
/// returned `returned` issues: `None` when fewer than `limit` came back, so
/// that the listing holds every open issue with the label; otherwise a
/// larger limit, since the listing may have left issues out: twice as large
/// (1 after 0), at most `u64::MAX`. At `u64::MAX` there is no larger limit.
pub fn next_issue_limit(limit: u64, returned: usize) -> (r: Option<u64>)
    ensures
        r is None <==> (returned < limit || limit == u64::MAX),
        r matches Some(next) ==> next > limit && next == (if limit == 0 {
            1
        } else if limit <= u64::MAX / 2 {
            2 * limit
        } else {
            u64::MAX as int
        }),
{
    if (returned as u64) < limit || limit == u64::MAX {
        None
    } else if limit <= u64::MAX / 2 {
        if limit == 0 {
            Some(1)
        } else {
            Some(2 * limit)
        }
    } else {
        Some(u64::MAX)
    }
}

/// `gh` arguments viewing issue `number` of `repo` with its comments.
pub open spec fn issue_view_argv(repo: Seq<char>, number: nat) -> Seq<Seq<char>> {
    seq![
        "issue"@,
        "view"@,
        decimal(number),
        "--repo"@,
        repo,
        "--json"@,
        "number,title,body,state,labels,comments"@,
    ]
}

/// The `gh` arguments that fetch issue `number` of `repo` in full,
/// comments included.
pub fn issue_view_args(repo: &str, number: u64) -> (args: Vec<String>)
    ensures
        arg_texts(args@) == issue_view_argv(repo@, number as nat),
{
    let mut args: Vec<String> = Vec::new();
    push_arg(&mut args, "issue");
    push_arg(&mut args, "view");
    let n = decimal_string(number);
    push_arg(&mut args, n.as_str());
    push_arg(&mut args, "--repo");
    push_arg(&mut args, repo);
    push_arg(&mut args, "--json");
    push_arg(&mut args, "number,title,body,state,labels,comments");
    assert(arg_texts(args@) =~= issue_view_argv(repo@, number as nat));
    args
}

/// `gh` arguments making a shallow, single-branch clone of `repo` at `dest`.
pub open spec fn repo_clone_argv(repo: Seq<char>, dest: Seq<char>) -> Seq<Seq<char>> {
    seq!["repo"@, "clone"@, repo, dest, "--"@, "--depth=1"@, "--single-branch"@]
}

/// The `gh` arguments that shallow-clone `repo` into `dest`.
pub fn repo_clone_args(repo: &str, dest: &str) -> (args: Vec<String>)
    ensures
        arg_texts(args@) == repo_clone_argv(repo@, dest@),
{
    let mut args: Vec<String> = Vec::new();
    push_arg(&mut args, "repo");
    push_arg(&mut args, "clone");
    push_arg(&mut args, repo);
    push_arg(&mut args, dest);
    push_arg(&mut args, "--");
    push_arg(&mut args, "--depth=1");
    push_arg(&mut args, "--single-branch");
    assert(arg_texts(args@) =~= repo_clone_argv(repo@, dest@));
    args
}

/// The `git` arguments that create `branch` and switch to it.
pub fn create_branch_args(branch: &str) -> (args: Vec<String>)
    ensures
        arg_texts(args@) == seq!["checkout"@, "-b"@, branch@],
{
    let mut args: Vec<String> = Vec::new();
    push_arg(&mut args, "checkout");
    push_arg(&mut args, "-b");
    push_arg(&mut args, branch);
    assert(arg_texts(args@) =~= seq!["checkout"@, "-b"@, branch@]);
    args
}

/// The `git` arguments that stage every change.
pub fn stage_all_args() -> (args: Vec<String>)
    ensures
        arg_texts(args@) == seq!["add"@, "-A"@],
{
    let mut args: Vec<String> = Vec::new();
    push_arg(&mut args, "add");
    push_arg(&mut args, "-A");
    assert(arg_texts(args@) =~= seq!["add"@, "-A"@]);
    args
}

/// The `git` arguments that commit the staged changes with `message`.
pub fn commit_args(message: &str) -> (args: Vec<String>)
    ensures
        arg_texts(args@) == seq!["commit"@, "-m"@, message@],
{
    let mut args: Vec<String> = Vec::new();
    push_arg(&mut args, "commit");
    push_arg(&mut args, "-m");
    push_arg(&mut args, message);
    assert(arg_texts(args@) =~= seq!["commit"@, "-m"@, message@]);
    args
}

/// The `git` arguments that push `branch` to `origin` and track it.
pub fn push_branch_args(branch: &str) -> (args: Vec<String>)
    ensures
        arg_texts(args@) == seq!["push"@, "-u"@, "origin"@, branch@],
{
    let mut args: Vec<String> = Vec::new();
    push_arg(&mut args, "push");
    push_arg(&mut args, "-u");
    push_arg(&mut args, "origin");
    push_arg(&mut args, branch);
    assert(arg_texts(args@) =~= seq!["push"@, "-u"@, "origin"@, branch@]);
    args
}

/// `gh` arguments opening a draft pull request of `head` into `base`.
pub open spec fn pr_create_argv(
    repo: Seq<char>,
    base: Seq<char>,
    head: Seq<char>,
    title: Seq<char>,
    body: Seq<char>,
) -> Seq<Seq<char>> {
    seq![
        "pr"@,
        "create"@,
        "--repo"@,
        repo,
        "--base"@,
        base,
        "--head"@,
        head,
        "--title"@,
        title,
        "--body"@,
        body,
        "--draft"@,
        "--json"@,
        "number"@,
    ]
}

/// The `gh` arguments that open a draft pull request and report its number.
pub fn pr_create_args(repo: &str, base: &str, head: &str, title: &str, body: &str) -> (args: Vec<
    String,
>)
    ensures
        arg_texts(args@) == pr_create_argv(repo@, base@, head@, title@, body@),
{
    let mut args: Vec<String> = Vec::new();
    push_arg(&mut args, "pr");
    push_arg(&mut args, "create");
    push_arg(&mut args, "--repo");
    push_arg(&mut args, repo);
    push_arg(&mut args, "--base");
    push_arg(&mut args, base);
    push_arg(&mut args, "--head");
    push_arg(&mut args, head);
    push_arg(&mut args, "--title");
    push_arg(&mut args, title);
    push_arg(&mut args, "--body");
    push_arg(&mut args, body);
    push_arg(&mut args, "--draft");
    push_arg(&mut args, "--json");
    push_arg(&mut args, "number");
    assert(arg_texts(args@) =~= pr_create_argv(repo@, base@, head@, title@, body@));
    args
}

/// `gh` arguments viewing pull request `number` of `repo`.
pub open spec fn pr_view_argv(repo: Seq<char>, number: nat) -> Seq<Seq<char>> {
    seq![
        "pr"@,
        "view"@,
        decimal(number),
        "--repo"@,
        repo,
        "--json"@,
        "number,state,mergeable,reviewDecision,statusCheckRollup"@,
    ]
}

/// The `gh` arguments that fetch the state, mergeability, review decision
/// and checks of pull request `number`.
pub fn pr_view_args(repo: &str, number: u64) -> (args: Vec<String>)
    ensures
        arg_texts(args@) == pr_view_argv(repo@, number as nat),
{
    let mut args: Vec<String> = Vec::new();
    push_arg(&mut args, "pr");
    push_arg(&mut args, "view");
    let n = decimal_string(number);
    push_arg(&mut args, n.as_str());
    push_arg(&mut args, "--repo");
    push_arg(&mut args, repo);
    push_arg(&mut args, "--json");
    push_arg(&mut args, "number,state,mergeable,reviewDecision,statusCheckRollup");
    assert(arg_texts(args@) =~= pr_view_argv(repo@, number as nat));
    args
}

/// The error text for a command that exited unsuccessfully:
/// `<program> <first argument> failed (exit <status>): <stderr>`, with an
/// empty first argument when there is none.
pub open spec fn failure_text(
    program: Seq<char>,
    args: Seq<Seq<char>>,
    status: Seq<char>,
    stderr: Seq<char>,
) -> Seq<char> {
    let first = if args.len() > 0 {
        args[0]
    } else {
        Seq::empty()
    };
    program + " "@ + first + " failed (exit "@ + status + "): "@ + stderr
}

/// Writes the error for a failed `program` run; `stderr` is its error
/// output with surrounding whitespace already removed.
pub fn failure_message(program: &str, args: &Vec<String>, status: &str, stderr: &str) -> (r: String)
    ensures
        r@ == failure_text(program@, arg_texts(args@), status@, stderr@),
{
    let mut r = String::from_str(program);
    r.append(" ");
    if args.len() > 0 {
        r.append(args[0].as_str());
    }
    r.append(" failed (exit ");
    r.append(status);
    r.append("): ");
    r.append(stderr);
    proof {
        if args@.len() == 0 {
            assert(r@ =~= failure_text(program@, arg_texts(args@), status@, stderr@));
        }
    }
    r
}

/// Calls `String::from_utf8`: the bytes as text when they are valid UTF-8,
/// `None` when they are not.
#[verifier::external_body]
fn utf8_text(bytes: Vec<u8>) -> (r: Option<String>)
    ensures
        match r {
            Some(s) => valid_utf8(bytes@) && s@ == decode_utf8(bytes@),
            None => !valid_utf8(bytes@),
        },
{
    String::from_utf8(bytes).ok()
}

/// Why a command's run gave no usable output.
#[derive(Debug, Clone, PartialEq, Eq)]
pub enum CommandError {
    /// The command exited unsuccessfully; the text says how.
    Failed(String),
    /// The command succeeded but its standard output is not UTF-8.
    InvalidUtf8,
}

/// Reads a finished command's result: the failure message when it exited
/// unsuccessfully, else its standard output as text, which must be UTF-8.
pub fn command_output(
    program: &str,
    args: &Vec<String>,
    success: bool,
    status: &str,
    stderr: &str,
    stdout: Vec<u8>,
) -> (r: Result<String, CommandError>)
    ensures
        !success ==> (r matches Err(CommandError::Failed(m)) && m@ == failure_text(
            program@,
            arg_texts(args@),
            status@,
            stderr@,
        )),
        success && valid_utf8(stdout@) ==> (r matches Ok(s) && s@ == decode_utf8(stdout@)),
        success && !valid_utf8(stdout@) ==> r matches Err(CommandError::InvalidUtf8),
{
    if !success {
        return Err(CommandError::Failed(failure_message(program, args, status, stderr)));
    }
    match utf8_text(stdout) {
        Some(s) => Ok(s),
        None => Err(CommandError::InvalidUtf8),
    }
}

} // verus!
