//! The daemon's command-line options and the configuration made of them.

use vstd::prelude::*;
use std::path::PathBuf;
use crate::paths::{clone_path, path_from, path_from_text};

verus! {

/// The command-line options: repository (`owner/repo`), issue label, seconds
/// between polls, the copilot command, and the directory for run artifacts.
#[derive(Debug, Clone)]
pub struct Cli {
    pub repo: String,
    pub label: String,
    pub poll_interval: u64,
    pub copilot_cmd: String,
    pub runs_dir: String,
}

/// The configuration the daemon runs with.
#[derive(Debug)]
pub struct Config {
    pub repo: String,
    pub label: String,
    pub poll_interval: u64,
    pub copilot_cmd: String,
    pub runs_dir: PathBuf,
}

impl Clone for Config {
    fn clone(&self) -> (c: Self)
        ensures
            c.repo == self.repo,
            c.label == self.label,
            c.poll_interval == self.poll_interval,
            c.copilot_cmd == self.copilot_cmd,
            c.runs_dir == self.runs_dir,
    {
        Config {
            repo: self.repo.clone(),
            label: self.label.clone(),
            poll_interval: self.poll_interval,
            copilot_cmd: self.copilot_cmd.clone(),
            runs_dir: clone_path(&self.runs_dir),
        }
    }
}

impl Config {
    /// Takes every option over as it is; the runs directory becomes a path.
    pub fn from_cli(cli: &Cli) -> (c: Self)
        ensures
            c.repo == cli.repo,
            c.label == cli.label,
            c.poll_interval == cli.poll_interval,
            c.copilot_cmd == cli.copilot_cmd,
            c.runs_dir == path_from_text(cli.runs_dir@),
    {
        Config {
            repo: cli.repo.clone(),
            label: cli.label.clone(),
            poll_interval: cli.poll_interval,
            copilot_cmd: cli.copilot_cmd.clone(),
            runs_dir: path_from(&cli.runs_dir),
        }
    }
}

} // verus!
