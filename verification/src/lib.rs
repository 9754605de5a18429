//! Guild: the decision and presentation logic of an issue-to-pull-request
//! daemon, verified with Verus.

pub mod config;
pub mod daemon;
pub mod dashboard;
pub mod github;
pub mod paths;
pub mod pipeline;
pub mod registry;
pub mod screen;
pub mod text;
pub mod time;
