//! Decisions of the pick-merge bot: which labels ask for a pick, what the
//! bot names its branches and what it writes to GitHub, and the job that
//! cherry-picks the commits of a merged pull request onto a release branch.

pub mod text;
pub mod types;
pub mod github_event;
pub mod github_env;
pub mod helpers;
pub mod pull_request;
pub mod branch;
