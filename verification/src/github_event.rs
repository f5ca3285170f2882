//! The pull-request event that starts the bot, and GitHub's replies.

use vstd::prelude::*;

verus! {

/// A branch of a pull request (`ref` in GitHub's JSON).
#[derive(Debug)]
pub struct GithubActionPullRequestBranch {
    pub _ref: String,
}

/// A label on a pull request.
#[derive(Debug)]
pub struct GithubActionPullRequestLabel {
    pub id: i64,
    pub name: String,
}

/// The pull request that an event is about.
#[derive(Debug)]
pub struct GithubActionPullRequest {
    pub number: i64,
    pub title: String,
    pub base: GithubActionPullRequestBranch,
    pub head: GithubActionPullRequestBranch,
    pub labels: Vec<GithubActionPullRequestLabel>,
}

/// A `pull_request` event.
#[derive(Debug)]
pub struct GithubEventAction {
    pub action: String,
    pub number: i64,
    pub pull_request: GithubActionPullRequest,
}

/// One commit of a pull request, as GitHub lists it.
#[derive(Debug)]
pub struct GithubGetCommitResponseItem {
    pub sha: String,
}

/// One milestone of the repository.
#[derive(Debug)]
pub struct GithubGetMilestoneResponseItem {
    pub id: i64,
    pub title: String,
}

/// One label of the repository.
#[derive(Debug)]
pub struct GithubGetLabelResponseItem {
    pub id: i64,
    pub title: String,
}

/// GitHub's reply to opening a pull request.
#[derive(Debug)]
pub struct GithubCreatePullRequestResponse {
    pub number: i64,
}

} // verus!
