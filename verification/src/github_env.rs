//! Where the bot runs: the repository, the token and the pull request.

use vstd::prelude::*;
use crate::github_event::GithubEventAction;
use crate::text::parse_i64;

verus! {

/// The settings that the bot reads from its CI environment.
#[derive(Debug)]
pub struct GithubActionEnv {
    pub github_api_url: String,
    pub github_repository: String,
    pub github_token: String,
    pub github_actor: String,
    pub pull_request_number: i64,
}

impl GithubActionEnv {
    pub fn new(
        github_api_url: String,
        github_repository: String,
        github_token: String,
        github_actor: String,
        pull_request_number: i64,
    ) -> (r: Self)
        ensures
            r.github_api_url == github_api_url,
            r.github_repository == github_repository,
            r.github_token == github_token,
            r.github_actor == github_actor,
            r.pull_request_number == pull_request_number,
    {
        GithubActionEnv {
            github_api_url,
            github_repository,
            github_token,
            github_actor,
            pull_request_number,
        }
    }
}

/// The API root that the bot uses on Travis.
pub open spec fn travis_api_url() -> Seq<char> {
    "https://api.github.com"@
}

/// The actor that the bot acts as on Travis.
pub open spec fn travis_actor() -> Seq<char> {
    "dp-github-bot"@
}

/// The settings on Travis, from the values of `TRAVIS_PULL_REQUEST_SLUG`,
/// `GITHUB_TOKEN` and `TRAVIS_PULL_REQUEST` (the last already read as a number).
pub fn get_github_env_by_travis(repo: String, github_token: String, pr_number: i64) -> (r:
    GithubActionEnv)
    ensures
        r.github_api_url@ == travis_api_url(),
        r.github_repository == repo,
        r.github_token == github_token,
        r.github_actor@ == travis_actor(),
        r.pull_request_number == pr_number,
{
    let api_url = String::from_str("https://api.github.com");
    let actor = String::from_str("dp-github-bot");
    GithubActionEnv::new(api_url, repo, github_token, actor, pr_number)
}

/// Reads the value of `TRAVIS_PULL_REQUEST` as a pull-request number;
/// `None` where it is not a decimal `i64`.
pub fn parse_pr_number(text: &str) -> (r: Option<i64>)
    ensures
        r == crate::text::spec_parse_i64(text@),
{
    parse_i64(text)
}

/// The settings in a GitHub action, from the values of `GITHUB_API_URL`,
/// `GITHUB_REPOSITORY`, `GITHUB_ACTION_TOKEN` and `GITHUB_ACTOR`, and the
/// event that started the action, whose number is the pull request's.
pub fn get_github_env_by_gh_action(
    api_url: String,
    repo: String,
    github_token: String,
    actor: String,
    event_info: &GithubEventAction,
) -> (r: GithubActionEnv)
    ensures
        r.github_api_url == api_url,
        r.github_repository == repo,
        r.github_token == github_token,
        r.github_actor == actor,
        r.pull_request_number == event_info.number,
{
    GithubActionEnv::new(api_url, repo, github_token, actor, event_info.number)
}

/// The environment variables that the bot reads, by the CI it runs in.
#[derive(Debug)]
pub enum EnvSource {
    /// On Travis: the pull request's slug, the token and the pull-request number.
    Travis { repo: String, github_token: String, pr_number: i64 },
    /// In a GitHub action: API root, repository, token, actor and the event.
    GithubAction {
        api_url: String,
        repo: String,
        github_token: String,
        actor: String,
        event_number: i64,
    },
}

/// The settings for the CI that the bot runs in: Travis where it runs on
/// Travis, a GitHub action otherwise.
pub fn get_github_env(source: EnvSource) -> (r: GithubActionEnv)
    ensures
        match source {
            EnvSource::Travis { repo, github_token, pr_number } => {
                &&& r.github_api_url@ == travis_api_url()
                &&& r.github_repository == repo
                &&& r.github_token == github_token
                &&& r.github_actor@ == travis_actor()
                &&& r.pull_request_number == pr_number
            },
            EnvSource::GithubAction { api_url, repo, github_token, actor, event_number } => {
                &&& r.github_api_url == api_url
                &&& r.github_repository == repo
                &&& r.github_token == github_token
                &&& r.github_actor == actor
                &&& r.pull_request_number == event_number
            },
        },
{
    match source {
        EnvSource::Travis { repo, github_token, pr_number } => {
            get_github_env_by_travis(repo, github_token, pr_number)
        },
        EnvSource::GithubAction { api_url, repo, github_token, actor, event_number } => {
            GithubActionEnv::new(api_url, repo, github_token, actor, event_number)
        },
    }
}

} // verus!
