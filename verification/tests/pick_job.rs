use pick_merge::branch::{
    find_milestone_id, get_matched_milestone_id, PickAction, PickEvent, PickJob, PickPhase,
};
use pick_merge::github_event::GithubGetMilestoneResponseItem;

fn strings(v: &[&str]) -> Vec<String> {
    v.iter().map(|s| s.to_string()).collect()
}

fn milestone(id: i64, title: &str) -> GithubGetMilestoneResponseItem {
    GithubGetMilestoneResponseItem { id, title: title.to_string() }
}

fn git(args: &[&str]) -> PickAction {
    PickAction::RunGit(strings(args))
}

fn job() -> PickJob {
    PickJob::new(12, "Fix it".to_string(), "release-1.2".to_string(), "bot/new".to_string())
}

#[test]
fn milestone_by_branch_version() {
    let ms = vec![milestone(1, "1.1"), milestone(2, "1.2"), milestone(3, "1.2")];
    assert_eq!(get_matched_milestone_id("release-1.2".to_string(), ms), Some(2));
    let ms = vec![milestone(1, "1.1")];
    assert_eq!(get_matched_milestone_id("release-1.2".to_string(), ms), None);
    let ms = vec![milestone(1, "1.2")];
    assert_eq!(get_matched_milestone_id("main".to_string(), ms), None);
    let ms = vec![milestone(7, "10.20")];
    assert_eq!(get_matched_milestone_id("v10.20.3".to_string(), ms), Some(7));
    let ms = vec![milestone(8, "1-2")];
    assert_eq!(get_matched_milestone_id("release/1-2".to_string(), ms), Some(8));
    assert_eq!(get_matched_milestone_id("1.2".to_string(), Vec::new()), None);
}

#[test]
fn milestone_by_title() {
    let ms = vec![milestone(1, "a"), milestone(2, "b"), milestone(3, "b")];
    assert_eq!(find_milestone_id(&ms, "b"), Some(2));
    assert_eq!(find_milestone_id(&ms, "c"), None);
}

#[test]
fn job_all_commits_picked() {
    let mut j = job();
    assert_eq!(j.next_action(), git(&["switch", "-c", "bot/new", "origin/release-1.2"]));
    j.advance(PickEvent::GitFinished(true));
    assert_eq!(j.next_action(), PickAction::FetchCommits(12));
    j.advance(PickEvent::CommitsFetched(strings(&["c1", "c2"])));
    assert_eq!(j.next_action(), git(&["cherry-pick", "c1"]));
    j.advance(PickEvent::GitFinished(true));
    assert_eq!(j.next_action(), git(&["cherry-pick", "c2"]));
    j.advance(PickEvent::GitFinished(true));
    assert_eq!(j.next_action(), git(&["push", "-u", "origin", "bot/new"]));
    j.advance(PickEvent::GitFinished(true));
    assert_eq!(
        j.next_action(),
        PickAction::OpenPullRequest {
            head: "bot/new".to_string(),
            base: "release-1.2".to_string(),
            title: "Fix it".to_string()
        }
    );
    j.advance(PickEvent::PullRequestOpened(99));
    assert_eq!(
        j.next_action(),
        PickAction::PushComment { pull_request: 99, comment: "Auto pick merge by #12".to_string() }
    );
    j.advance(PickEvent::CommentPushed);
    assert_eq!(j.next_action(), PickAction::FetchMilestones);
    j.advance(PickEvent::MilestonesFetched(vec![milestone(5, "1.2")]));
    assert_eq!(j.next_action(), PickAction::UpdateIssue { pr_number: 12, milestone_id: 5 });
    j.advance(PickEvent::IssueUpdated);
    assert!(j.is_finished());
    assert_eq!(j.next_action(), PickAction::Finish);
    assert_eq!(j.branch_result().not_matched_hash, Vec::<String>::new());
    assert_eq!(j.branch_result().new_branch_name, "bot/new");
}

#[test]
fn job_reports_failed_picks() {
    let mut j = job();
    j.advance(PickEvent::GitFinished(false));
    j.advance(PickEvent::CommitsFetched(strings(&["c1", "c2", "c3"])));
    j.advance(PickEvent::GitFinished(false));
    assert_eq!(j.phase(), PickPhase::AbortPick);
    assert_eq!(j.next_action(), git(&["cherry-pick", "--abort"]));
    j.advance(PickEvent::GitFinished(true));
    assert_eq!(j.next_action(), git(&["cherry-pick", "c2"]));
    j.advance(PickEvent::GitFinished(true));
    assert_eq!(j.next_action(), git(&["cherry-pick", "c3"]));
    j.advance(PickEvent::GitFinished(false));
    j.advance(PickEvent::GitFinished(false));
    assert_eq!(j.next_action(), git(&["push", "-u", "origin", "bot/new"]));
    assert_eq!(j.branch_result().not_matched_hash, strings(&["c1", "c3"]));
    j.advance(PickEvent::GitFinished(true));
    j.advance(PickEvent::PullRequestOpened(100));
    j.advance(PickEvent::CommentPushed);
    assert_eq!(
        j.next_action(),
        PickAction::PushComment {
            pull_request: 100,
            comment: "If there are empty commits, you need to overwrite the empty commits and manually pick the following commits: c1,c3".to_string()
        }
    );
    j.advance(PickEvent::CommentPushed);
    assert_eq!(j.next_action(), PickAction::FetchMilestones);
    j.advance(PickEvent::MilestonesFetched(vec![milestone(5, "2.0")]));
    assert!(j.is_finished());
}

#[test]
fn job_commits_empty_when_nothing_picked() {
    let mut j = job();
    j.advance(PickEvent::GitFinished(true));
    j.advance(PickEvent::CommitsFetched(strings(&["c1"])));
    j.advance(PickEvent::GitFinished(false));
    j.advance(PickEvent::GitFinished(true));
    assert_eq!(
        j.next_action(),
        git(&["commit", "--allow-empty", "-m", "empty: no matched commit"])
    );
    j.advance(PickEvent::GitFinished(true));
    assert_eq!(j.next_action(), git(&["push", "-u", "origin", "bot/new"]));
}

#[test]
fn job_with_no_commits_commits_empty() {
    let mut j = job();
    j.advance(PickEvent::GitFinished(true));
    j.advance(PickEvent::CommitsFetched(Vec::new()));
    assert_eq!(j.phase(), PickPhase::CommitEmpty);
}

#[test]
fn job_ignores_unexpected_reports() {
    let mut j = job();
    j.advance(PickEvent::CommentPushed);
    assert_eq!(j.phase(), PickPhase::SwitchBranch);
    j.advance(PickEvent::GitFinished(true));
    j.advance(PickEvent::GitFinished(true));
    assert_eq!(j.phase(), PickPhase::FetchCommits);
    j.advance(PickEvent::PullRequestOpened(3));
    assert_eq!(j.phase(), PickPhase::FetchCommits);
}

#[test]
fn started_job_names_its_branch() {
    let j = PickJob::start(5, "T".to_string(), "release-3.1".to_string(), 1700000001);
    assert_eq!(j.branch_result().new_branch_name, "bot/auto-pick-release-3.1-1700000001");
    assert_eq!(
        j.next_action(),
        PickAction::RunGit(strings(&[
            "switch",
            "-c",
            "bot/auto-pick-release-3.1-1700000001",
            "origin/release-3.1"
        ]))
    );
}
