//! Picking a merged pull request onto a release branch: which milestone the
//! branch belongs to, and the job that creates the branch, cherry-picks the
//! commits, opens the pull request and reports what could not be picked.

use vstd::prelude::*;
use crate::github_event::GithubGetMilestoneResponseItem;
use crate::helpers::{
    generate_new_branch_name, generate_pull_request_comment, spec_new_branch_name,
    spec_pull_request_comment,
};
use crate::text::{append_i64, int_text};
use crate::types::CreateNewBranchResult;

verus! {

// ------ milestones ------

/// The pattern that finds the version in a branch name.
pub open spec fn version_pattern() -> Seq<char> {
    "(\\d+.\\d+)"@
}

/// Whether regex's `Regex::new` accepts the pattern.
pub uninterp spec fn regex_compiles(pattern: Seq<char>) -> bool;

/// The text of the first (leftmost-first) match of the pattern in the
/// haystack, as regex's `Regex::find` reports it; `None` where nothing matches.
pub uninterp spec fn regex_first_match(pattern: Seq<char>, haystack: Seq<char>) -> Option<
    Seq<char>,
>;

#[verifier::external_type_specification]
#[verifier::external_body]
pub struct ExRegexError(regex::Error);

/// Compiles `pattern` with regex's `Regex::new` and returns the text of its
/// first match in `haystack` (`Regex::find`, then `Match::as_str`).
/// Claims: the compile fails exactly where the pattern is not accepted;
/// the match is the one that regex gives for this pattern and haystack, and
/// what matched is a piece of the haystack. What regex accepts and which
/// piece it finds is not restated here.
#[verifier::external_body]
fn find_first_match(pattern: &str, haystack: &str) -> (r: Result<Option<String>, regex::Error>)
    ensures
        r is Ok <==> regex_compiles(pattern@),
        r matches Ok(found) ==> match found {
            Some(m) => regex_first_match(pattern@, haystack@) == Some(m@),
            None => regex_first_match(pattern@, haystack@) is None,
        },
        r matches Ok(Some(m)) ==> exists|i: int|
            0 <= i && i + m@.len() <= haystack@.len() && #[trigger] haystack@.subrange(
                i,
                i + m@.len(),
            ) == m@,
{
    let re = regex::Regex::new(pattern)?;
    Ok(re.find(haystack).map(|m| m.as_str().to_string()))
}

/// The id of the first milestone whose title is `title`.
pub open spec fn first_milestone_id(milestones: Seq<GithubGetMilestoneResponseItem>, title: Seq<
    char,
>) -> Option<i64>
    decreases milestones.len(),
{
    if milestones.len() == 0 {
        None
    } else if milestones[0].title@ == title {
        Some(milestones[0].id)
    } else {
        first_milestone_id(milestones.drop_first(), title)
    }
}

/// The id of the first milestone titled `version`; `None` where none is.
pub fn find_milestone_id(milestones: &Vec<GithubGetMilestoneResponseItem>, version: &str) -> (r:
    Option<i64>)
    ensures
        r == first_milestone_id(milestones@, version@),
        match r {
            Some(id) => exists|i: int|
                0 <= i < milestones.len() && (#[trigger] milestones@[i]).title@ == version@
                    && milestones@[i].id == id && forall|j: int|
                    0 <= j < i ==> (#[trigger] milestones@[j]).title@ != version@,
            None => forall|i: int|
                0 <= i < milestones.len() ==> (#[trigger] milestones@[i]).title@ != version@,
        },
{
    let n: usize = milestones.len();
    let wanted = String::from_str(version);
    let mut i: usize = 0;
    assert(milestones@.skip(0) =~= milestones@);
    while i < n
        invariant
            n == milestones@.len(),
            i <= n,
            wanted@ == version@,
            first_milestone_id(milestones@, version@) == first_milestone_id(
                milestones@.skip(i as int),
                version@,
            ),
        decreases n - i,
    {
        assert(milestones@.skip(i as int).drop_first() =~= milestones@.skip(i + 1));
        assert(milestones@.skip(i as int)[0] == milestones@[i as int]);
        if milestones[i].title == wanted {
            proof {
                law_first_milestone_titled_exactly(milestones@, version@);
            }
            return Some(milestones[i].id);
        }
        i = i + 1;
    }
    assert(milestones@.skip(n as int).len() == 0);
    proof {
        law_first_milestone_titled_exactly(milestones@, version@);
    }
    None
}

/// The milestone found for a version is the first milestone whose title is
/// exactly the version; none is found only where no title is the version.
pub proof fn law_first_milestone_titled_exactly(
    milestones: Seq<GithubGetMilestoneResponseItem>,
    title: Seq<char>,
)
    ensures
        match first_milestone_id(milestones, title) {
            Some(id) => exists|i: int|
                0 <= i < milestones.len() && (#[trigger] milestones[i]).title@ == title
                    && milestones[i].id == id && forall|j: int|
                    0 <= j < i ==> (#[trigger] milestones[j]).title@ != title,
            None => forall|i: int|
                0 <= i < milestones.len() ==> (#[trigger] milestones[i]).title@ != title,
        },
    decreases milestones.len(),
{
    if milestones.len() > 0 {
        let rest = milestones.drop_first();
        law_first_milestone_titled_exactly(rest, title);
        if milestones[0].title@ != title {
            match first_milestone_id(rest, title) {
                Some(id) => {
                    let k = choose|k: int|
                        0 <= k < rest.len() && (#[trigger] rest[k]).title@ == title && rest[k].id
                            == id && forall|j: int| 0 <= j < k ==> (#[trigger] rest[j]).title@ != title;
                    assert(milestones[k + 1] == rest[k]);
                    assert forall|j: int| 0 <= j < k + 1 implies (#[trigger] milestones[j]).title@
                        != title by {
                        if j > 0 {
                            assert(milestones[j] == rest[j - 1]);
                        }
                    }
                },
                None => {
                    assert forall|i: int| 0 <= i < milestones.len() implies (
                    #[trigger] milestones[i]).title@ != title by {
                        if i > 0 {
                            assert(milestones[i] == rest[i - 1]);
                        }
                    }
                },
            }
        }
    }
}

/// The milestone of the branch: the first milestone titled with the version
/// that the branch name carries.
pub open spec fn spec_matched_milestone_id(
    dest_branch: Seq<char>,
    milestones: Seq<GithubGetMilestoneResponseItem>,
) -> Option<i64> {
    if regex_compiles(version_pattern()) {
        match regex_first_match(version_pattern(), dest_branch) {
            Some(version) => first_milestone_id(milestones, version),
            None => None,
        }
    } else {
        None
    }
}

/// The id of the milestone whose title is the version in `dest_branch`
/// (the first match of `(\d+.\d+)`); `None` where the branch carries no
/// version or no milestone has it as title.
pub fn get_matched_milestone_id(
    dest_branch: String,
    milestones: Vec<GithubGetMilestoneResponseItem>,
) -> (r: Option<i64>)
    ensures
        r == spec_matched_milestone_id(dest_branch@, milestones@),
        r matches Some(id) ==> exists|i: int|
            0 <= i < milestones.len() && (#[trigger] milestones@[i]).id == id
                && regex_first_match("(\\d+.\\d+)"@, dest_branch@) == Some(milestones@[i].title@),
{
    match find_first_match("(\\d+.\\d+)", dest_branch.as_str()) {
        Ok(Some(version)) => find_milestone_id(&milestones, version.as_str()),
        Ok(None) => None,
        Err(_) => None,
    }
}


// ------ the pick job ------

/// Where a pick job stands: the step whose outcome it waits for.
#[derive(Clone, Copy, PartialEq, Eq, Structural, Debug)]
pub enum PickPhase {
    /// Create the new branch from the destination branch.
    SwitchBranch,
    /// List the commits of the pull request.
    FetchCommits,
    /// Cherry-pick the next commit.
    CherryPick,
    /// Abort the cherry-pick that failed.
    AbortPick,
    /// Commit an empty commit: no commit could be picked.
    CommitEmpty,
    /// Push the new branch.
    PushBranch,
    /// Open the pull request from the new branch.
    OpenPullRequest,
    /// Comment on the new pull request where it comes from.
    CommentOpened,
    /// Comment on the new pull request which commits could not be picked.
    CommentUnpicked,
    /// List the milestones of the repository.
    FetchMilestones,
    /// Put the merged pull request on the branch's milestone.
    UpdateIssue,
    /// Nothing is left to do.
    Finished,
}

/// What the job asks its runner to do next.
#[derive(Debug, PartialEq, Eq)]
pub enum PickAction {
    /// Run `git` with these arguments.
    RunGit(Vec<String>),
    /// List the commit hashes of this pull request.
    FetchCommits(i64),
    /// Open a pull request from `head` onto `base` with this title.
    OpenPullRequest { head: String, base: String, title: String },
    /// Comment on this pull request.
    PushComment { pull_request: i64, comment: String },
    /// List the milestones of the repository.
    FetchMilestones,
    /// Put this pull request on this milestone.
    UpdateIssue { pr_number: i64, milestone_id: i64 },
    /// The job is done.
    Finish,
}

/// What the runner reports back.
pub enum PickEvent {
    /// `git` ran; whether it succeeded.
    GitFinished(bool),
    /// The commit hashes of the pull request, in its order.
    CommitsFetched(Vec<String>),
    /// The pull request was opened under this number.
    PullRequestOpened(i64),
    /// The comment was posted.
    CommentPushed,
    /// The milestones of the repository.
    MilestonesFetched(Vec<GithubGetMilestoneResponseItem>),
    /// The pull request was put on the milestone.
    IssueUpdated,
}

/// An action as plain values.
pub enum PickActionView {
    RunGit(Seq<Seq<char>>),
    FetchCommits(i64),
    OpenPullRequest { head: Seq<char>, base: Seq<char>, title: Seq<char> },
    PushComment { pull_request: i64, comment: Seq<char> },
    FetchMilestones,
    UpdateIssue { pr_number: i64, milestone_id: i64 },
    Finish,
}

/// An event as plain values.
pub enum PickEventView {
    GitFinished(bool),
    CommitsFetched(Seq<Seq<char>>),
    PullRequestOpened(i64),
    CommentPushed,
    MilestonesFetched(Seq<GithubGetMilestoneResponseItem>),
    IssueUpdated,
}

impl View for PickAction {
    type V = PickActionView;

    open spec fn view(&self) -> PickActionView {
        match self {
            PickAction::RunGit(args) => PickActionView::RunGit(args.deep_view()),
            PickAction::FetchCommits(n) => PickActionView::FetchCommits(*n),
            PickAction::OpenPullRequest { head, base, title } => PickActionView::OpenPullRequest {
                head: head@,
                base: base@,
                title: title@,
            },
            PickAction::PushComment { pull_request, comment } => PickActionView::PushComment {
                pull_request: *pull_request,
                comment: comment@,
            },
            PickAction::FetchMilestones => PickActionView::FetchMilestones,
            PickAction::UpdateIssue { pr_number, milestone_id } => PickActionView::UpdateIssue {
                pr_number: *pr_number,
                milestone_id: *milestone_id,
            },
            PickAction::Finish => PickActionView::Finish,
        }
    }
}

impl View for PickEvent {
    type V = PickEventView;

    open spec fn view(&self) -> PickEventView {
        match self {
            PickEvent::GitFinished(ok) => PickEventView::GitFinished(*ok),
            PickEvent::CommitsFetched(list) => PickEventView::CommitsFetched(list.deep_view()),
            PickEvent::PullRequestOpened(n) => PickEventView::PullRequestOpened(*n),
            PickEvent::CommentPushed => PickEventView::CommentPushed,
            PickEvent::MilestonesFetched(list) => PickEventView::MilestonesFetched(list@),
            PickEvent::IssueUpdated => PickEventView::IssueUpdated,
        }
    }
}

/// A pick job as plain values. `outcomes[i]` says whether the cherry-pick
/// of `commits[i]` succeeded; its length is the number of commits tried.
pub struct PickJobView {
    pub pr_number: i64,
    pub pr_title: Seq<char>,
    pub dest_branch: Seq<char>,
    pub new_branch_name: Seq<char>,
    pub phase: PickPhase,
    pub commits: Seq<Seq<char>>,
    pub outcomes: Seq<bool>,
    pub pull_request_id: i64,
    pub milestone_id: i64,
}

/// The commits among the first `outcomes.len()` whose outcome is `picked`, in order.
pub open spec fn select(commits: Seq<Seq<char>>, outcomes: Seq<bool>, picked: bool) -> Seq<
    Seq<char>,
>
    decreases outcomes.len(),
{
    if outcomes.len() == 0 {
        Seq::empty()
    } else {
        let prev = select(commits, outcomes.drop_last(), picked);
        if outcomes.last() == picked {
            prev.push(commits[outcomes.len() - 1])
        } else {
            prev
        }
    }
}

impl PickJobView {
    /// The commits that were cherry-picked.
    pub open spec fn matched_hash(self) -> Seq<Seq<char>> {
        select(self.commits, self.outcomes, true)
    }

    /// The commits that could not be cherry-picked.
    pub open spec fn not_matched_hash(self) -> Seq<Seq<char>> {
        select(self.commits, self.outcomes, false)
    }
}

/// Where the job goes once a commit is done: the next commit while there is
/// one, else an empty commit where none was picked, else the push.
pub open spec fn spec_route(s: PickJobView) -> PickPhase {
    if s.outcomes.len() < s.commits.len() {
        PickPhase::CherryPick
    } else if s.matched_hash().len() == 0 {
        PickPhase::CommitEmpty
    } else {
        PickPhase::PushBranch
    }
}

/// The comment that says where the new pull request comes from.
pub open spec fn spec_auto_pick_comment(pr_number: i64) -> Seq<char> {
    "Auto pick merge by #"@ + int_text(pr_number as int)
}

/// The action that each phase asks for.
pub open spec fn spec_action(s: PickJobView) -> PickActionView {
    match s.phase {
        PickPhase::SwitchBranch => PickActionView::RunGit(
            seq!["switch"@, "-c"@, s.new_branch_name, "origin/"@ + s.dest_branch],
        ),
        PickPhase::FetchCommits => PickActionView::FetchCommits(s.pr_number),
        PickPhase::CherryPick => PickActionView::RunGit(
            seq!["cherry-pick"@, s.commits[s.outcomes.len() as int]],
        ),
        PickPhase::AbortPick => PickActionView::RunGit(seq!["cherry-pick"@, "--abort"@]),
        PickPhase::CommitEmpty => PickActionView::RunGit(
            seq!["commit"@, "--allow-empty"@, "-m"@, "empty: no matched commit"@],
        ),
        PickPhase::PushBranch => PickActionView::RunGit(
            seq!["push"@, "-u"@, "origin"@, s.new_branch_name],
        ),
        PickPhase::OpenPullRequest => PickActionView::OpenPullRequest {
            head: s.new_branch_name,
            base: s.dest_branch,
            title: s.pr_title,
        },
        PickPhase::CommentOpened => PickActionView::PushComment {
            pull_request: s.pull_request_id,
            comment: spec_auto_pick_comment(s.pr_number),
        },
        PickPhase::CommentUnpicked => PickActionView::PushComment {
            pull_request: s.pull_request_id,
            comment: spec_pull_request_comment(s.not_matched_hash()),
        },
        PickPhase::FetchMilestones => PickActionView::FetchMilestones,
        PickPhase::UpdateIssue => PickActionView::UpdateIssue {
            pr_number: s.pr_number,
            milestone_id: s.milestone_id,
        },
        PickPhase::Finished => PickActionView::Finish,
    }
}

/// The job after an event. An event that the phase does not wait for
/// leaves the job as it is.
pub open spec fn spec_advance(s: PickJobView, e: PickEventView) -> PickJobView {
    match s.phase {
        PickPhase::SwitchBranch => match e {
            PickEventView::GitFinished(_) => PickJobView { phase: PickPhase::FetchCommits, ..s },
            _ => s,
        },
        PickPhase::FetchCommits => match e {
            PickEventView::CommitsFetched(list) => {
                let t = PickJobView { commits: list, outcomes: Seq::empty(), ..s };
                PickJobView { phase: spec_route(t), ..t }
            },
            _ => s,
        },
        PickPhase::CherryPick => match e {
            PickEventView::GitFinished(ok) => if ok {
                let t = PickJobView { outcomes: s.outcomes.push(true), ..s };
                PickJobView { phase: spec_route(t), ..t }
            } else {
                PickJobView { phase: PickPhase::AbortPick, ..s }
            },
            _ => s,
        },
        PickPhase::AbortPick => match e {
            PickEventView::GitFinished(_) => {
                let t = PickJobView { outcomes: s.outcomes.push(false), ..s };
                PickJobView { phase: spec_route(t), ..t }
            },
            _ => s,
        },
        PickPhase::CommitEmpty => match e {
            PickEventView::GitFinished(_) => PickJobView { phase: PickPhase::PushBranch, ..s },
            _ => s,
        },
        PickPhase::PushBranch => match e {
            PickEventView::GitFinished(_) => PickJobView { phase: PickPhase::OpenPullRequest, ..s },
            _ => s,
        },
        PickPhase::OpenPullRequest => match e {
            PickEventView::PullRequestOpened(id) => PickJobView {
                phase: PickPhase::CommentOpened,
                pull_request_id: id,
                ..s
            },
            _ => s,
        },
        PickPhase::CommentOpened => match e {
            PickEventView::CommentPushed => if s.not_matched_hash().len() > 0 {
                PickJobView { phase: PickPhase::CommentUnpicked, ..s }
            } else {
                PickJobView { phase: PickPhase::FetchMilestones, ..s }
            },
            _ => s,
        },
        PickPhase::CommentUnpicked => match e {
            PickEventView::CommentPushed => PickJobView { phase: PickPhase::FetchMilestones, ..s },
            _ => s,
        },
        PickPhase::FetchMilestones => match e {
            PickEventView::MilestonesFetched(list) => match spec_matched_milestone_id(
                s.dest_branch,
                list,
            ) {
                Some(id) => PickJobView { phase: PickPhase::UpdateIssue, milestone_id: id, ..s },
                None => PickJobView { phase: PickPhase::Finished, ..s },
            },
            _ => s,
        },
        PickPhase::UpdateIssue => match e {
            PickEventView::IssueUpdated => PickJobView { phase: PickPhase::Finished, ..s },
            _ => s,
        },
        PickPhase::Finished => s,
    }
}

/// The state that every job keeps: the commits are tried in order, the
/// phase matches how far they are, and nothing is tried before they are listed.
pub open spec fn spec_job_wf(s: PickJobView) -> bool {
    &&& s.outcomes.len() <= s.commits.len()
    &&& (s.phase == PickPhase::SwitchBranch || s.phase == PickPhase::FetchCommits) ==> (
    s.commits.len() == 0 && s.outcomes.len() == 0)
    &&& (s.phase == PickPhase::CherryPick || s.phase == PickPhase::AbortPick) ==> s.outcomes.len()
        < s.commits.len()
    &&& !(s.phase == PickPhase::SwitchBranch || s.phase == PickPhase::FetchCommits
        || s.phase == PickPhase::CherryPick || s.phase == PickPhase::AbortPick) ==> s.outcomes.len()
        == s.commits.len()
    &&& s.phase == PickPhase::CommitEmpty ==> s.matched_hash().len() == 0
}

/// A job that picks the commits of pull request `pr_number` onto `dest_branch`
/// through the new branch `new_branch_name`, opens a pull request for them
/// and puts the merged pull request on the branch's milestone.
pub struct PickJob {
    pr_number: i64,
    pr_title: String,
    dest_branch: String,
    new_branch_name: String,
    phase: PickPhase,
    commits: Vec<String>,
    next_commit: usize,
    matched_hash: Vec<String>,
    not_matched_hash: Vec<String>,
    outcomes: Ghost<Seq<bool>>,
    pull_request_id: i64,
    milestone_id: i64,
}

impl View for PickJob {
    type V = PickJobView;

    closed spec fn view(&self) -> PickJobView {
        PickJobView {
            pr_number: self.pr_number,
            pr_title: self.pr_title@,
            dest_branch: self.dest_branch@,
            new_branch_name: self.new_branch_name@,
            phase: self.phase,
            commits: self.commits.deep_view(),
            outcomes: self.outcomes@,
            pull_request_id: self.pull_request_id,
            milestone_id: self.milestone_id,
        }
    }
}

fn copy_strings(v: &Vec<String>) -> (r: Vec<String>)
    ensures
        r.deep_view() == v.deep_view(),
{
    let mut res: Vec<String> = Vec::new();
    let n: usize = v.len();
    let mut i: usize = 0;
    while i < n
        invariant
            n == v.len(),
            i <= n,
            res.deep_view() == v.deep_view().take(i as int),
        decreases n - i,
    {
        let ghost before = res.deep_view();
        res.push(v[i].clone());
        assert(res.deep_view() =~= before.push(v[i as int]@));
        assert(v.deep_view().take(i + 1) =~= v.deep_view().take(i as int).push(v[i as int]@));
        i = i + 1;
    }
    assert(v.deep_view().take(n as int) =~= v.deep_view());
    res
}

proof fn lemma_select_push(commits: Seq<Seq<char>>, outcomes: Seq<bool>, ok: bool, picked: bool)
    ensures
        select(commits, outcomes.push(ok), picked) == if ok == picked {
            select(commits, outcomes, picked).push(commits[outcomes.len() as int])
        } else {
            select(commits, outcomes, picked)
        },
{
    assert(outcomes.push(ok).drop_last() =~= outcomes);
}

impl PickJob {
    /// What every job keeps: its state is consistent, and the counter and the
    /// two lists of commits agree with the outcomes of the commits tried.
    #[verifier::type_invariant]
    closed spec fn inv(self) -> bool {
        &&& spec_job_wf(self@)
        &&& self.next_commit == self.outcomes@.len()
        &&& self.matched_hash.deep_view() == self@.matched_hash()
        &&& self.not_matched_hash.deep_view() == self@.not_matched_hash()
    }

    /// A job that has done nothing yet; its first step creates the branch
    /// `new_branch_name`.
    pub fn new(pr_number: i64, pr_title: String, dest_branch: String, new_branch_name: String) -> (r:
        PickJob)
        ensures
            r@ == (PickJobView {
                pr_number,
                pr_title: pr_title@,
                dest_branch: dest_branch@,
                new_branch_name: new_branch_name@,
                phase: PickPhase::SwitchBranch,
                commits: Seq::empty(),
                outcomes: Seq::empty(),
                pull_request_id: 0,
                milestone_id: 0,
            }),
            spec_job_wf(r@),
    {
        let ghost empty: Seq<Seq<char>> = Seq::empty();
        let commits: Vec<String> = Vec::new();
        let matched_hash: Vec<String> = Vec::new();
        let not_matched_hash: Vec<String> = Vec::new();
        assert(commits.deep_view() =~= empty);
        assert(matched_hash.deep_view() =~= empty);
        assert(not_matched_hash.deep_view() =~= empty);
        PickJob {
            pr_number,
            pr_title,
            dest_branch,
            new_branch_name,
            phase: PickPhase::SwitchBranch,
            commits,
            next_commit: 0,
            matched_hash,
            not_matched_hash,
            outcomes: Ghost(Seq::empty()),
            pull_request_id: 0,
            milestone_id: 0,
        }
    }

    /// A job that picks pull request `pr_number` onto `dest_branch` through
    /// the branch `bot/auto-pick-<dest_branch>-<timestamp>`, where `timestamp`
    /// is the current UNIX time that the caller read from the clock.
    pub fn start(pr_number: i64, pr_title: String, dest_branch: String, timestamp: i64) -> (r:
        PickJob)
        ensures
            r@ == (PickJobView {
                pr_number,
                pr_title: pr_title@,
                dest_branch: dest_branch@,
                new_branch_name: spec_new_branch_name(dest_branch@, timestamp as int),
                phase: PickPhase::SwitchBranch,
                commits: Seq::empty(),
                outcomes: Seq::empty(),
                pull_request_id: 0,
                milestone_id: 0,
            }),
            spec_job_wf(r@),
    {
        let new_branch_name = generate_new_branch_name(dest_branch.clone(), timestamp);
        PickJob::new(pr_number, pr_title, dest_branch, new_branch_name)
    }

    /// The phase the job is in.
    pub fn phase(&self) -> (r: PickPhase)
        ensures
            r == self@.phase,
    {
        self.phase
    }

    /// Whether nothing is left to do.
    pub fn is_finished(&self) -> (r: bool)
        ensures
            r == (self@.phase == PickPhase::Finished),
    {
        self.phase == PickPhase::Finished
    }

    /// The new branch and the commits that could not be picked onto it.
    pub fn branch_result(&self) -> (r: CreateNewBranchResult)
        ensures
            r.new_branch_name@ == self@.new_branch_name,
            r.not_matched_hash.deep_view() == self@.not_matched_hash(),
    {
        proof {
            use_type_invariant(self);
        }
        CreateNewBranchResult::new(self.new_branch_name.clone(), copy_strings(&self.not_matched_hash))
    }

    /// What the runner is to do in the current phase.
    pub fn next_action(&self) -> (r: PickAction)
        ensures
            r@ == spec_action(self@),
    {
        proof {
            use_type_invariant(self);
        }
        match self.phase {
            PickPhase::SwitchBranch => {
                let mut origin = String::from_str("origin/");
                origin.append(self.dest_branch.as_str());
                let args: Vec<String> = vec![
                    String::from_str("switch"),
                    String::from_str("-c"),
                    self.new_branch_name.clone(),
                    origin,
                ];
                assert(args.deep_view() =~= seq![
                    "switch"@,
                    "-c"@,
                    self@.new_branch_name,
                    "origin/"@ + self@.dest_branch,
                ]);
                PickAction::RunGit(args)
            },
            PickPhase::FetchCommits => PickAction::FetchCommits(self.pr_number),
            PickPhase::CherryPick => {
                assert(self@.commits.len() == self.commits@.len());
                let args: Vec<String> = vec![
                    String::from_str("cherry-pick"),
                    self.commits[self.next_commit].clone(),
                ];
                assert(args.deep_view() =~= seq![
                    "cherry-pick"@,
                    self@.commits[self@.outcomes.len() as int],
                ]);
                PickAction::RunGit(args)
            },
            PickPhase::AbortPick => {
                let args: Vec<String> = vec![
                    String::from_str("cherry-pick"),
                    String::from_str("--abort"),
                ];
                assert(args.deep_view() =~= seq!["cherry-pick"@, "--abort"@]);
                PickAction::RunGit(args)
            },
            PickPhase::CommitEmpty => {
                let args: Vec<String> = vec![
                    String::from_str("commit"),
                    String::from_str("--allow-empty"),
                    String::from_str("-m"),
                    String::from_str("empty: no matched commit"),
                ];
                assert(args.deep_view() =~= seq![
                    "commit"@,
                    "--allow-empty"@,
                    "-m"@,
                    "empty: no matched commit"@,
                ]);
                PickAction::RunGit(args)
            },
            PickPhase::PushBranch => {
                let args: Vec<String> = vec![
                    String::from_str("push"),
                    String::from_str("-u"),
                    String::from_str("origin"),
                    self.new_branch_name.clone(),
                ];
                assert(args.deep_view() =~= seq!["push"@, "-u"@, "origin"@, self@.new_branch_name]);
                PickAction::RunGit(args)
            },
            PickPhase::OpenPullRequest => PickAction::OpenPullRequest {
                head: self.new_branch_name.clone(),
                base: self.dest_branch.clone(),
                title: self.pr_title.clone(),
            },
            PickPhase::CommentOpened => {
                let mut comment = String::from_str("Auto pick merge by #");
                append_i64(&mut comment, self.pr_number);
                PickAction::PushComment { pull_request: self.pull_request_id, comment }
            },
            PickPhase::CommentUnpicked => {
                let comment = generate_pull_request_comment(copy_strings(&self.not_matched_hash));
                PickAction::PushComment { pull_request: self.pull_request_id, comment }
            },
            PickPhase::FetchMilestones => PickAction::FetchMilestones,
            PickPhase::UpdateIssue => PickAction::UpdateIssue {
                pr_number: self.pr_number,
                milestone_id: self.milestone_id,
            },
            PickPhase::Finished => PickAction::Finish,
        }
    }

    /// Takes in what the runner reports and moves the job on.
    pub fn advance(&mut self, event: PickEvent)
        ensures
            final(self)@ == spec_advance(old(self)@, event@),
            spec_job_wf(final(self)@),
            old(self)@.phase == PickPhase::FetchCommits ==> match event {
                PickEvent::CommitsFetched(list) => final(self)@.commits == list.deep_view()
                    && final(self)@.outcomes.len() == 0,
                _ => final(self)@ == old(self)@,
            },
            old(self)@.phase != PickPhase::SwitchBranch && old(self)@.phase
                != PickPhase::FetchCommits ==> final(self)@.commits == old(self)@.commits
                && old(self)@.outcomes.is_prefix_of(final(self)@.outcomes),
    {
        proof {
            if self@.phase != PickPhase::SwitchBranch && self@.phase != PickPhase::FetchCommits {
                law_commits_tried_in_order(self@, event@);
            }
        }
        let mut job = PickJob::new(0, String::new(), String::new(), String::new());
        std::mem::swap(&mut job, self);
        let next = job.stepped(event);
        *self = next;
        proof {
            use_type_invariant(&*self);
        }
    }

    /// The job after an event, by `spec_advance`.
    fn stepped(self, event: PickEvent) -> (r: PickJob)
        ensures
            r@ == spec_advance(self@, event@),
    {
        proof {
            use_type_invariant(&self);
        }
        let ghost before = self@;
        let PickJob {
            pr_number,
            pr_title,
            dest_branch,
            new_branch_name,
            mut phase,
            mut commits,
            mut next_commit,
            mut matched_hash,
            mut not_matched_hash,
            mut outcomes,
            mut pull_request_id,
            mut milestone_id,
        } = self;
        assert(before.commits.len() == commits@.len());
        match phase {
            PickPhase::SwitchBranch => {
                if let PickEvent::GitFinished(_) = event {
                    phase = PickPhase::FetchCommits;
                }
            },
            PickPhase::FetchCommits => {
                if let PickEvent::CommitsFetched(list) = event {
                    commits = list;
                    next_commit = 0;
                    outcomes = Ghost(Seq::empty());
                    phase = if 0 < commits.len() {
                        PickPhase::CherryPick
                    } else {
                        PickPhase::CommitEmpty
                    };
                }
            },
            PickPhase::CherryPick => {
                if let PickEvent::GitFinished(ok) = event {
                    if ok {
                        proof {
                            lemma_select_push(before.commits, before.outcomes, true, true);
                            lemma_select_push(before.commits, before.outcomes, true, false);
                        }
                        let ghost m = matched_hash.deep_view();
                        matched_hash.push(commits[next_commit].clone());
                        assert(matched_hash.deep_view() =~= m.push(
                            before.commits[before.outcomes.len() as int],
                        ));
                        assert(next_commit < commits.len());
                        next_commit = next_commit + 1;
                        outcomes = Ghost(outcomes@.push(true));
                        phase = if next_commit < commits.len() {
                            PickPhase::CherryPick
                        } else if matched_hash.len() == 0 {
                            PickPhase::CommitEmpty
                        } else {
                            PickPhase::PushBranch
                        };
                    } else {
                        phase = PickPhase::AbortPick;
                    }
                }
            },
            PickPhase::AbortPick => {
                if let PickEvent::GitFinished(_) = event {
                    proof {
                        lemma_select_push(before.commits, before.outcomes, false, true);
                        lemma_select_push(before.commits, before.outcomes, false, false);
                    }
                    let ghost m = not_matched_hash.deep_view();
                    not_matched_hash.push(commits[next_commit].clone());
                    assert(not_matched_hash.deep_view() =~= m.push(
                        before.commits[before.outcomes.len() as int],
                    ));
                    assert(next_commit < commits.len());
                    next_commit = next_commit + 1;
                    outcomes = Ghost(outcomes@.push(false));
                    phase = if next_commit < commits.len() {
                        PickPhase::CherryPick
                    } else if matched_hash.len() == 0 {
                        PickPhase::CommitEmpty
                    } else {
                        PickPhase::PushBranch
                    };
                }
            },
            PickPhase::CommitEmpty => {
                if let PickEvent::GitFinished(_) = event {
                    phase = PickPhase::PushBranch;
                }
            },
            PickPhase::PushBranch => {
                if let PickEvent::GitFinished(_) = event {
                    phase = PickPhase::OpenPullRequest;
                }
            },
            PickPhase::OpenPullRequest => {
                if let PickEvent::PullRequestOpened(id) = event {
                    pull_request_id = id;
                    phase = PickPhase::CommentOpened;
                }
            },
            PickPhase::CommentOpened => {
                if let PickEvent::CommentPushed = event {
                    if not_matched_hash.len() > 0 {
                        phase = PickPhase::CommentUnpicked;
                    } else {
                        phase = PickPhase::FetchMilestones;
                    }
                }
            },
            PickPhase::CommentUnpicked => {
                if let PickEvent::CommentPushed = event {
                    phase = PickPhase::FetchMilestones;
                }
            },
            PickPhase::FetchMilestones => {
                if let PickEvent::MilestonesFetched(list) = event {
                    match get_matched_milestone_id(dest_branch.clone(), list) {
                        Some(id) => {
                            milestone_id = id;
                            phase = PickPhase::UpdateIssue;
                        },
                        None => {
                            phase = PickPhase::Finished;
                        },
                    }
                }
            },
            PickPhase::UpdateIssue => {
                if let PickEvent::IssueUpdated = event {
                    phase = PickPhase::Finished;
                }
            },
            PickPhase::Finished => {},
        }
        proof {
            if phase == PickPhase::CommitEmpty {
                assert(select(commits.deep_view(), outcomes@, true).len() == 0);
            }
        }
        PickJob {
            pr_number,
            pr_title,
            dest_branch,
            new_branch_name,
            phase,
            commits,
            next_commit,
            matched_hash,
            not_matched_hash,
            outcomes,
            pull_request_id,
            milestone_id,
        }
    }
}

// ------ laws of the pick job ------

/// Every commit that was tried is either among the picked commits or among
/// those reported as not picked, exactly once: together they are the tried
/// commits, counted with multiplicity.
pub proof fn law_tried_commits_partition(commits: Seq<Seq<char>>, outcomes: Seq<bool>)
    requires
        outcomes.len() <= commits.len(),
    ensures
        select(commits, outcomes, true).len() + select(commits, outcomes, false).len()
            == outcomes.len(),
        select(commits, outcomes, true).to_multiset().add(
            select(commits, outcomes, false).to_multiset(),
        ) =~= commits.take(outcomes.len() as int).to_multiset(),
    decreases outcomes.len(),
{
    broadcast use vstd::multiset::group_multiset_axioms;
    broadcast use vstd::seq_lib::group_to_multiset_ensures;

    if outcomes.len() == 0 {
        assert(commits.take(0) =~= Seq::<Seq<char>>::empty());
    } else {
        let prev = outcomes.drop_last();
        law_tried_commits_partition(commits, prev);
        let k = prev.len() as int;
        assert(commits.take(k + 1) =~= commits.take(k).push(commits[k]));
    }
}

/// Once the commits are listed they stay as listed, and the outcomes of the
/// commits already tried stay as they were: each commit is tried once, in
/// the order of the pull request.
pub proof fn law_commits_tried_in_order(s: PickJobView, e: PickEventView)
    requires
        s.phase != PickPhase::SwitchBranch,
        s.phase != PickPhase::FetchCommits,
    ensures
        spec_advance(s, e).commits == s.commits,
        s.outcomes.is_prefix_of(spec_advance(s, e).outcomes),
        spec_advance(s, e).outcomes.len() <= s.outcomes.len() + 1,
{
    assert(s.outcomes.is_prefix_of(s.outcomes.push(true))) by {
        assert(s.outcomes =~= s.outcomes.push(true).subrange(0, s.outcomes.len() as int));
    }
    assert(s.outcomes.is_prefix_of(s.outcomes.push(false))) by {
        assert(s.outcomes =~= s.outcomes.push(false).subrange(0, s.outcomes.len() as int));
    }
    assert(s.outcomes.is_prefix_of(s.outcomes)) by {
        assert(s.outcomes =~= s.outcomes.subrange(0, s.outcomes.len() as int));
    }
}

/// The commits that the job tries are exactly the commits listed for the
/// pull request: listing them sets them, all still to be tried.
pub proof fn law_fetched_commits_all_tried(s: PickJobView, list: Seq<Seq<char>>)
    requires
        s.phase == PickPhase::FetchCommits,
    ensures
        spec_advance(s, PickEventView::CommitsFetched(list)).commits == list,
        spec_advance(s, PickEventView::CommitsFetched(list)).outcomes.len() == 0,
        list.len() > 0 ==> spec_action(spec_advance(s, PickEventView::CommitsFetched(list)))
            == PickActionView::RunGit(seq!["cherry-pick"@, list[0]]),
{
}

/// Once every listed commit is tried, the picked commits and those reported
/// as not picked are, together, exactly the listed commits (counted with
/// multiplicity): none is lost, none is added.
pub proof fn law_all_commits_accounted(s: PickJobView)
    requires
        s.outcomes.len() == s.commits.len(),
    ensures
        s.matched_hash().to_multiset().add(s.not_matched_hash().to_multiset())
            =~= s.commits.to_multiset(),
        s.matched_hash().len() + s.not_matched_hash().len() == s.commits.len(),
{
    law_tried_commits_partition(s.commits, s.outcomes);
    assert(s.commits.take(s.outcomes.len() as int) =~= s.commits);
}

/// Every step keeps the job's state consistent.
pub proof fn law_advance_keeps_wf(s: PickJobView, e: PickEventView)
    requires
        spec_job_wf(s),
    ensures
        spec_job_wf(spec_advance(s, e)),
{
    lemma_select_push(s.commits, s.outcomes, true, true);
    lemma_select_push(s.commits, s.outcomes, false, true);
}

/// When the last commit is done, the job makes an empty commit exactly when
/// no commit could be picked, and pushes the branch otherwise.
pub proof fn law_empty_commit_iff_nothing_picked(s: PickJobView, e: PickEventView)
    requires
        spec_job_wf(s),
        s.phase == PickPhase::FetchCommits || s.phase == PickPhase::CherryPick || s.phase
            == PickPhase::AbortPick,
        spec_advance(s, e).outcomes.len() == spec_advance(s, e).commits.len(),
        spec_advance(s, e) != s,
    ensures
        spec_advance(s, e).phase == PickPhase::CommitEmpty || spec_advance(s, e).phase
            == PickPhase::PushBranch,
        spec_advance(s, e).phase == PickPhase::CommitEmpty <==> spec_advance(
            s,
            e,
        ).matched_hash().len() == 0,
{
}

/// After the comment on the new pull request, the job comments the commits
/// that could not be picked exactly when there are some; that comment lists
/// exactly them, joined by commas.
pub proof fn law_unpicked_comment_iff_some_failed(s: PickJobView)
    requires
        s.phase == PickPhase::CommentOpened,
    ensures
        spec_advance(s, PickEventView::CommentPushed).phase == PickPhase::CommentUnpicked
            <==> s.not_matched_hash().len() > 0,
        spec_action(spec_advance(s, PickEventView::CommentPushed)) == (if s.not_matched_hash().len()
            > 0 {
            PickActionView::PushComment {
                pull_request: s.pull_request_id,
                comment: spec_pull_request_comment(s.not_matched_hash()),
            }
        } else {
            PickActionView::FetchMilestones
        }),
{
}

/// The merged pull request is put on a milestone exactly when the
/// branch's version names one, and on that one.
pub proof fn law_milestone_update_iff_found(
    s: PickJobView,
    milestones: Seq<GithubGetMilestoneResponseItem>,
)
    requires
        s.phase == PickPhase::FetchMilestones,
    ensures
        ({
            let t = spec_advance(s, PickEventView::MilestonesFetched(milestones));
            &&& (t.phase == PickPhase::UpdateIssue) <==> spec_matched_milestone_id(
                s.dest_branch,
                milestones,
            ) is Some
            &&& t.phase == PickPhase::UpdateIssue ==> spec_action(t) == PickActionView::UpdateIssue {
                pr_number: s.pr_number,
                milestone_id: spec_matched_milestone_id(s.dest_branch, milestones)->0,
            }
            &&& t.phase != PickPhase::UpdateIssue ==> t.phase == PickPhase::Finished
        }),
{
}

/// How many reports a job still waits for, once its commits are listed.
pub open spec fn steps_left(s: PickJobView) -> int {
    let left = s.commits.len() - s.outcomes.len();
    match s.phase {
        PickPhase::CherryPick => 2 * left + 7,
        PickPhase::AbortPick => 2 * left + 6,
        PickPhase::CommitEmpty => 7,
        PickPhase::PushBranch => 6,
        PickPhase::OpenPullRequest => 5,
        PickPhase::CommentOpened => 4,
        PickPhase::CommentUnpicked => 3,
        PickPhase::FetchMilestones => 2,
        PickPhase::UpdateIssue => 1,
        _ => 0,
    }
}

/// Once the commits are listed, every report that the job takes in brings it
/// closer to its end: it finishes after at most `2 * commits + 7` more reports.
pub proof fn law_job_progresses(s: PickJobView, e: PickEventView)
    requires
        spec_job_wf(s),
        s.phase != PickPhase::SwitchBranch,
        s.phase != PickPhase::FetchCommits,
        spec_advance(s, e) != s,
    ensures
        0 <= steps_left(spec_advance(s, e)) < steps_left(s),
{
}

} // verus!
