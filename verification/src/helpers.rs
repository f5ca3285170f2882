//! Labels, branch names, comments and the git and HTTP settings of the bot.

use vstd::prelude::*;
use crate::github_env::GithubActionEnv;
use crate::github_event::GithubActionPullRequestLabel;
use crate::text::{
    after_last, append_i64, int_text, join, joined, last_piece, law_after_last_is_last_piece,
    law_split_undoes_join, split_pieces, spec_parse_i64, law_parse_reads_printed_number,
    starts_with,
};
use crate::types::GithubUserInfo;

verus! {

/// The prefix of the labels that ask for a pick: `pick-to/<branch>`.
pub open spec fn pick_label_prefix() -> Seq<char> {
    "pick-to/"@
}

/// A label asks for a pick onto another branch.
pub open spec fn is_pick_label(name: Seq<char>) -> bool {
    pick_label_prefix().is_prefix_of(name)
}

/// The names of the labels that ask for a pick, in the order of the labels.
pub open spec fn pick_label_names(labels: Seq<GithubActionPullRequestLabel>) -> Seq<Seq<char>>
    decreases labels.len(),
{
    if labels.len() == 0 {
        Seq::empty()
    } else {
        let prev = pick_label_names(labels.drop_last());
        if is_pick_label(labels.last().name@) {
            prev.push(labels.last().name@)
        } else {
            prev
        }
    }
}

/// The names of the labels that start with `pick-to/`, in their order.
pub fn match_pick_merge_labels(labels: Vec<GithubActionPullRequestLabel>) -> (r: Vec<String>)
    ensures
        r.deep_view() == pick_label_names(labels@),
        forall|i: int| 0 <= i < r.len() ==> "pick-to/"@.is_prefix_of(#[trigger] r@[i]@),
        forall|j: int|
            0 <= j < labels.len() && "pick-to/"@.is_prefix_of(#[trigger] labels@[j].name@)
                ==> r.deep_view().contains(labels@[j].name@),
{
    let mut res: Vec<String> = Vec::new();
    let n: usize = labels.len();
    let mut i: usize = 0;
    while i < n
        invariant
            n == labels@.len(),
            i <= n,
            res.deep_view() == pick_label_names(labels@.take(i as int)),
        decreases n - i,
    {
        assert(labels@.take(i + 1).drop_last() =~= labels@.take(i as int));
        let name: &String = &labels[i].name;
        if starts_with(name.as_str(), "pick-to/") {
            let ghost before = res.deep_view();
            res.push(name.clone());
            assert(res.deep_view() =~= before.push(name@));
        }
        i = i + 1;
    }
    assert(labels@.take(n as int) =~= labels@);
    proof {
        law_pick_labels_exact(labels@);
        assert forall|i: int| 0 <= i < res.len() implies "pick-to/"@.is_prefix_of(
            #[trigger] res@[i]@,
        ) by {
            assert(res.deep_view()[i] == res@[i]@);
        }
    }
    res
}

/// The branch that a pick label names: what follows its last `/`.
pub fn dest_branch_of_label(label: &str) -> (r: String)
    ensures
        r@ == after_last(label@, '/'),
        !r@.contains('/'),
        label@.contains('/') ==> exists|k: int|
            0 <= k < label@.len() && label@[k] == '/' && #[trigger] label@.skip(k + 1) == r@,
        !label@.contains('/') ==> r@ == label@,
{
    proof {
        law_after_last_is_last_piece(label@, '/');
    }
    last_piece(label, '/')
}

/// The text that precedes the commits that could not be picked.
pub open spec fn unpicked_comment_lead() -> Seq<char> {
    "If there are empty commits, you need to overwrite the empty commits and manually pick the following commits: "@
}

/// The comment that lists the commits that could not be picked.
pub open spec fn spec_pull_request_comment(hash: Seq<Seq<char>>) -> Seq<char> {
    unpicked_comment_lead() + joined(hash, ","@)
}

/// The comment that asks to pick the listed commits by hand, separated by commas.
pub fn generate_pull_request_comment(hash: Vec<String>) -> (r: String)
    ensures
        r@ == spec_pull_request_comment(hash.deep_view()),
        "If there are empty commits, you need to overwrite the empty commits and manually pick the following commits: "@.is_prefix_of(r@),
        hash.len() == 0 ==> r@
            == "If there are empty commits, you need to overwrite the empty commits and manually pick the following commits: "@,
        hash.len() > 0 && (forall|i: int|
            0 <= i < hash.len() ==> !(#[trigger] hash@[i]@).contains(',')) ==> split_pieces(
            r@.skip(
                "If there are empty commits, you need to overwrite the empty commits and manually pick the following commits: "@.len() as int,
            ),
            ',',
        ) == hash.deep_view(),
{
    proof {
        law_comment_lists_each_hash(hash.deep_view());
    }
    let mut res = String::from_str(
        "If there are empty commits, you need to overwrite the empty commits and manually pick the following commits: ",
    );
    let list = join(&hash, ",");
    res.append(list.as_str());
    res
}

/// The comment on the commits that could not be picked is the lead text
/// followed by every hash, in order, with one comma between neighbours:
/// splitting what follows the lead at the commas gives back the hashes,
/// where no hash holds a comma.
pub proof fn law_comment_lists_each_hash(hash: Seq<Seq<char>>)
    ensures
        "If there are empty commits, you need to overwrite the empty commits and manually pick the following commits: "@.is_prefix_of(spec_pull_request_comment(hash)),
        hash.len() == 0 ==> spec_pull_request_comment(hash)
            == "If there are empty commits, you need to overwrite the empty commits and manually pick the following commits: "@,
        hash.len() > 0 && (forall|i: int| 0 <= i < hash.len() ==> !(#[trigger] hash[i]).contains(','))
            ==> split_pieces(
            spec_pull_request_comment(hash).skip(
                "If there are empty commits, you need to overwrite the empty commits and manually pick the following commits: "@.len() as int,
            ),
            ',',
        ) == hash,
{
    let lead = unpicked_comment_lead();
    let c = spec_pull_request_comment(hash);
    reveal_strlit(",");
    assert(","@ =~= seq![',']);
    assert(c.subrange(0, lead.len() as int) =~= lead);
    assert(c.skip(lead.len() as int) =~= joined(hash, ","@));
    if hash.len() == 0 {
        assert(c =~= lead);
    } else if forall|i: int| 0 <= i < hash.len() ==> !(#[trigger] hash[i]).contains(',') {
        law_split_undoes_join(hash, ',');
    }
}

/// The name of the branch that picks onto `to_branch` at the given UNIX time.
pub open spec fn spec_new_branch_name(to_branch: Seq<char>, timestamp: int) -> Seq<char> {
    "bot/auto-pick-"@ + to_branch + "-"@ + int_text(timestamp)
}

/// The name of the branch that picks onto `to_branch` at the given UNIX time.
pub fn new_branch_name_at(to_branch: &str, timestamp: i64) -> (r: String)
    ensures
        r@ == spec_new_branch_name(to_branch@, timestamp as int),
        branch_name_parts(r@, to_branch@, timestamp),
{
    proof {
        law_branch_name_parts(to_branch@, timestamp);
    }
    let mut res = String::from_str("bot/auto-pick-");
    res.append(to_branch);
    res.append("-");
    append_i64(&mut res, timestamp);
    res
}

/// `name` is `bot/auto-pick-`, then the branch whole, then `-`, then the
/// decimal text of the time, which reads back as the time.
pub open spec fn branch_name_parts(name: Seq<char>, to_branch: Seq<char>, timestamp: i64) -> bool {
    &&& name.len() > 15 + to_branch.len() as int
    &&& name.subrange(0, 14) == seq!['b', 'o', 't', '/', 'a', 'u', 't', 'o', '-', 'p', 'i', 'c', 'k', '-']
    &&& name.subrange(14, 14 + to_branch.len() as int) == to_branch
    &&& name[14 + to_branch.len() as int] == '-'
    &&& spec_parse_i64(name.skip(15 + to_branch.len() as int)) == Some(timestamp)
}

/// A branch name holds the destination branch whole and the time it was
/// made, readable back as that time.
pub proof fn law_branch_name_parts(to_branch: Seq<char>, timestamp: i64)
    ensures
        branch_name_parts(spec_new_branch_name(to_branch, timestamp as int), to_branch, timestamp),
{
    reveal_strlit("bot/auto-pick-");
    reveal_strlit("-");
    law_parse_reads_printed_number(timestamp);
    let n = spec_new_branch_name(to_branch, timestamp as int);
    let k: int = 15 + to_branch.len() as int;
    assert(n.subrange(0, 14) =~= seq!['b', 'o', 't', '/', 'a', 'u', 't', 'o', '-', 'p', 'i', 'c', 'k', '-']);
    assert(n.subrange(14, 14 + to_branch.len() as int) =~= to_branch);
    assert(n.skip(k) =~= int_text(timestamp as int));
    assert(int_text(timestamp as int).len() > 0) by {
        if int_text(timestamp as int).len() == 0 {
            assert(spec_parse_i64(int_text(timestamp as int)) is None);
        }
    }
}

/// A fresh branch name for picking onto `to_branch`, stamped with `timestamp`,
/// the current UNIX time in seconds that the caller read from the clock.
pub fn generate_new_branch_name(to_branch: String, timestamp: i64) -> (r: String)
    ensures
        r@ == spec_new_branch_name(to_branch@, timestamp as int),
        branch_name_parts(r@, to_branch@, timestamp),
{
    new_branch_name_at(to_branch.as_str(), timestamp)
}

/// The user that the bot commits as: its own account on Travis, GitHub's
/// action user otherwise.
pub fn get_user_info(is_travis: bool) -> (r: GithubUserInfo)
    ensures
        is_travis ==> r.user_name@ == "dp-github-bot"@ && r.email@
            == "github_bot@datapipeline.com"@,
        !is_travis ==> r.user_name@ == "github action"@ && r.email@ == "action@github.com"@,
{
    if is_travis {
        return GithubUserInfo::new(
            String::from_str("dp-github-bot"),
            String::from_str("github_bot@datapipeline.com"),
        );
    }
    GithubUserInfo::new(String::from_str("github action"), String::from_str("action@github.com"))
}

/// The URL that the bot pushes to, with its credentials in it.
pub open spec fn spec_push_url(env: GithubActionEnv) -> Seq<char> {
    "https://"@ + env.github_actor@ + ":"@ + env.github_token@ + "@github.com/"@
        + env.github_repository@ + ".git"@
}

/// The git commands, as argument lists, that set up the checkout for pushing.
pub open spec fn spec_git_setup(env: GithubActionEnv, user: GithubUserInfo) -> Seq<Seq<Seq<char>>> {
    seq![
        seq!["remote"@, "set-url"@, "--push"@, "origin"@, spec_push_url(env)],
        seq!["config"@, "user.email"@, user.email@],
        seq!["config"@, "user.name"@, user.user_name@],
    ]
}

/// The git commands that point the push URL at the repository with the
/// bot's credentials and set the commit author; each is an argument list
/// for `git`, to run in this order.
pub fn git_setup(env: &GithubActionEnv, user_info: &GithubUserInfo) -> (r: Vec<Vec<String>>)
    ensures
        r.deep_view() == spec_git_setup(*env, *user_info),
{
    let mut url = String::from_str("https://");
    url.append(env.github_actor.as_str());
    url.append(":");
    url.append(env.github_token.as_str());
    url.append("@github.com/");
    url.append(env.github_repository.as_str());
    url.append(".git");
    let remote: Vec<String> = vec![
        String::from_str("remote"),
        String::from_str("set-url"),
        String::from_str("--push"),
        String::from_str("origin"),
        url,
    ];
    let email: Vec<String> = vec![
        String::from_str("config"),
        String::from_str("user.email"),
        user_info.email.clone(),
    ];
    let name: Vec<String> = vec![
        String::from_str("config"),
        String::from_str("user.name"),
        user_info.user_name.clone(),
    ];
    let res: Vec<Vec<String>> = vec![remote, email, name];
    assert(res.deep_view() =~= spec_git_setup(*env, *user_info)) by {
        assert(res.deep_view()[0] =~= spec_git_setup(*env, *user_info)[0]);
        assert(res.deep_view()[1] =~= spec_git_setup(*env, *user_info)[1]);
        assert(res.deep_view()[2] =~= spec_git_setup(*env, *user_info)[2]);
    }
    res
}

/// The API URL of the repository.
pub open spec fn spec_repo_url(env: GithubActionEnv) -> Seq<char> {
    env.github_api_url@ + "/repos/"@ + env.github_repository@
}

/// The API URL of the repository: `<api>/repos/<owner>/<name>`.
pub fn github_api_event_repo_url(env: &GithubActionEnv) -> (r: String)
    ensures
        r@ == spec_repo_url(*env),
{
    let mut res = env.github_api_url.clone();
    res.append("/repos/");
    res.append(env.github_repository.as_str());
    res
}

/// The headers of every API request, as name and value.
pub open spec fn spec_api_headers(env: GithubActionEnv) -> Seq<(Seq<char>, Seq<char>)> {
    seq![
        ("User-Agent"@, "gh-pick-merge-action"@),
        ("Authorization"@, "token "@ + env.github_token@),
        ("content-type"@, "application/json"@),
        ("accept"@, "application/vnd.github.v3+json"@),
    ]
}

/// The headers that every API request carries: the agent, the token, and JSON
/// both ways.
pub fn get_github_api_headers(env: &GithubActionEnv) -> (r: Vec<(String, String)>)
    ensures
        r@.len() == 4,
        forall|i: int|
            0 <= i < 4 ==> (#[trigger] r@[i]).0@ == spec_api_headers(*env)[i].0 && r@[i].1@
                == spec_api_headers(*env)[i].1,
{
    let mut authorization = String::from_str("token ");
    authorization.append(env.github_token.as_str());
    let res: Vec<(String, String)> = vec![
        (String::from_str("User-Agent"), String::from_str("gh-pick-merge-action")),
        (String::from_str("Authorization"), authorization),
        (String::from_str("content-type"), String::from_str("application/json")),
        (String::from_str("accept"), String::from_str("application/vnd.github.v3+json")),
    ];
    res
}


/// The pick labels are exactly the labels that start with `pick-to/`:
/// every name found starts with it, every such label is found, and each
/// name found is the name of one of the labels.
pub proof fn law_pick_labels_exact(labels: Seq<GithubActionPullRequestLabel>)
    ensures
        pick_label_names(labels).len() <= labels.len(),
        forall|i: int|
            0 <= i < pick_label_names(labels).len() ==> "pick-to/"@.is_prefix_of(
                #[trigger] pick_label_names(labels)[i],
            ),
        forall|i: int|
            0 <= i < pick_label_names(labels).len() ==> exists|j: int|
                0 <= j < labels.len() && labels[j].name@ == #[trigger] pick_label_names(labels)[i],
        forall|j: int|
            0 <= j < labels.len() && "pick-to/"@.is_prefix_of(#[trigger] labels[j].name@)
                ==> pick_label_names(labels).contains(labels[j].name@),
    decreases labels.len(),
{
    if labels.len() > 0 {
        let prev = labels.drop_last();
        law_pick_labels_exact(prev);
        let names = pick_label_names(labels);
        let pn = pick_label_names(prev);
        assert forall|i: int| 0 <= i < names.len() implies exists|j: int|
            0 <= j < labels.len() && labels[j].name@ == #[trigger] names[i] by {
            if i < pn.len() {
                assert(names[i] == pn[i]);
                let j = choose|j: int| 0 <= j < prev.len() && prev[j].name@ == pn[i];
                assert(labels[j] == prev[j]);
            } else {
                assert(labels[labels.len() - 1].name@ == names[i]);
            }
        }
        assert forall|j: int|
            0 <= j < labels.len() && "pick-to/"@.is_prefix_of(
                #[trigger] labels[j].name@,
            ) implies names.contains(labels[j].name@) by {
            if j < labels.len() - 1 {
                assert(prev[j] == labels[j]);
                let k = choose|k: int| 0 <= k < pn.len() && pn[k] == labels[j].name@;
                assert(names[k] == labels[j].name@);
            } else {
                assert(names[names.len() - 1] == labels[j].name@);
            }
        }
    }
}

/// Picking from two lists of labels one after the other gives the picks of
/// the first list followed by those of the second.
pub proof fn law_pick_labels_concat(
    a: Seq<GithubActionPullRequestLabel>,
    b: Seq<GithubActionPullRequestLabel>,
)
    ensures
        pick_label_names(a + b) == pick_label_names(a) + pick_label_names(b),
    decreases b.len(),
{
    if b.len() == 0 {
        assert(a + b =~= a);
        assert(pick_label_names(a) + pick_label_names(b) =~= pick_label_names(a));
    } else {
        assert((a + b).drop_last() =~= a + b.drop_last());
        assert((a + b).last() == b.last());
        law_pick_labels_concat(a, b.drop_last());
        if is_pick_label(b.last().name@) {
            assert(pick_label_names(a) + pick_label_names(b) =~= (pick_label_names(a)
                + pick_label_names(b.drop_last())).push(b.last().name@));
        }
    }
}

proof fn lemma_after_last_tail(head: Seq<char>, tail: Seq<char>, sep: char)
    requires
        !tail.contains(sep),
    ensures
        after_last(head.push(sep) + tail, sep) == tail,
    decreases tail.len(),
{
    if tail.len() == 0 {
        assert(head.push(sep) + tail =~= head.push(sep));
    } else {
        let s = head.push(sep) + tail;
        assert(s.drop_last() =~= head.push(sep) + tail.drop_last());
        assert(!tail.drop_last().contains(sep)) by {
            if tail.drop_last().contains(sep) {
                let k = choose|k: int| 0 <= k < tail.drop_last().len() && tail.drop_last()[k] == sep;
                assert(tail[k] == sep);
            }
        }
        lemma_after_last_tail(head, tail.drop_last(), sep);
        assert(s.last() == tail.last());
        assert(tail.last() != sep) by {
            assert(tail[tail.len() - 1] == tail.last());
        }
        assert(tail.drop_last().push(tail.last()) =~= tail);
    }
}

/// A label `pick-to/<branch>` names the branch `<branch>`, where the branch
/// name holds no `/`.
pub proof fn law_pick_label_names_its_branch(branch: Seq<char>)
    requires
        !branch.contains('/'),
    ensures
        after_last(pick_label_prefix() + branch, '/') == branch,
{
    reveal_strlit("pick-to/");
    let head = "pick-to"@;
    reveal_strlit("pick-to");
    assert(pick_label_prefix() =~= head.push('/'));
    lemma_after_last_tail(head, branch, '/');
}

} // verus!
