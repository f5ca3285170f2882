//! Plain records that the bot passes between its steps.

use vstd::prelude::*;

verus! {

/// What creating the pick branch produced: the branch's name and the
/// commits that could not be cherry-picked onto it.
#[derive(Debug)]
pub struct CreateNewBranchResult {
    pub new_branch_name: String,
    pub not_matched_hash: Vec<String>,
}

impl CreateNewBranchResult {
    pub fn new(name: String, hash: Vec<String>) -> (r: Self)
        ensures
            r.new_branch_name == name,
            r.not_matched_hash == hash,
    {
        CreateNewBranchResult { new_branch_name: name, not_matched_hash: hash }
    }
}

/// The name and e-mail address under which the bot commits.
#[derive(Debug)]
pub struct GithubUserInfo {
    pub user_name: String,
    pub email: String,
}

impl GithubUserInfo {
    pub fn new(user_name: String, email: String) -> (r: Self)
        ensures
            r.user_name == user_name,
            r.email == email,
    {
        GithubUserInfo { user_name, email }
    }
}

} // verus!
