use vstd::prelude::*;

use crate::json_doc::{member, member_of, str_member, str_member_of, DecodeError};

verus! {

/// Identifies the commit under test: the owning account, the repository,
/// the commit hash and the branch name, as carried by the head of a
/// pull-request event.
#[derive(Debug)]
pub struct CommitRef {
    pub owner: String,
    pub repo: String,
    pub sha: String,
    pub branch: String,
}

/// The mathematical content of a commit reference: its four fields as
/// character sequences.
pub struct CommitRefView {
    pub owner: Seq<char>,
    pub repo: Seq<char>,
    pub sha: Seq<char>,
    pub branch: Seq<char>,
}

impl View for CommitRef {
    type V = CommitRefView;

    open spec fn view(&self) -> CommitRefView {
        CommitRefView {
            owner: self.owner@,
            repo: self.repo@,
            sha: self.sha@,
            branch: self.branch@,
        }
    }
}

/// What the four decoded head fields amount to: a commit reference holding
/// exactly those fields, or a decode error as soon as any of them is
/// missing (a payload without a required field must not be tracked).
pub open spec fn commit_ref_of_fields(
    owner: Option<Seq<char>>,
    repo: Option<Seq<char>>,
    sha: Option<Seq<char>>,
    branch: Option<Seq<char>>,
) -> Result<CommitRefView, DecodeError> {
    match (owner, repo, sha, branch) {
        (Option::Some(o), Option::Some(r), Option::Some(s), Option::Some(b)) => Result::Ok(
            CommitRefView { owner: o, repo: r, sha: s, branch: b },
        ),
        _ => Result::Err(DecodeError::MissingHeadField),
    }
}

/// A decoded commit reference, by its mathematical content.
pub open spec fn commit_ref_result_view(r: Result<CommitRef, DecodeError>) -> Result<
    CommitRefView,
    DecodeError,
> {
    match r {
        Result::Ok(commit_ref) => Result::Ok(commit_ref@),
        Result::Err(e) => Result::Err(e),
    }
}

/// Assembles a commit reference from the four decoded payload fields, each
/// already extracted from the `pull_request.head` subtree of an inbound
/// event. An absent field is a decode error: tracking needs all four.
pub fn commit_ref_from_fields(
    owner: Option<String>,
    repo: Option<String>,
    sha: Option<String>,
    branch: Option<String>,
) -> (r: Result<CommitRef, DecodeError>)
    ensures
        commit_ref_result_view(r) == commit_ref_of_fields(
            owner.deep_view(),
            repo.deep_view(),
            sha.deep_view(),
            branch.deep_view(),
        ),
{
    match (owner, repo, sha, branch) {
        (Option::Some(owner), Option::Some(repo), Option::Some(sha), Option::Some(branch)) =>
            Result::Ok(CommitRef { owner, repo, sha, branch }),
        _ => Result::Err(DecodeError::MissingHeadField),
    }
}

/// The `pull_request.head` subtree of an inbound event.
pub open spec fn event_head(event: json::JsonValue) -> json::JsonValue {
    member_of(member_of(event, "pull_request"@), "head"@)
}

/// The head repository owner's login, when the event carries one.
pub open spec fn head_owner_login(event: json::JsonValue) -> Option<Seq<char>> {
    str_member_of(member_of(member_of(event_head(event), "repo"@), "owner"@), "login"@)
}

/// The head repository's name, when the event carries one.
pub open spec fn head_repo_name(event: json::JsonValue) -> Option<Seq<char>> {
    str_member_of(member_of(event_head(event), "repo"@), "name"@)
}

/// The head commit hash, when the event carries one.
pub open spec fn head_sha(event: json::JsonValue) -> Option<Seq<char>> {
    str_member_of(event_head(event), "sha"@)
}

/// The head branch name, when the event carries one.
pub open spec fn head_branch(event: json::JsonValue) -> Option<Seq<char>> {
    str_member_of(event_head(event), "ref"@)
}

impl CommitRef {
    /// Decodes the `pull_request.head` subtree of an inbound pull-request
    /// event into a commit reference: exactly the owner login, repository
    /// name, commit hash and branch it carries. A payload missing any of
    /// the four is a decode error, and tracking is not attempted for it.
    pub fn new(github_push_event: json::JsonValue) -> (r: Result<CommitRef, DecodeError>)
        ensures
            commit_ref_result_view(r) == commit_ref_of_fields(
                head_owner_login(github_push_event),
                head_repo_name(github_push_event),
                head_sha(github_push_event),
                head_branch(github_push_event),
            ),
    {
        let head = member(&member(&github_push_event, "pull_request"), "head");
        let repo = member(&head, "repo");
        let owner = str_member(&member(&repo, "owner"), "login");
        let repo_name = str_member(&repo, "name");
        let sha = str_member(&head, "sha");
        let branch = str_member(&head, "ref");
        commit_ref_from_fields(owner, repo_name, sha, branch)
    }
}

/// Reads the `action` field of an inbound pull-request event and decides
/// whether the event should start a tracking run.
pub fn pull_request_opened_or_synchronized(github_push_event: json::JsonValue) -> (r: bool)
    ensures
        r == action_triggers_tracking(str_member_of(github_push_event, "action"@)),
{
    let action = str_member(&github_push_event, "action");
    is_opened_or_synchronized(action)
}

/// Whether a pull-request action warrants tracking: only a newly opened or
/// a freshly synchronized pull request does.
pub open spec fn action_triggers_tracking(action: Option<Seq<char>>) -> bool {
    action == Option::Some("opened"@) || action == Option::Some("synchronize"@)
}

/// Decides from the decoded `action` field whether the event should start a
/// tracking run.
pub fn is_opened_or_synchronized(action: Option<String>) -> (r: bool)
    ensures
        r == action_triggers_tracking(action.deep_view()),
{
    match action {
        Option::None => false,
        Option::Some(s) => {
            let opened: String = "opened".to_owned();
            let synchronize: String = "synchronize".to_owned();
            s == opened || s == synchronize
        },
    }
}

} // verus!
