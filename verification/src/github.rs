use vstd::prelude::*;
use vstd::string::StringExecFns;

use crate::json_doc::{json_string_of, quote_string};
use crate::pull_request::CommitRef;

verus! {

/// The state recorded against a commit hash on the status host. A CI result
/// this library does not recognise is reported as `Error`.
#[derive(Clone, Copy, Debug, PartialEq, Eq, Structural)]
pub enum CommitStatus {
    Error,
    Failure,
    Pending,
    Success,
}

/// The word the status API expects in the `state` field for each status.
pub open spec fn status_text(s: CommitStatus) -> Seq<char> {
    match s {
        CommitStatus::Error => "error"@,
        CommitStatus::Failure => "failure"@,
        CommitStatus::Pending => "pending"@,
        CommitStatus::Success => "success"@,
    }
}

impl CommitStatus {
    /// The lower-case word that the status API takes for this state.
    pub fn as_str(&self) -> (r: &'static str)
        ensures
            r@ == status_text(*self),
    {
        match self {
            CommitStatus::Error => "error",
            CommitStatus::Failure => "failure",
            CommitStatus::Pending => "pending",
            CommitStatus::Success => "success",
        }
    }
}

/// The path of the status endpoint for a commit: the repository's statuses
/// collection, keyed by the commit hash.
pub open spec fn status_path(owner: Seq<char>, repo: Seq<char>, sha: Seq<char>) -> Seq<char> {
    "/repos/"@ + owner + "/"@ + repo + "/statuses/"@ + sha
}

/// The JSON body of a status request: the state's wire word, the target
/// URL and the context, each JSON-encoded, and a `description` key only
/// when a description is supplied — never a null or empty one.
pub open spec fn status_body(
    state: CommitStatus,
    target_url: Seq<char>,
    description: Option<Seq<char>>,
    context: Seq<char>,
) -> Seq<char> {
    "{\"state\":"@ + json_string_of(status_text(state)) + ",\"target_url\":"@ + json_string_of(
        target_url,
    ) + ",\"context\":"@ + json_string_of(context) + (match description {
        Option::Some(d) => ",\"description\":"@ + json_string_of(d),
        Option::None => Seq::<char>::empty(),
    }) + "}"@
}

/// Builds the JSON body posted to the status host. The `description` key is
/// omitted entirely when no description is supplied.
pub fn status_request_body(
    state: &CommitStatus,
    target_url: &str,
    description: &Option<String>,
    context: &str,
) -> (r: String)
    ensures
        r@ == status_body(*state, target_url@, description.deep_view(), context@),
{
    let mut body: String = "{\"state\":".to_owned();
    body.append(quote_string(state.as_str()).as_str());
    body.append(",\"target_url\":");
    body.append(quote_string(target_url).as_str());
    body.append(",\"context\":");
    body.append(quote_string(context).as_str());
    match description {
        Option::Some(d) => {
            body.append(",\"description\":");
            body.append(quote_string(d.as_str()).as_str());
        },
        Option::None => {},
    }
    body.append("}");
    proof {
        assert(body@ =~= status_body(*state, target_url@, description.deep_view(), context@));
    }
    body
}

/// Builds the path under the status host's API root at which the status of
/// this commit is recorded.
pub fn status_endpoint_path(commit_ref: &CommitRef) -> (r: String)
    ensures
        r@ == status_path(commit_ref@.owner, commit_ref@.repo, commit_ref@.sha),
{
    let mut path: String = "/repos/".to_owned();
    path.append(commit_ref.owner.as_str());
    path.append("/");
    path.append(commit_ref.repo.as_str());
    path.append("/statuses/");
    path.append(commit_ref.sha.as_str());
    proof {
        assert(path@ =~= status_path(commit_ref@.owner, commit_ref@.repo, commit_ref@.sha));
    }
    path
}

} // verus!
