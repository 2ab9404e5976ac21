use vstd::prelude::*;
use vstd::string::StringExecFns;

use crate::af83::{derived_job_name, job_name};
use crate::github::CommitStatus;
use crate::json_doc::{array_member, array_member_of, document_is_array, is_array, json_parses,
    member, member_count, member_count_of, member_of, parse_json, parsed_document, str_member,
    str_member_of, DecodeError};
use crate::pull_request::{CommitRef, CommitRefView};

verus! {

/// The result of one build on the CI server, as its job-detail document
/// reports it. `Pending` stands for a document with no result yet; `Unknown`
/// is the defensive default for any result string this library does not
/// recognise.
#[derive(Clone, Copy, Debug, PartialEq, Eq, Structural)]
pub enum JobStatus {
    Success,
    Failure,
    Pending,
    Unknown,
}

/// How each CI result maps onto a commit status: one to one, with an
/// unrecognised result reported as an error.
pub open spec fn commit_status_of(s: JobStatus) -> CommitStatus {
    match s {
        JobStatus::Success => CommitStatus::Success,
        JobStatus::Failure => CommitStatus::Failure,
        JobStatus::Pending => CommitStatus::Pending,
        JobStatus::Unknown => CommitStatus::Error,
    }
}

impl JobStatus {
    /// The commit status reported to the status host for this CI result.
    pub fn commit_status(&self) -> (r: CommitStatus)
        ensures
            r == commit_status_of(*self),
    {
        match *self {
            JobStatus::Success => CommitStatus::Success,
            JobStatus::Failure => CommitStatus::Failure,
            JobStatus::Pending => CommitStatus::Pending,
            JobStatus::Unknown => CommitStatus::Error,
        }
    }
}

/// One build on the CI server: its display name and its result. Transient;
/// it is re-fetched on every poll and never kept beyond the comparison with
/// the previous observation.
#[derive(Debug, PartialEq, Eq)]
pub struct Job {
    pub display_name: String,
    pub result: JobStatus,
}

/// The mathematical content of a build record.
pub struct JobView {
    pub display_name: Seq<char>,
    pub result: JobStatus,
}

impl View for Job {
    type V = JobView;

    open spec fn view(&self) -> JobView {
        JobView { display_name: self.display_name@, result: self.result }
    }
}

/// What the two decoded fields of a job-detail document amount to: the
/// build they describe, or a decode error when the display name is missing
/// (a build decoded with an empty default name could false-match a
/// malformed derived name).
pub open spec fn job_of_fields(
    display_name: Option<Seq<char>>,
    result: Option<Seq<char>>,
) -> Result<JobView, DecodeError> {
    match display_name {
        Option::Some(d) => Result::Ok(JobView { display_name: d, result: status_of_result(result) }),
        Option::None => Result::Err(DecodeError::MissingDisplayName),
    }
}

/// A decoded build record, by its mathematical content.
pub open spec fn job_result_view(r: Result<Job, DecodeError>) -> Result<JobView, DecodeError> {
    match r {
        Result::Ok(job) => Result::Ok(job@),
        Result::Err(e) => Result::Err(e),
    }
}

/// Assembles a build record from the two decoded fields of a job-detail
/// document. A document without a display name is rejected.
pub fn job_from_fields(display_name: Option<String>, result: Option<String>) -> (r: Result<
    Job,
    DecodeError,
>)
    ensures
        job_result_view(r) == job_of_fields(display_name.deep_view(), result.deep_view()),
{
    match display_name {
        Option::Some(d) => Result::Ok(Job { display_name: d, result: result_from_job(result) }),
        Option::None => Result::Err(DecodeError::MissingDisplayName),
    }
}

impl Job {
    /// Decodes a job-detail document into a build record: the document's
    /// `displayName` and `result` members, exactly as `job_of_fields` reads
    /// them. A payload that is not well-formed JSON is a hard failure, and
    /// so is a document without a display name.
    pub fn new(payload: String) -> (r: Result<Job, DecodeError>)
        ensures
            json_parses(payload@) ==> job_result_view(r) == job_of_fields(
                str_member_of(parsed_document(payload@), "displayName"@),
                str_member_of(parsed_document(payload@), "result"@),
            ),
            !json_parses(payload@) ==> (r matches Err(e) && e
                == DecodeError::UnparseableDocument),
    {
        match parse_json(payload.as_str()) {
            Option::Some(doc) => {
                let display_name = str_member(&doc, "displayName");
                let result = str_member(&doc, "result");
                job_from_fields(display_name, result)
            },
            Option::None => Result::Err(DecodeError::UnparseableDocument),
        }
    }
}

/// A build belongs to a commit reference exactly when its display name
/// equals the derived job name: plain string equality, never fuzzy.
pub open spec fn job_matches(job: JobView, r: CommitRefView) -> bool {
    job.display_name == derived_job_name(r)
}

/// Does the build correspond to the commit reference?
pub fn job_for_commit(job: &Job, commit_ref: &CommitRef) -> (r: bool)
    requires
        commit_ref@.sha.len() >= 5,
    ensures
        r == job_matches(job@, commit_ref@),
{
    let name = job_name(commit_ref);
    job.display_name == name
}

/// How a CI result string decodes: no string means the build is still
/// running, `"SUCCESS"` and `"FAILURE"` mean what they say, and anything
/// else is an unrecognised state.
pub open spec fn status_of_result(result: Option<Seq<char>>) -> JobStatus {
    match result {
        Option::None => JobStatus::Pending,
        Option::Some(s) => if s == "SUCCESS"@ {
            JobStatus::Success
        } else if s == "FAILURE"@ {
            JobStatus::Failure
        } else {
            JobStatus::Unknown
        },
    }
}

/// HTTP Basic credentials for the CI server: the user id as the username
/// and the API token as the password.
pub struct BasicCredentials {
    pub username: String,
    pub password: Option<String>,
}

/// Packs the CI user id and API token into HTTP Basic credentials.
pub fn auth_credentials(user_id: String, token: String) -> (r: BasicCredentials)
    ensures
        r.username@ == user_id@,
        r.password matches Some(p) && p@ == token@,
{
    BasicCredentials { username: user_id, password: Option::Some(token) }
}

/// The URL of the CI server's job-list document for a repository: its
/// `{repository}-branches` job collection.
pub open spec fn jobs_url(ci_base: Seq<char>, repo: Seq<char>) -> Seq<char> {
    ci_base + "/job/"@ + repo + "-branches/api/json"@
}

/// Builds the URL at which the CI server lists the builds of a repository's
/// branches job.
pub fn jobs_endpoint(jenkins_url: &str, repo_name: &str) -> (r: String)
    ensures
        r@ == jobs_url(jenkins_url@, repo_name@),
{
    let mut endpoint: String = jenkins_url.to_owned();
    endpoint.append("/job/");
    endpoint.append(repo_name);
    endpoint.append("-branches/api/json");
    proof {
        assert(endpoint@ =~= jobs_url(jenkins_url@, repo_name@));
    }
    endpoint
}

/// Whether a text parses as an absolute URL: a function of the characters
/// alone.
pub uninterp spec fn url_parses(s: Seq<char>) -> bool;

/// The path component of a well-formed URL, as the url crate parses it: a
/// function of the URL string alone.
pub uninterp spec fn url_path_of(s: Seq<char>) -> Seq<char>;

/// Relies on url::Url::parse and url::Url::path: the path component of a
/// well-formed absolute URL; a malformed URL is reported as None.
#[verifier::external_body]
fn parsed_url_path(s: &str) -> (r: Option<String>)
    ensures
        r is Some <==> url_parses(s@),
        r matches Some(p) ==> p@ == url_path_of(s@),
{
    match url::Url::parse(s) {
        Result::Ok(u) => Option::Some(u.path().to_owned()),
        Result::Err(_) => Option::None,
    }
}

/// The URL of a build's job-detail document: the build's path on the CI
/// server, with the JSON-detail suffix appended.
pub open spec fn detail_url(ci_base: Seq<char>, build_url: Seq<char>) -> Seq<char> {
    ci_base + url_path_of(build_url) + "/api/json"@
}

/// Builds the URL at which the CI server serves the detail document of one
/// build: succeeds exactly when the build URL is well formed, and a
/// malformed one is a hard failure, reported as None.
pub fn build_detail_endpoint(jenkins_url: &str, build_url: &str) -> (r: Option<String>)
    ensures
        r is Some <==> url_parses(build_url@),
        r matches Some(p) ==> p@ == detail_url(jenkins_url@, build_url@),
{
    match parsed_url_path(build_url) {
        Option::Some(path) => {
            let mut endpoint: String = jenkins_url.to_owned();
            endpoint.append(path.as_str());
            endpoint.append("/api/json");
            proof {
                assert(endpoint@ =~= detail_url(jenkins_url@, build_url@));
            }
            Option::Some(endpoint)
        },
        Option::None => Option::None,
    }
}

/// A payload field that was absent decodes to the empty string.
pub open spec fn field_or_empty(field: Option<Seq<char>>) -> Seq<char> {
    match field {
        Option::Some(s) => s,
        Option::None => Seq::empty(),
    }
}

fn unwrap_or_empty(field: Option<String>) -> (r: String)
    ensures
        r@ == field_or_empty(field.deep_view()),
{
    match field {
        Option::Some(s) => s,
        Option::None => String::new(),
    }
}

/// The `builds` member of a decoded job-list document.
pub open spec fn builds_member(payload: Seq<char>) -> json::JsonValue {
    member_of(parsed_document(payload), "builds"@)
}

/// The build URLs a job-list document lists, in the server's order: the
/// `url` member of each entry of its `builds` array, an empty string where
/// the member is absent or not a string.
pub open spec fn listed_build_urls(payload: Seq<char>) -> Seq<Seq<char>> {
    Seq::new(
        member_count_of(builds_member(payload)) as nat,
        |i: int| field_or_empty(str_member_of(array_member_of(builds_member(payload), i), "url"@)),
    )
}

/// Decodes a job-list document into the build URLs it lists, in the order
/// the server returned them (the caller relies on that order as its
/// prefer-most-recent policy). A build entry without a `url` string decodes
/// to an empty string; a document that is not JSON, or whose top level
/// carries no `builds` array, is a hard failure.
pub fn build_urls_from_payload(payload: &str) -> (r: Result<Vec<String>, DecodeError>)
    ensures
        !json_parses(payload@) ==> (r matches Err(e) && e == DecodeError::UnparseableDocument),
        json_parses(payload@) && !document_is_array(builds_member(payload@)) ==> (r matches Err(e)
            && e == DecodeError::MissingBuilds),
        json_parses(payload@) && document_is_array(builds_member(payload@)) ==> (r matches Ok(urls)
            && urls.deep_view() == listed_build_urls(payload@)),
{
    match parse_json(payload) {
        Option::Some(doc) => {
            let builds = member(&doc, "builds");
            if !is_array(&builds) {
                return Result::Err(DecodeError::MissingBuilds);
            }
            let count = member_count(&builds);
            let mut urls: Vec<String> = Vec::new();
            let mut i: usize = 0;
            while i < count
                invariant
                    i <= count,
                    builds == builds_member(payload@),
                    count == member_count_of(builds_member(payload@)),
                    urls.deep_view().len() == i,
                    forall|j: int|
                        0 <= j < i ==> urls.deep_view()[j] == #[trigger] listed_build_urls(
                            payload@,
                        )[j],
                decreases count - i,
            {
                let entry = array_member(&builds, i);
                let url = unwrap_or_empty(str_member(&entry, "url"));
                urls.push(url);
                i = i + 1;
            }
            proof {
                assert(urls.deep_view() =~= listed_build_urls(payload@));
            }
            Result::Ok(urls)
        },
        Option::None => Result::Err(DecodeError::UnparseableDocument),
    }
}

/// Decodes the nullable `result` field of a job-detail document into the
/// build's status.
pub fn result_from_job(status: Option<String>) -> (r: JobStatus)
    ensures
        r == status_of_result(status.deep_view()),
{
    match status {
        Option::None => JobStatus::Pending,
        Option::Some(s) => {
            let success: String = "SUCCESS".to_owned();
            let failure: String = "FAILURE".to_owned();
            if s == success {
                JobStatus::Success
            } else if s == failure {
                JobStatus::Failure
            } else {
                JobStatus::Unknown
            }
        },
    }
}

} // verus!
