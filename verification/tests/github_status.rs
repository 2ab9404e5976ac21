use kipper::github::{status_endpoint_path, status_request_body, CommitStatus};
use kipper::jenkins::{auth_credentials, JobStatus};
use kipper::pull_request::CommitRef;

#[test]
fn commit_status_words_match_the_status_api() {
    assert_eq!(CommitStatus::Error.as_str(), "error");
    assert_eq!(CommitStatus::Failure.as_str(), "failure");
    assert_eq!(CommitStatus::Pending.as_str(), "pending");
    assert_eq!(CommitStatus::Success.as_str(), "success");
}

#[test]
fn job_statuses_map_one_to_one_onto_commit_statuses() {
    assert_eq!(JobStatus::Success.commit_status(), CommitStatus::Success);
    assert_eq!(JobStatus::Failure.commit_status(), CommitStatus::Failure);
    assert_eq!(JobStatus::Pending.commit_status(), CommitStatus::Pending);
    assert_eq!(JobStatus::Unknown.commit_status(), CommitStatus::Error);
}

#[test]
fn status_endpoint_path_names_the_commit_statuses_collection() {
    let commit_ref = CommitRef {
        owner: "octocat".to_owned(),
        repo: "Hello-World".to_owned(),
        sha: "6dcb09b5b57875f334f61aebed695e2e4193db5e".to_owned(),
        branch: "not-used".to_owned(),
    };

    assert_eq!(
        status_endpoint_path(&commit_ref),
        "/repos/octocat/Hello-World/statuses/6dcb09b5b57875f334f61aebed695e2e4193db5e"
    );
}

#[test]
fn status_request_body_omits_description_when_none() {
    let body = status_request_body(
        &CommitStatus::Pending,
        "https://jenkins.example.com/job/octocat/3",
        &None,
        "continuous-integration/jenkins",
    );

    assert_eq!(
        body,
        "{\"state\":\"pending\",\"target_url\":\"https://jenkins.example.com/job/octocat/3\",\"context\":\"continuous-integration/jenkins\"}"
    );
}

#[test]
fn status_request_body_carries_an_escaped_description() {
    let body = status_request_body(
        &CommitStatus::Error,
        "https://jenkins.example.com/job/octocat/3",
        &Some("The status checker \"timed out\".".to_owned()),
        "continuous-integration/jenkins",
    );

    assert_eq!(
        body,
        "{\"state\":\"error\",\"target_url\":\"https://jenkins.example.com/job/octocat/3\",\"context\":\"continuous-integration/jenkins\",\"description\":\"The status checker \\\"timed out\\\".\"}"
    );
}

#[test]
fn auth_credentials_pack_user_id_and_token() {
    let credentials = auth_credentials("username".to_owned(), "token".to_owned());

    assert_eq!(credentials.username, "username");
    assert_eq!(credentials.password, Some("token".to_owned()));
}
