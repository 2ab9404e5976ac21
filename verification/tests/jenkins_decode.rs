use kipper::jenkins::{
    build_detail_endpoint, build_urls_from_payload, job_for_commit, jobs_endpoint, result_from_job,
    Job, JobStatus,
};
use kipper::json_doc::DecodeError;
use kipper::pull_request::CommitRef;

#[test]
fn job_new_creates_a_job_from_payload() {
    let payload = r#"{
            "displayName": "3296-fix-typo-700d0",
            "result": "SUCCESS"
        }"#
        .to_owned();

    let job = Job::new(payload).expect("Failed to create job from payload");

    assert_eq!(job.display_name, "3296-fix-typo-700d0");
    assert_eq!(job.result, JobStatus::Success);
}

#[test]
fn job_new_decodes_a_missing_result_as_pending() {
    let payload = r#"{
            "displayName": "3296-fix-typo-700d0"
        }"#
        .to_owned();

    let job = Job::new(payload).expect("Failed to create job from payload");

    assert_eq!(job.result, JobStatus::Pending);
}

#[test]
fn job_new_rejects_a_payload_without_display_name() {
    let payload = r#"{
            "result": "SUCCESS"
        }"#
        .to_owned();

    assert_eq!(Job::new(payload), Err(DecodeError::MissingDisplayName));
}

#[test]
fn job_new_rejects_a_malformed_payload() {
    let payload = "{ not json".to_owned();

    assert_eq!(Job::new(payload), Err(DecodeError::UnparseableDocument));
}

#[test]
fn job_for_commit_returns_true_when_commit_matches_job() {
    let job = Job {
        display_name: "1753-fix-everything-b4a28".to_owned(),
        result: JobStatus::Pending,
    };

    let commit_ref = CommitRef {
        owner: "uso".to_owned(),
        repo: "vivid-system".to_owned(),
        sha: "b4a286e67d8f5eaf1f6ba5c57fc3c7d91ac0fd1c".to_owned(),
        branch: "1753-fix-everything".to_owned(),
    };

    assert_eq!(job_for_commit(&job, &commit_ref), true);
}

#[test]
fn job_for_commit_returns_false_when_commit_doesnt_match_job() {
    let job = Job {
        display_name: "5234-eliminate-widgetmacallit-5a28c".to_owned(),
        result: JobStatus::Success,
    };

    let commit_ref = CommitRef {
        owner: "uso".to_owned(),
        repo: "vivid-system".to_owned(),
        sha: "b4a286e67d8f5eaf1f6ba5c57fc3c7d91ac0fd1c".to_owned(),
        branch: "1753-fix-everything".to_owned(),
    };

    assert_eq!(job_for_commit(&job, &commit_ref), false);
}

#[test]
fn job_for_commit_is_exact_on_trailing_characters() {
    let job = Job {
        display_name: "1753-fix-everything-b4a28-extra".to_owned(),
        result: JobStatus::Pending,
    };

    let commit_ref = CommitRef {
        owner: "uso".to_owned(),
        repo: "vivid-system".to_owned(),
        sha: "b4a286e67d8f5eaf1f6ba5c57fc3c7d91ac0fd1c".to_owned(),
        branch: "1753-fix-everything".to_owned(),
    };

    assert_eq!(job_for_commit(&job, &commit_ref), false);
}

#[test]
fn result_from_job_is_success() {
    assert_eq!(result_from_job(Some("SUCCESS".to_owned())), JobStatus::Success);
}

#[test]
fn result_from_job_is_failure() {
    assert_eq!(result_from_job(Some("FAILURE".to_owned())), JobStatus::Failure);
}

#[test]
fn result_from_job_is_pending() {
    assert_eq!(result_from_job(None), JobStatus::Pending);
}

#[test]
fn result_from_job_is_unknown_for_unrecognised_results() {
    assert_eq!(result_from_job(Some("ABORTED".to_owned())), JobStatus::Unknown);
}

#[test]
fn build_urls_come_back_in_server_order() {
    let payload = r#"
        {
          "displayName": "changes-branches",
          "builds": [
            {
              "_class": "hudson.model.FreeStyleBuild",
              "number": 18,
              "url": "http://jenkins.example.com/job/changes-branches/18/"
            },
            {
              "_class": "hudson.model.FreeStyleBuild",
              "number": 17,
              "url": "http://jenkins.example.com/job/changes-branches/17/"
            }
          ]
        }
    "#;

    let urls = build_urls_from_payload(payload).expect("Failed to decode job list");

    assert_eq!(
        urls,
        [
            "http://jenkins.example.com/job/changes-branches/18/",
            "http://jenkins.example.com/job/changes-branches/17/"
        ]
    );
}

#[test]
fn build_entry_without_url_decodes_to_an_empty_string() {
    let payload = r#"
        {
          "builds": [
            { "number": 18 },
            { "url": "http://jenkins.example.com/job/changes-branches/17/" }
          ]
        }
    "#;

    let urls = build_urls_from_payload(payload).expect("Failed to decode job list");

    assert_eq!(urls, ["", "http://jenkins.example.com/job/changes-branches/17/"]);
}

#[test]
fn job_list_without_builds_array_is_a_hard_failure() {
    let payload = r#"{ "displayName": "changes-branches" }"#;

    assert_eq!(build_urls_from_payload(payload), Err(DecodeError::MissingBuilds));
}

#[test]
fn malformed_job_list_is_a_hard_failure() {
    assert_eq!(build_urls_from_payload("[not json"), Err(DecodeError::UnparseableDocument));
}

#[test]
fn jobs_endpoint_names_the_branches_job() {
    assert_eq!(
        jobs_endpoint("http://jenkins.example.com", "changes"),
        "http://jenkins.example.com/job/changes-branches/api/json"
    );
}

#[test]
fn build_detail_endpoint_appends_the_json_suffix_to_the_build_path() {
    let endpoint = build_detail_endpoint(
        "http://jenkins.example.com",
        "http://jenkins.example.com/job/changes-branches/15",
    );

    assert_eq!(
        endpoint.as_deref(),
        Some("http://jenkins.example.com/job/changes-branches/15/api/json")
    );
}

#[test]
fn build_detail_endpoint_rejects_a_malformed_build_url() {
    assert_eq!(build_detail_endpoint("http://jenkins.example.com", "not a url"), None);
}
