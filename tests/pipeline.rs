use pull_artifacts::artifact::{artifacts_url, check_download_status, Artifact, Artifacts, WorkflowRun};
use pull_artifacts::auth::{auth_header, bearer, check_token};
use pull_artifacts::error::{DownloadFailure, Error};
use pull_artifacts::repo::{parse_remote_url, repo_from_output};
use pull_artifacts::revision::{is_full_commit, plan_rev, rev_from_output, RevPlan};

const HASH: &str = "0123456789abcdef0123456789ABCDEF01234567";

fn artifact(name: &str, rev: &str) -> Artifact {
    Artifact {
        name: name.to_string(),
        archive_download_url: format!("https://example.com/{}.zip", name),
        workflow_run: WorkflowRun { head_sha: rev.to_string() },
    }
}

#[test]
fn full_hash_is_taken_unchanged() {
    assert_eq!(plan_rev(HASH.to_string()), RevPlan::Known(HASH.to_string()));
    assert!(is_full_commit(HASH));
}

#[test]
fn other_revisions_go_to_the_vcs() {
    assert_eq!(plan_rev("HEAD".to_string()), RevPlan::Resolve("HEAD".to_string()));
    let short = &HASH[..39];
    assert_eq!(plan_rev(short.to_string()), RevPlan::Resolve(short.to_string()));
    let long = format!("{}0", HASH);
    assert_eq!(plan_rev(long.clone()), RevPlan::Resolve(long));
    let bad = format!("{}g", &HASH[..39]);
    assert_eq!(plan_rev(bad.clone()), RevPlan::Resolve(bad));
    let wide = format!("{}é", &HASH[..38]);
    assert!(!is_full_commit(&wide));
    assert!(!is_full_commit(""));
}

#[test]
fn resolved_revision_is_trimmed() {
    assert_eq!(rev_from_output(true, Some(0), "  abc123\n"), Ok("abc123".to_string()));
    assert_eq!(rev_from_output(true, Some(0), "\t\r\n"), Ok(String::new()));
}

#[test]
fn failed_resolution_is_a_command_error() {
    assert_eq!(rev_from_output(false, Some(128), "oops"), Err(Error::Command(Some(128))));
    assert_eq!(rev_from_output(false, None, ""), Err(Error::Command(None)));
}

#[test]
fn remote_url_forms_are_parsed() {
    assert_eq!(parse_remote_url("http://github.com/acme/widgets"), Ok("acme/widgets".to_string()));
    assert_eq!(parse_remote_url("https://github.com/acme/widgets.git"), Ok("acme/widgets".to_string()));
    assert_eq!(parse_remote_url("git@github.com:acme/widgets.git"), Ok("acme/widgets".to_string()));
    assert_eq!(parse_remote_url("git@github.com:acme/widgets.git.git"), Ok("acme/widgets.git".to_string()));
}

#[test]
fn other_remote_urls_are_refused() {
    assert_eq!(
        parse_remote_url("ssh://git@gitlab.com/acme/widgets"),
        Err(Error::Repo("ssh://git@gitlab.com/acme/widgets".to_string()))
    );
    assert_eq!(parse_remote_url(""), Err(Error::Repo(String::new())));
}

#[test]
fn remote_lookup_output_is_trimmed_and_parsed() {
    assert_eq!(
        repo_from_output(true, Some(0), "https://github.com/acme/widgets.git\n"),
        Ok("acme/widgets".to_string())
    );
    assert_eq!(
        repo_from_output(true, Some(0), " file:///tmp/x \n"),
        Err(Error::Repo("file:///tmp/x".to_string()))
    );
    assert_eq!(repo_from_output(false, Some(2), ""), Err(Error::Command(Some(2))));
}

#[test]
fn filter_keeps_the_matching_revision() {
    let all = Artifacts { artifacts: vec![artifact("x", "a"), artifact("y", "b")] };
    let kept = all.into_filtered_by_rev("a").unwrap();
    assert_eq!(kept, vec![artifact("x", "a")]);
}

#[test]
fn filter_without_match_fails() {
    let all = Artifacts { artifacts: vec![artifact("x", "a"), artifact("y", "b")] };
    assert_eq!(all.into_filtered_by_rev("c"), Err(Error::GetArtifacts));
    let none = Artifacts { artifacts: vec![] };
    assert_eq!(none.into_filtered_by_rev("a"), Err(Error::GetArtifacts));
}

#[test]
fn filter_compares_whole_revisions() {
    let all = Artifacts { artifacts: vec![artifact("x", "abcdef"), artifact("y", "abc")] };
    assert_eq!(all.into_filtered_by_rev("abc").unwrap(), vec![artifact("y", "abc")]);
}

#[test]
fn download_status_is_classified() {
    assert_eq!(check_download_status(410), Err(DownloadFailure::Expired));
    assert_eq!(check_download_status(404), Err(DownloadFailure::Request(Some(404))));
    assert_eq!(check_download_status(500), Err(DownloadFailure::Request(Some(500))));
    assert_eq!(check_download_status(201), Err(DownloadFailure::Request(Some(201))));
    assert_eq!(check_download_status(200), Ok(()));
}

#[test]
fn download_failure_names_the_artifact() {
    let a = artifact("linux", "a");
    assert_eq!(
        a.download_failure(DownloadFailure::Expired),
        Error::DownloadArtifact {
            name: "linux".to_string(),
            url: "https://example.com/linux.zip".to_string(),
            cause: DownloadFailure::Expired,
        }
    );
}

#[test]
fn missing_token_is_refused() {
    assert_eq!(check_token(None), Err(Error::NoToken));
    assert_eq!(check_token(Some(String::new())), Err(Error::NoToken));
    assert_eq!(check_token(Some("SECRET-REDACTED".to_string())), Ok("SECRET-REDACTED".to_string()));
}

#[test]
fn authorization_header_carries_the_token() {
    assert_eq!(bearer("tok"), "Bearer tok");
    let v = auth_header("tok").unwrap();
    assert_eq!(v.to_str().unwrap(), "Bearer tok");
    assert_eq!(auth_header("to\nk"), Err(Error::InvalidToken));
    assert_eq!(auth_header("t\u{7f}"), Err(Error::InvalidToken));
    assert!(auth_header("tab\there").is_ok());
    assert_eq!(auth_header("héllo").unwrap().as_bytes(), "Bearer héllo".as_bytes());
}

#[test]
fn listing_address() {
    assert_eq!(artifacts_url("acme/widgets"), "https://api.github.com/repos/acme/widgets/actions/artifacts");
}

#[test]
fn scenario_two_of_three_artifacts_are_fetched() {
    let hash = "aaaaaaaaaabbbbbbbbbbccccccccccdddddddddd";
    assert_eq!(check_token(Some("t".to_string())), Ok("t".to_string()));
    let rev = match plan_rev(hash.to_string()) {
        RevPlan::Known(r) => r,
        RevPlan::Resolve(_) => panic!("a full hash needs no resolution"),
    };
    assert_eq!(artifacts_url("acme/widgets"), "https://api.github.com/repos/acme/widgets/actions/artifacts");
    let all = Artifacts {
        artifacts: vec![artifact("linux", hash), artifact("other", "ffff"), artifact("mac", hash)],
    };
    let kept = all.into_filtered_by_rev(&rev).unwrap();
    let names: Vec<&str> = kept.iter().map(|a| a.name.as_str()).collect();
    assert_eq!(names, vec!["linux", "mac"]);
    for a in &kept {
        assert_eq!(check_download_status(200), Ok(()));
        assert_eq!(a.workflow_run.head_sha, hash);
    }
}

#[test]
fn scenario_unset_credential_fails_first() {
    assert_eq!(check_token(None), Err(Error::NoToken));
}
