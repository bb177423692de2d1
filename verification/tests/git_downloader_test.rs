use cp_config::error::Error;
use cp_config::error_kind::GIT_ERROR;
use cp_config::services::git_downloader::{
    DownloadMode, FastForwardStep, GitDownloader, MergeCompletion, MergeKind, GIT_REMOTE_NAME,
};

fn get_git_downloader() -> GitDownloader {
    GitDownloader::new(
        "https://example.org/configuration.git".to_string(),
        "reader".to_string(),
        "not-a-secret".to_string(),
    )
}

#[test]
fn a_downloader_keeps_what_it_was_made_with() {
    let downloader = get_git_downloader();

    assert_eq!("https://example.org/configuration.git", downloader.repository_url());
    assert_eq!("reader", downloader.username());
    assert_eq!("not-a-secret", downloader.password());
}

#[test]
fn stages_are_fetched_from_origin() {
    assert_eq!("origin", GIT_REMOTE_NAME);
}

#[test]
fn a_directory_with_a_repository_is_pulled_into() {
    let downloader = get_git_downloader();

    assert_eq!(DownloadMode::Pull, downloader.download_mode(true));
    assert_eq!(DownloadMode::Clone, downloader.download_mode(false));
}

#[test]
fn a_fast_forward_is_preferred_to_a_merge() {
    let downloader = get_git_downloader();

    assert_eq!(MergeKind::FastForward, downloader.merge(true, false));
    assert_eq!(MergeKind::FastForward, downloader.merge(true, true));
    assert_eq!(MergeKind::Normal, downloader.merge(false, true));
    assert_eq!(MergeKind::Nothing, downloader.merge(false, false));
}

#[test]
fn a_missing_branch_is_created_by_the_fast_forward() {
    let downloader = get_git_downloader();

    assert_eq!(FastForwardStep::Advance, downloader.fast_forward(true));
    assert_eq!(FastForwardStep::Create, downloader.fast_forward(false));
}

#[test]
fn a_merge_with_conflicts_commits_nothing() {
    let downloader = get_git_downloader();

    assert_eq!(MergeCompletion::KeepConflicts, downloader.normal_merge(true));
    assert_eq!(MergeCompletion::Commit, downloader.normal_merge(false));
}

#[test]
fn references_are_named_after_the_stage() {
    let downloader = get_git_downloader();

    assert_eq!("refs/heads/dummy", downloader.branch_reference("dummy"));
    assert_eq!("refs/remotes/origin/dummy", downloader.remote_reference("dummy"));
    assert_eq!("refs/heads/feature/login", downloader.branch_reference("feature/login"));
    assert_eq!("refs/heads/", downloader.branch_reference(""));
}

#[test]
fn messages_name_the_commits() {
    let downloader = get_git_downloader();

    assert_eq!(
        "fast forward: setting refs/heads/dummy to id: 8f3a2c",
        downloader.fast_forward_message("refs/heads/dummy", "8f3a2c")
    );
    assert_eq!("setting dummy to 8f3a2c", downloader.set_reference_to_commit("dummy", "8f3a2c"));
    assert_eq!("merge: 8f3a2c into 11b0de", downloader.merge_message("8f3a2c", "11b0de"));
}

#[test]
fn an_update_is_available_when_the_remote_head_is_another_commit() {
    let downloader = get_git_downloader();
    let local = [0x8fu8; 20];
    let mut remote = [0x8fu8; 20];
    remote[19] = 0x90;

    let version_result = downloader.is_new_version_available(&local, Some(&remote));

    assert!(version_result.is_ok());
    assert!(version_result.unwrap());
}

#[test]
fn no_update_is_available_when_both_heads_are_the_same_commit() {
    let downloader = get_git_downloader();
    let local = [0x8fu8; 20];
    let remote = [0x8fu8; 20];

    assert_eq!(Ok(false), downloader.is_new_version_available(&local, Some(&remote)));
    assert_eq!(Ok(false), downloader.is_new_version_available(&[], Some(&[])));
    assert_eq!(Ok(true), downloader.is_new_version_available(&local, Some(&remote[..19])));
    assert_eq!(Ok(true), downloader.is_new_version_available(&local[..1], Some(&remote)));
}

#[test]
fn a_remote_head_without_a_commit_is_a_git_error() {
    let downloader = get_git_downloader();

    let version_result = downloader.is_new_version_available(&[0x8fu8; 20], None);

    assert_eq!(
        Err(Error::new(GIT_ERROR.to_string(), "failed to get oid of remote head".to_string())),
        version_result
    );
}
