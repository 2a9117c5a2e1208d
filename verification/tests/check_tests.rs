//! The check orchestrator: folder resolution, the fetch loop, failure
//! accounting, and the reported count.

use rustmail::check::{CheckError, CheckRun, Phase};
use rustmail::storage::MessageStore;

/// Drives one run up to the fetch loop with every session step succeeding.
fn run_to_fetching(folder_override: Option<String>, default_folder: Option<String>, uids: Vec<u32>) -> CheckRun {
    let mut run = CheckRun::new(folder_override, default_folder);
    run.on_credential(true);
    run.on_connect(true);
    run.on_auth(true);
    run.on_select(true);
    run.on_unseen(uids);
    run
}

/// Two unseen messages, both fetch successfully: the count is 2 and two
/// files exist under the account's inbox directory.
#[test]
fn two_messages_stored() {
    let mut store = MessageStore::new();
    let mut run = run_to_fetching(None, Some("inbox".to_string()), vec![101, 102]);
    let mut stored: Vec<String> = Vec::new();
    while let Some(_uid) = run.next_uid() {
        let body = vec![0xabu8];
        let (path, wrote) = run.on_fetch_ok(&mut store, "me@example.com", &body);
        assert!(wrote);
        stored.push(path);
    }
    run.finish_fetch();
    run.on_logout(true);
    assert_eq!(run.count(), 2);
    assert_eq!(store.len(), 2);
    assert!(stored[0].starts_with("rustmail/me@example.com/inbox/"));
    assert!(stored[1].starts_with("rustmail/me@example.com/inbox/"));
    assert_eq!(run.fetch_failures.len(), 0);
    assert_eq!(run.phase, Phase::Done);
}

/// One of the two fetches fails: the count is still 2, exactly one file is
/// stored, and the one failure is recorded.
#[test]
fn one_fetch_fails() {
    let mut store = MessageStore::new();
    let mut run = run_to_fetching(None, Some("inbox".to_string()), vec![101, 102]);
    while let Some(uid) = run.next_uid() {
        if uid == 102 {
            run.on_fetch_failed(&mut store);
        } else {
            let body = vec![0x01u8];
            run.on_fetch_ok(&mut store, "me@example.com", &body);
        }
    }
    run.finish_fetch();
    run.on_logout(true);
    assert_eq!(run.count(), 2);
    assert_eq!(store.len(), 1);
    assert_eq!(run.fetch_failures, vec![102]);
}

/// Re-running the check while the server still reports the same messages
/// unseen creates no new files and still reports the full count.
#[test]
fn rerun_creates_nothing_new() {
    let mut store = MessageStore::new();
    for _ in 0..2 {
        let mut run = run_to_fetching(None, Some("inbox".to_string()), vec![101, 102]);
        while let Some(_uid) = run.next_uid() {
            let body = vec![0xabu8];
            run.on_fetch_ok(&mut store, "me@example.com", &body);
        }
        run.finish_fetch();
        run.on_logout(true);
        assert_eq!(run.count(), 2);
    }
    assert_eq!(store.len(), 2);
}

/// With no override and no default folder, the effective folder is `inbox`.
#[test]
fn folder_defaults_to_inbox() {
    let run = CheckRun::new(None, None);
    assert_eq!(run.folder, "inbox");
}

/// The override wins over the default; the default wins over `inbox`.
#[test]
fn folder_resolution_order() {
    let run = CheckRun::new(Some("work".to_string()), Some("archive".to_string()));
    assert_eq!(run.folder, "work");
    let run = CheckRun::new(None, Some("archive".to_string()));
    assert_eq!(run.folder, "archive");
}

/// A rejected login fails the run with `Auth`, and the surfaced diagnostic
/// never contains the credential that was used.
#[test]
fn auth_failure_leaks_nothing() {
    let credential = "hunter2-secret-417";
    let mut run = CheckRun::new(None, None);
    run.on_credential(true);
    run.on_connect(true);
    run.on_auth(false);
    assert_eq!(run.phase, Phase::Failed);
    assert_eq!(run.failure, Some(CheckError::Auth));
    let message = run.failure.unwrap().describe();
    assert!(!message.contains(credential));
}

/// Each unrecoverable error ends the run at its own stage with its own kind.
#[test]
fn fatal_error_kinds() {
    let mut run = CheckRun::new(None, None);
    run.on_credential(false);
    assert_eq!(run.failure, Some(CheckError::Credential));

    let mut run = CheckRun::new(None, None);
    run.on_credential(true);
    run.on_connect(false);
    assert_eq!(run.failure, Some(CheckError::Connection));

    let mut run = CheckRun::new(None, None);
    run.on_credential(true);
    run.on_connect(true);
    run.on_auth(true);
    run.on_select(false);
    assert_eq!(run.failure, Some(CheckError::FolderNotFound));
}

/// The four diagnostics are fixed one-line texts.
#[test]
fn error_texts() {
    assert_eq!(
        CheckError::Credential.describe(),
        "could not retrieve the account credential"
    );
    assert_eq!(CheckError::Connection.describe(), "could not connect to the mail server");
    assert_eq!(CheckError::Auth.describe(), "the server rejected the login");
    assert_eq!(CheckError::FolderNotFound.describe(), "the server reports no such mailbox");
}

/// An empty unseen list is not an error: the count is zero and nothing is
/// stored.
#[test]
fn empty_unseen_list() {
    let mut store = MessageStore::new();
    let mut run = run_to_fetching(None, None, Vec::new());
    assert_eq!(run.next_uid(), None);
    run.finish_fetch();
    run.on_logout(false);
    assert_eq!(run.count(), 0);
    assert_eq!(store.len(), 0);
    assert_eq!(run.phase, Phase::Done);
}
