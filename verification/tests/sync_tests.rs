use shco::config::Config;
use shco::fingerprint::fingerprint_of;
use shco::sync::{PluginOutcome, SyncAction, SyncEvent, SyncPhase, SyncSession};

fn config_of(sources: &[&str]) -> Config {
    Config::new(sources.iter().map(|s| s.to_string()).collect())
}

#[test]
fn unchanged_config_does_nothing() {
    let bytes = b"{\"plugins\":[\"owner/name\"]}";
    let committed = fingerprint_of(bytes);
    let mut s = SyncSession::new(
        config_of(&["owner/name"]),
        fingerprint_of(bytes),
        Some(committed.bytes),
    );
    assert_eq!(s.phase, SyncPhase::Unchanged);
    assert!(!s.changed);
    let a = s.step(SyncEvent::Tick);
    assert!(matches!(a, SyncAction::Done { changed: false }));
    assert_eq!(s.phase, SyncPhase::Finished);
    assert_eq!(s.outcomes.len(), 0);
}

#[test]
fn first_run_reconciles_even_an_empty_list() {
    let bytes = b"{\"plugins\":[]}";
    let mut s = SyncSession::new(config_of(&[]), fingerprint_of(bytes), None);
    assert_eq!(s.phase, SyncPhase::Resolving);
    assert!(s.changed);
    let a = s.step(SyncEvent::Tick);
    assert!(matches!(a, SyncAction::CommitLock));
    let a = s.step(SyncEvent::LockWritten);
    assert!(matches!(a, SyncAction::NotifyShells));
    let a = s.step(SyncEvent::ShellsNotified);
    assert!(matches!(a, SyncAction::Done { changed: true }));
    assert_eq!(s.phase, SyncPhase::Finished);
}

#[test]
fn present_plugin_is_never_installed() {
    let bytes = b"{\"plugins\":[\"owner/name\"]}";
    let mut s = SyncSession::new(config_of(&["owner/name"]), fingerprint_of(bytes), None);
    let a = s.step(SyncEvent::Tick);
    match a {
        SyncAction::CheckPresence { source, identity } => {
            assert_eq!(source, "owner/name");
            assert_eq!(identity.owner, "owner");
            assert_eq!(identity.name, "name");
        }
        other => panic!("expected a presence probe, got {:?}", other),
    }
    let a = s.step(SyncEvent::Presence { installed: true });
    assert!(matches!(a, SyncAction::Continue));
    assert_eq!(s.outcomes, vec![PluginOutcome::AlreadyInstalled]);
    let a = s.step(SyncEvent::Tick);
    assert!(matches!(a, SyncAction::CommitLock));
}

#[test]
fn absent_plugin_is_installed() {
    let bytes = b"{\"plugins\":[\"https://host/owner/name\"]}";
    let mut s = SyncSession::new(
        config_of(&["https://host/owner/name"]),
        fingerprint_of(bytes),
        None,
    );
    let a = s.step(SyncEvent::Tick);
    assert!(matches!(a, SyncAction::CheckPresence { .. }));
    let a = s.step(SyncEvent::Presence { installed: false });
    match a {
        SyncAction::Install { source, identity } => {
            assert_eq!(source, "https://host/owner/name");
            assert_eq!(identity.owner, "owner");
            assert_eq!(identity.name, "name");
        }
        other => panic!("expected an install, got {:?}", other),
    }
    let a = s.step(SyncEvent::CloneDone { ok: true });
    assert!(matches!(a, SyncAction::Continue));
    assert_eq!(s.outcomes, vec![PluginOutcome::Installed]);
}

#[test]
fn failed_install_is_recorded_and_skipped() {
    let bytes = b"{\"plugins\":[\"a/one\",\"b/two\"]}";
    let mut s = SyncSession::new(config_of(&["a/one", "b/two"]), fingerprint_of(bytes), None);
    let _ = s.step(SyncEvent::Tick);
    let _ = s.step(SyncEvent::Presence { installed: false });
    let a = s.step(SyncEvent::CloneDone { ok: false });
    assert!(matches!(a, SyncAction::Continue));
    // the second plugin still gets its turn
    let a = s.step(SyncEvent::Tick);
    match a {
        SyncAction::CheckPresence { source, .. } => assert_eq!(source, "b/two"),
        other => panic!("expected a presence probe, got {:?}", other),
    }
    let _ = s.step(SyncEvent::Presence { installed: true });
    let a = s.step(SyncEvent::Tick);
    assert!(matches!(a, SyncAction::CommitLock));
    assert_eq!(
        s.outcomes,
        vec![PluginOutcome::InstallFailed, PluginOutcome::AlreadyInstalled]
    );
}

#[test]
fn invalid_entry_leaves_neighbours_untouched() {
    let bytes = b"{\"plugins\":[\"a/one\",\"nonsense\",\"c/three\"]}";
    let mut s = SyncSession::new(
        config_of(&["a/one", "nonsense", "c/three"]),
        fingerprint_of(bytes),
        None,
    );
    // first entry: probed and installed
    let a = s.step(SyncEvent::Tick);
    match a {
        SyncAction::CheckPresence { source, .. } => assert_eq!(source, "a/one"),
        other => panic!("expected a presence probe, got {:?}", other),
    }
    let _ = s.step(SyncEvent::Presence { installed: false });
    let _ = s.step(SyncEvent::CloneDone { ok: true });
    // second entry is invalid and skipped: the next probe is the third entry
    let a = s.step(SyncEvent::Tick);
    match a {
        SyncAction::CheckPresence { source, identity } => {
            assert_eq!(source, "c/three");
            assert_eq!(identity.owner, "c");
            assert_eq!(identity.name, "three");
        }
        other => panic!("expected a presence probe, got {:?}", other),
    }
    let _ = s.step(SyncEvent::Presence { installed: false });
    let _ = s.step(SyncEvent::CloneDone { ok: true });
    let a = s.step(SyncEvent::Tick);
    assert!(matches!(a, SyncAction::CommitLock));
    assert_eq!(
        s.outcomes,
        vec![
            PluginOutcome::Installed,
            PluginOutcome::InvalidSource,
            PluginOutcome::Installed,
        ]
    );
}

#[test]
fn entries_are_probed_in_configured_order() {
    let bytes = b"{\"plugins\":[\"a/one\",\"b/two\",\"c/three\"]}";
    let mut s = SyncSession::new(
        config_of(&["a/one", "b/two", "c/three"]),
        fingerprint_of(bytes),
        None,
    );
    let mut probed: Vec<String> = Vec::new();
    let mut event = SyncEvent::Tick;
    loop {
        match s.step(event) {
            SyncAction::Continue => event = SyncEvent::Tick,
            SyncAction::CheckPresence { source, .. } => {
                probed.push(source);
                event = SyncEvent::Presence { installed: true };
            }
            SyncAction::Install { .. } => panic!("everything is already installed"),
            SyncAction::CommitLock => event = SyncEvent::LockWritten,
            SyncAction::NotifyShells => event = SyncEvent::ShellsNotified,
            SyncAction::Done { changed } => {
                assert!(changed);
                break;
            }
        }
    }
    assert_eq!(probed, vec!["a/one", "b/two", "c/three"]);
}

#[test]
fn commit_comes_after_every_entry_and_notify_after_commit() {
    let bytes = b"{\"plugins\":[\"a/one\"]}";
    let mut s = SyncSession::new(config_of(&["a/one"]), fingerprint_of(bytes), None);
    let mut log: Vec<&'static str> = Vec::new();
    let mut event = SyncEvent::Tick;
    loop {
        match s.step(event) {
            SyncAction::Continue => event = SyncEvent::Tick,
            SyncAction::CheckPresence { .. } => {
                log.push("probe");
                event = SyncEvent::Presence { installed: false };
            }
            SyncAction::Install { .. } => {
                log.push("install");
                event = SyncEvent::CloneDone { ok: true };
            }
            SyncAction::CommitLock => {
                log.push("commit");
                event = SyncEvent::LockWritten;
            }
            SyncAction::NotifyShells => {
                log.push("notify");
                event = SyncEvent::ShellsNotified;
            }
            SyncAction::Done { .. } => break,
        }
    }
    assert_eq!(log, vec!["probe", "install", "commit", "notify"]);
}

#[test]
fn second_run_after_commit_is_idempotent() {
    let bytes = b"{\"plugins\":[\"a/one\"]}";
    // first run: no lock, the plugin is installed and the fingerprint committed
    let mut first = SyncSession::new(config_of(&["a/one"]), fingerprint_of(bytes), None);
    let mut committed: Option<Vec<u8>> = None;
    let mut event = SyncEvent::Tick;
    let mut installs = 0;
    loop {
        match first.step(event) {
            SyncAction::Continue => event = SyncEvent::Tick,
            SyncAction::CheckPresence { .. } => event = SyncEvent::Presence { installed: false },
            SyncAction::Install { .. } => {
                installs += 1;
                event = SyncEvent::CloneDone { ok: true };
            }
            SyncAction::CommitLock => {
                committed = Some(first.fingerprint.bytes.clone());
                event = SyncEvent::LockWritten;
            }
            SyncAction::NotifyShells => event = SyncEvent::ShellsNotified,
            SyncAction::Done { .. } => break,
        }
    }
    assert_eq!(installs, 1);
    assert!(committed.is_some());
    // second run over the unchanged document: zero probes, zero installs
    let mut second = SyncSession::new(config_of(&["a/one"]), fingerprint_of(bytes), committed);
    assert_eq!(second.phase, SyncPhase::Unchanged);
    let a = second.step(SyncEvent::Tick);
    assert!(matches!(a, SyncAction::Done { changed: false }));
    assert_eq!(second.outcomes.len(), 0);
}
