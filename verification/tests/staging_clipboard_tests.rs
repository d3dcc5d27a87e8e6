//! The staging-file naming rules and the clipboard guardian's lifecycle.

use aikot::clipboard::ClipSession;
use aikot::entropy::FixedDrawSource;
use aikot::err::AikotError;
use aikot::tempfile::create_temp_path;
use aikot::tempfile::create_temp_path_from;
use aikot::tempfile::TempPath;

#[test]
fn staging_paths_have_the_recognizable_shape() {
    let p = create_temp_path("/tmp");
    assert_eq!(p.chars().count(), "/tmp/aikot-".len() + 6);
    assert!(p.starts_with("/tmp/aikot-"));
    assert!(p["/tmp/aikot-".len()..].chars().all(|c| c.is_ascii_alphanumeric()));
}

#[test]
fn two_staging_paths_in_one_directory_differ() {
    // The random suffixes collide with probability 62 ^ -6; the
    // exclusive-creation flag at the filesystem catches even that.
    let p1 = create_temp_path("/tmp");
    let p2 = create_temp_path("/tmp");
    assert_ne!(p1, p2);
}

#[test]
fn staging_path_suffix_comes_from_the_draws() {
    let mut source = FixedDrawSource { value: 0 };
    let p = create_temp_path_from("/var/tmp", &mut source);
    assert_eq!(p, "/var/tmp/aikot-AAAAAA");
}

#[test]
fn staging_handle_owns_its_path_until_released() {
    let handle = TempPath::new(String::from("/tmp/aikot-abc123"));
    assert_eq!(handle.path().as_str(), "/tmp/aikot-abc123");
    // Releasing consumes the handle, so the path can be handed to exactly
    // one deletion.
    let to_delete = handle.release();
    assert_eq!(to_delete, String::from("/tmp/aikot-abc123"));
}

#[test]
fn armed_session_serves_content_then_clears_on_deadline() {
    let session = ClipSession::idle();
    let session = session.arm(1000, String::from("secret123"), true, true).unwrap();
    assert_eq!(session.content().unwrap().as_str(), "secret123");
    assert_eq!(session.deadline(), Some(1045));
    assert!(!session.should_clear(1044));
    let session = session.clear_due(1044);
    assert_eq!(session.content().unwrap().as_str(), "secret123");
    assert!(session.should_clear(1045));
    let session = session.clear_due(1045);
    assert!(session.content().is_none());
    assert!(!session.should_clear(2000));
}

#[test]
fn failed_detachment_arms_nothing() {
    let session = ClipSession::idle();
    let r = session.arm(1000, String::from("secret123"), false, false);
    assert_eq!(r.unwrap_err(), AikotError::DaemonizeFailed);
}

#[test]
fn unreachable_backend_arms_nothing() {
    let session = ClipSession::idle();
    let r = session.arm(1000, String::from("secret123"), true, false);
    assert_eq!(r.unwrap_err(), AikotError::ClipboardBackendUnavailable);
}
