//! The environment resolution and store naming rules.

use aikot::env::editor_cmd;
use aikot::env::gpg_path;
use aikot::env::password_store_dir;
use aikot::env::AikotEnv;
use aikot::err::AikotError;

#[test]
fn editor_when_env_set() {
    let result = editor_cmd(Some(String::from("emacs")));
    assert!(result.is_ok());
    assert_eq!(result.unwrap(), String::from("emacs"));
}

#[test]
fn editor_when_env_not_set() {
    let result = editor_cmd(None);
    assert!(result.is_err());
    assert_eq!(result.unwrap_err().message(), "invalid environment: EDITOR");
}

#[test]
fn password_store_dir_when_env_set() {
    let result = password_store_dir(Some(String::from("/tmp/password-store")), None);
    assert!(result.is_ok());
    assert_eq!(result.unwrap(), String::from("/tmp/password-store"));
}

#[test]
fn password_store_dir_when_home_set() {
    let result = password_store_dir(None, Some(String::from("/home/foo")));
    assert!(result.is_ok());
    assert_eq!(result.unwrap(), String::from("/home/foo/.password-store"));
}

#[test]
fn password_store_dir_error_when_home_not_set() {
    let result = password_store_dir(None, None);
    assert!(result.is_err());
    assert_eq!(result.unwrap_err().message(), "invalid environment: HOME");
}

#[test]
fn password_store_file_example_com() {
    let aikot_env = AikotEnv::from_env(
        Some(String::from("/tmp/password-store")),
        None,
        Some(String::from("/usr/bin/gpg")),
    )
    .unwrap();
    let result = aikot_env.password_store_file("example.com");
    assert!(result.is_ok());
    assert_eq!(result.unwrap(), String::from("/tmp/password-store/example.com.gpg"));
}

#[test]
fn from_env_without_gpg_is_an_error() {
    let r = AikotEnv::from_env(Some(String::from("/tmp/password-store")), None, None);
    assert_eq!(r.unwrap_err(), AikotError::GpgNotFound);
}

#[test]
fn gpg_path_forwards_the_find() {
    assert_eq!(
        gpg_path(Some(String::from("/usr/bin/gpg2"))).unwrap(),
        String::from("/usr/bin/gpg2")
    );
    assert_eq!(gpg_path(None).unwrap_err(), AikotError::GpgNotFound);
}

#[test]
fn gpg_id_path_is_under_the_base_dir() {
    let aikot_env = AikotEnv::from_env(
        Some(String::from("/tmp/password-store")),
        None,
        Some(String::from("/usr/bin/gpg")),
    )
    .unwrap();
    assert_eq!(aikot_env.gpg_id_path(), String::from("/tmp/password-store/.gpg-id"));
    assert_eq!(aikot_env.base_dir().as_str(), "/tmp/password-store");
    assert_eq!(aikot_env.gpg_path().as_str(), "/usr/bin/gpg");
}

#[test]
fn recipients_one_per_line() {
    let aikot_env = AikotEnv::from_env(
        Some(String::from("/s")),
        None,
        Some(String::from("/usr/bin/gpg")),
    )
    .unwrap();
    let contents = String::from("alice@example.com\nbob@example.com\n");
    let recs = aikot_env.get_recipients(Some(&contents)).unwrap();
    assert_eq!(recs, vec![
        String::from("alice@example.com"),
        String::from("bob@example.com")
    ]);
}

#[test]
fn recipients_missing_or_empty_file_is_an_error() {
    let aikot_env = AikotEnv::from_env(
        Some(String::from("/s")),
        None,
        Some(String::from("/usr/bin/gpg")),
    )
    .unwrap();
    assert_eq!(
        aikot_env.get_recipients(None).unwrap_err(),
        AikotError::RecipientNotFound
    );
    let empty = String::new();
    assert_eq!(
        aikot_env.get_recipients(Some(&empty)).unwrap_err(),
        AikotError::RecipientNotFound
    );
}
