//! The command decision cores: clip, show, browse, list, add and edit.

use aikot::cmd::cmd_add_body_check;
use aikot::cmd::cmd_add_password;
use aikot::cmd::cmd_add_precheck;
use aikot::cmd::cmd_browse;
use aikot::cmd::cmd_clip;
use aikot::cmd::cmd_edit_changed;
use aikot::cmd::cmd_list;
use aikot::cmd::cmd_show;
use aikot::err::AikotError;
use aikot::gpg::decrypt;
use aikot::password::PwGen;
use aikot::text::contains_str;
use aikot::text::trim;

#[test]
fn clip_takes_the_first_line() {
    let body = String::from("hunter2\nurl: https://example.com\n");
    assert_eq!(cmd_clip("example.com", Some(&body)).unwrap(), String::from("hunter2"));
}

#[test]
fn clip_of_missing_secret_fails() {
    let r = cmd_clip("example.com", None);
    assert_eq!(
        r.unwrap_err(),
        AikotError::PassNotFound { name: String::from("example.com") }
    );
}

#[test]
fn clip_of_empty_body_fails() {
    let body = String::new();
    let r = cmd_clip("example.com", Some(&body));
    assert_eq!(
        r.unwrap_err(),
        AikotError::EmptyPassword { name: String::from("example.com") }
    );
}

#[test]
fn show_hides_the_password_line() {
    let body = String::from("hunter2\nuser: foo\nurl: https://example.com\n");
    let shown = cmd_show("example.com", Some(&body)).unwrap();
    assert_eq!(shown, vec![
        String::from("user: foo"),
        String::from("url: https://example.com")
    ]);
}

#[test]
fn browse_finds_and_trims_the_url() {
    let body = String::from("hunter2\nuser: foo\nurl:   https://example.com  \n");
    assert_eq!(
        cmd_browse("example.com", Some(&body)).unwrap(),
        String::from("https://example.com")
    );
}

#[test]
fn browse_ignores_a_url_on_the_password_line() {
    let body = String::from("url: not-a-field\nuser: foo\n");
    let r = cmd_browse("example.com", Some(&body));
    assert_eq!(
        r.unwrap_err(),
        AikotError::UrlNotFound { name: String::from("example.com") }
    );
}

#[test]
fn browse_without_url_field_fails() {
    let body = String::from("hunter2\nuser: foo\n");
    let r = cmd_browse("x", Some(&body));
    assert_eq!(r.unwrap_err(), AikotError::UrlNotFound { name: String::from("x") });
}

#[test]
fn browse_of_missing_secret_fails() {
    let r = cmd_browse("x", None);
    assert_eq!(r.unwrap_err(), AikotError::PassNotFound { name: String::from("x") });
}

#[test]
fn list_keeps_store_entries_and_strips_the_extension() {
    let entries = vec![
        String::from("web/example.com.gpg"),
        String::from("notes.txt"),
        String::from(".gpg"),
        String::from("web/.gpg"),
        String::from("bank.gpg"),
    ];
    let all = cmd_list(&entries, None);
    assert_eq!(all, vec![String::from("web/example.com"), String::from("bank")]);
}

#[test]
fn list_filters_by_substring_pattern() {
    let entries = vec![
        String::from("web/example.com.gpg"),
        String::from("bank.gpg"),
    ];
    let pat = String::from("an");
    let some = cmd_list(&entries, Some(&pat));
    assert_eq!(some, vec![String::from("bank")]);
    let pat = String::from("e");
    let more = cmd_list(&entries, Some(&pat));
    assert_eq!(more, vec![String::from("web/example.com")]);
}

#[test]
fn add_refuses_an_existing_secret_up_front() {
    let r = cmd_add_precheck("example.com", true);
    assert_eq!(
        r.unwrap_err(),
        AikotError::PassAlreadyExists { name: String::from("example.com") }
    );
    assert!(cmd_add_precheck("example.com", false).is_ok());
}

#[test]
fn add_seeds_an_empty_body_when_generation_is_declined() {
    assert_eq!(cmd_add_password(None).unwrap(), String::new());
    let pwgen = PwGen::new(16, false).unwrap();
    let pass = cmd_add_password(Some(&pwgen)).unwrap();
    assert_eq!(pass.chars().count(), 16);
}

#[test]
fn add_checks_the_edited_body_and_the_race() {
    let body = String::from("hunter2\n");
    assert!(cmd_add_body_check("x", &body, false).is_ok());
    assert_eq!(
        cmd_add_body_check("x", &body, true).unwrap_err(),
        AikotError::PassAlreadyExists { name: String::from("x") }
    );
    let empty = String::new();
    assert_eq!(
        cmd_add_body_check("x", &empty, false).unwrap_err(),
        AikotError::EmptyPassword { name: String::from("x") }
    );
}

#[test]
fn edit_reencrypts_only_a_changed_body() {
    let a = String::from("hunter2\n");
    let b = String::from("hunter3\n");
    assert!(!cmd_edit_changed(&a, &a.clone()));
    assert!(cmd_edit_changed(&a, &b));
}

#[test]
fn decrypt_hands_back_stdout_or_the_diagnostics() {
    let ok = decrypt(true, String::from("plain\n"), String::new());
    assert_eq!(ok.unwrap(), String::from("plain\n"));
    let err = decrypt(false, String::new(), String::from("bad key"));
    assert_eq!(
        err.unwrap_err(),
        AikotError::CommandFail { stderr: String::from("bad key") }
    );
}

#[test]
fn trim_and_contains_behave_like_std() {
    assert_eq!(trim("  a b\t\n"), String::from("a b"));
    assert_eq!(trim("   "), String::new());
    assert_eq!(trim("x"), String::from("x"));
    assert!(contains_str("example.com", "ample"));
    assert!(contains_str("example.com", ""));
    assert!(!contains_str("example.com", "bank"));
    assert!(!contains_str("a", "ab"));
}

#[test]
fn command_failure_message_carries_the_diagnostics() {
    let e = AikotError::CommandFail { stderr: String::from("boom") };
    assert_eq!(e.message(), "command execution fail: boom");
    let e = AikotError::GenerationFail { pwgen: String::from("length: 4, class: alphanum") };
    assert_eq!(e.message(), "password genaration fail, length: 4, class: alphanum");
    assert_eq!(AikotError::GpgNotFound.message(), "gpg or gpg2 command not found");
}
