//! The password generator: predicate conjunction, the two policies, and
//! generation under both healthy and broken draw sources.

use aikot::entropy::FixedDrawSource;
use aikot::err::AikotError;
use aikot::password::all_predicts;
use aikot::password::Alphanum;
use aikot::password::AlphanumSymbol;
use aikot::password::PasswordClass;
use aikot::password::PwGen;

const SYMBOLS: &str = "!\"#$%&'()*+,-./:;<=>?@[\\]^_`{|}~";

fn has_lower(s: &str) -> bool {
    s.chars().any(|c| c.is_ascii_lowercase())
}

fn has_upper(s: &str) -> bool {
    s.chars().any(|c| c.is_ascii_uppercase())
}

fn has_digit(s: &str) -> bool {
    s.chars().any(|c| c.is_ascii_digit())
}

fn has_symbol(s: &str) -> bool {
    s.chars().any(|c| SYMBOLS.contains(c))
}

#[test]
fn test_all_predicts_for_empty_pred() {
    let mut v: Vec<Box<dyn Fn(char) -> bool>> = vec![];
    assert!(all_predicts(&mut v, "foo"));
}

#[test]
fn test_all_predicts_for_one_pred_pass() {
    let mut v = vec![|c| c == 'f'];
    assert!(all_predicts(&mut v, "foo"));
}

#[test]
fn test_all_predicts_for_one_pred_fail() {
    let mut v = vec![|c| c == 'g'];
    assert!(!all_predicts(&mut v, "foo"));
}

#[test]
fn test_all_predicts_for_one_pred_pass_of_3preds() {
    let mut v: Vec<Box<dyn Fn(char) -> bool>> = vec![
        Box::new(|c| c == 'g'),
        Box::new(|c| c == 'h'),
        Box::new(|c| c == 'f'),
    ];
    assert!(!all_predicts(&mut v, "foo"));
}

#[test]
fn test_all_predicts_for_all_preds_pass_of_3preds() {
    let mut v: Vec<Box<dyn Fn(char) -> bool>> = vec![
        Box::new(|c| c == 'f'),
        Box::new(|c| c == 'o'),
        Box::new(|c| c != 'g'),
    ];
    assert!(all_predicts(&mut v, "foo"));
}

#[test]
fn test_alphanum_minimum_length() {
    assert_eq!(Alphanum.minimum_length(), 3);
}

#[test]
fn test_alphanum_verify_pass() {
    assert!(Alphanum.verify("fooBar00"));
    assert!(Alphanum.verify("0aA"));
}

#[test]
fn test_alphanum_verify_fail() {
    assert!(!Alphanum.verify("foobar00"));
    assert!(!Alphanum.verify("FOOBAR00"));
    assert!(!Alphanum.verify("FOObarBaZ"));
    assert!(!Alphanum.verify("0123456"));
    assert!(!Alphanum.verify("foo!bar&"));
}

#[test]
fn test_alphanumsymbol_minimum_length() {
    assert_eq!(AlphanumSymbol.minimum_length(), 4);
}

#[test]
fn test_alphanumsymbol_verify_pass() {
    assert!(AlphanumSymbol.verify("fooBar00!@"));
    assert!(AlphanumSymbol.verify("0aA#"));
}

#[test]
fn test_alphanumsymbol_verify_fail() {
    assert!(!AlphanumSymbol.verify("fooBAR00"));
    assert!(!AlphanumSymbol.verify("FOOBAR00*()"));
    assert!(!AlphanumSymbol.verify("FOObarBaZ{}"));
    assert!(!AlphanumSymbol.verify("0123456"));
    assert!(!AlphanumSymbol.verify("foobar00"));
    assert!(!AlphanumSymbol.verify("~!@#$%"));
}

#[test]
fn generate_alphanum_covers_all_classes_at_each_length() {
    for length in [3usize, 8, 12, 24] {
        let pwgen = PwGen::new(length, false).unwrap();
        let pass = pwgen.try_generate().unwrap();
        assert_eq!(pass.chars().count(), length);
        assert!(has_lower(&pass));
        assert!(has_upper(&pass));
        assert!(has_digit(&pass));
    }
}

#[test]
fn generate_alphanum_below_minimum_fails() {
    let r = PwGen::new(2, false);
    match r {
        Err(AikotError::MinimumLength { pwgen, min_len }) => {
            assert_eq!(min_len, 3);
            assert_eq!(pwgen, "length: 2, class: alphanum");
        }
        other => panic!("expected a minimum-length error, got {:?}", other),
    }
}

#[test]
fn generate_symbol_four_covers_all_four_classes() {
    let pwgen = PwGen::new(4, true).unwrap();
    let pass = pwgen.try_generate().unwrap();
    assert_eq!(pass.chars().count(), 4);
    assert!(has_lower(&pass));
    assert!(has_upper(&pass));
    assert!(has_digit(&pass));
    assert!(has_symbol(&pass));
}

#[test]
fn generate_symbol_exhausts_cap_under_rejecting_source() {
    // Every draw maps to slot 127, beyond the 94-character alphabet, so
    // every draw is rejected and generation must give up at its cap.
    let mut source = FixedDrawSource { value: u32::MAX };
    let pwgen = PwGen::new(12, true).unwrap();
    let r = pwgen.try_generate_from(&mut source);
    match r {
        Err(AikotError::GenerationFail { pwgen }) => {
            assert_eq!(pwgen, "length: 12, class: alphanum+symbol");
        }
        other => panic!("expected a generation failure, got {:?}", other),
    }
}

#[test]
fn generate_twice_checks_classes_each_call() {
    // Nothing is promised about two calls returning the same or different
    // strings; only the class coverage of each result is.
    let pwgen = PwGen::new(10, true).unwrap();
    for _ in 0..2 {
        let pass = pwgen.try_generate().unwrap();
        assert_eq!(pass.chars().count(), 10);
        assert!(has_lower(&pass));
        assert!(has_upper(&pass));
        assert!(has_digit(&pass));
        assert!(has_symbol(&pass));
    }
}

#[test]
fn minimum_length_error_message_exact() {
    let err = PwGen::new(2, false).unwrap_err();
    assert_eq!(
        err.message(),
        "password less than minimum length: 3 > length: 2, class: alphanum"
    );
}

#[test]
fn describe_names_length_and_class() {
    let an = PwGen::new(12, false).unwrap();
    assert_eq!(an.describe(), "length: 12, class: alphanum");
    let ans = PwGen::new(4, true).unwrap();
    assert_eq!(ans.describe(), "length: 4, class: alphanum+symbol");
}

#[test]
fn fixed_draws_map_onto_the_alphabet_as_stated() {
    // Slot k of the alphanumeric alphabet is chosen by the top six bits of
    // a draw: slot 0 is 'A', slot 1 is 'B', slot 61 is '9'.
    let mut source = FixedDrawSource { value: 1u32 << 26 };
    let pass = aikot::entropy::gen_random_alphanum_from(&mut source, 3);
    assert_eq!(pass, "BBB");
    let mut source = FixedDrawSource { value: 61u32 << 26 };
    let pass = aikot::entropy::gen_random_alphanum_from(&mut source, 2);
    assert_eq!(pass, "99");
}
