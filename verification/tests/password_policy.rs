use app_common::app_error::AppError;
use app_common::password::check_password_requirements;

fn expect_failure(password: &str, confirm: &str, expected_msg: &str) {
    match check_password_requirements(password, confirm) {
        Err(AppError::ValidationError { field, msg }) => {
            assert_eq!(field, "New Password");
            assert_eq!(msg, expected_msg);
        }
        other => panic!("expected policy failure for {password:?}, got {other:?}"),
    }
}

#[test]
fn policy_rejects_short_password() {
    expect_failure("short", "short", "weak, less then 8 characters");
}

#[test]
fn policy_rejects_missing_uppercase() {
    expect_failure("alllowercase1!", "alllowercase1!", "weak, no upper case letter found");
}

#[test]
fn policy_rejects_missing_lowercase() {
    expect_failure("ALLUPPER1!", "ALLUPPER1!", "weak, no lower case letter found");
}

#[test]
fn policy_rejects_missing_digit() {
    expect_failure("NoDigits!", "NoDigits!", "weak, no digit found");
}

#[test]
fn policy_rejects_missing_punctuation() {
    expect_failure(
        "NoPunct123",
        "NoPunct123",
        r#"weak, no punctuation found. Use some of .,\/#!$%\\^&\*;:{}=\-_`~()@"#,
    );
}

#[test]
fn policy_rejects_mismatched_confirmation() {
    expect_failure("Abc12345!", "Different1!", "does not match Confirm Password");
}

#[test]
fn policy_accepts_a_conforming_password() {
    assert!(check_password_requirements("Abc12345!", "Abc12345!").is_ok());
}

#[test]
fn policy_checks_rules_in_fixed_order() {
    // Too short and missing everything else: the length message wins.
    expect_failure("a", "b", "weak, less then 8 characters");
    // Long enough but missing both cases: the uppercase message wins.
    expect_failure("12345678", "12345678", "weak, no upper case letter found");
}
