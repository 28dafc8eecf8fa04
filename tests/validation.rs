use toolkit_utils::api_error::ApiErrorType;
use toolkit_utils::date_range::DateRange;
use toolkit_utils::validation::{ValidateField, ValidationType, Validator};

fn field(t: ValidationType, name: &str) -> ValidateField {
    ValidateField(t, name.to_string())
}

#[test]
fn length_and_email_failures_give_two_entries() {
    let v = Validator::new(vec![
        field(ValidationType::StringLength("ab".to_string(), 3, 10), "name"),
        field(ValidationType::Email("not-an-email".to_string()), "email"),
    ]);
    let err = v.validate().unwrap_err();
    match err.error_type() {
        ApiErrorType::ValidationError(list) => {
            assert_eq!(list.len(), 2);
            assert_eq!(list[0].field, "name");
            assert_eq!(list[0].message, "Minimum required length is 3");
            assert_eq!(list[1].field, "email");
            assert!(!list[1].message.is_empty());
        }
        other => panic!("unexpected error type {:?}", other),
    }
}

#[test]
fn passing_rules_validate() {
    let v = Validator::new(vec![
        field(ValidationType::NoCheck, "none"),
        field(ValidationType::StringLength("héllo".to_string(), 5, 5), "name"),
        field(ValidationType::Email("someone@example.com".to_string()), "email"),
        field(ValidationType::Count(2, 1, 3), "count"),
    ]);
    assert!(v.validate().is_ok());
    assert!(Validator::new(vec![]).validate().is_ok());
}

#[test]
fn too_long_string_reports_maximum() {
    let r = Validator::validate_string_length("abcdef", 1, 4, &"title".to_string());
    let e = r.unwrap_err();
    assert_eq!(e.field, "title");
    assert_eq!(e.message, "Maximum length is 4");
}

#[test]
fn count_bounds_messages() {
    let f = "items".to_string();
    assert_eq!(Validator::validate_count(0, 1, 3, &f).unwrap_err().message, "Minimum size length is 1");
    assert_eq!(Validator::validate_count(12, 1, 10, &f).unwrap_err().message, "Maximum size is 10");
    assert!(Validator::validate_count(3, 3, 3, &f).is_ok());
}

#[test]
fn date_range_rules_use_given_time() {
    let f = "when".to_string();
    let reversed = Validator::validate_date_range(&DateRange::new(10, 5), 0, &f).unwrap_err();
    assert_eq!(reversed.message, "The start_date is after the end_date");
    let past = Validator::validate_date_range(&DateRange::new(10, 20), 11, &f).unwrap_err();
    assert_eq!(past.message, "The start_date can't be in the past");
    assert!(Validator::validate_date_range(&DateRange::new(10, 20), 10, &f).is_ok());
}

#[test]
fn validate_at_collects_every_failure() {
    let v = Validator::new(vec![
        field(ValidationType::DateRange(DateRange::new(5, 1)), "range"),
        field(ValidationType::Count(9, 0, 2), "count"),
        field(ValidationType::Count(1, 0, 2), "ok"),
    ]);
    let err = v.validate_at(0).unwrap_err();
    match err.error_type() {
        ApiErrorType::ValidationError(list) => {
            let fields: Vec<&str> = list.iter().map(|r| r.field.as_str()).collect();
            assert_eq!(fields, vec!["range", "count"]);
        }
        other => panic!("unexpected error type {:?}", other),
    }
}

#[test]
fn email_response_passes_problem_through() {
    let f = "mail".to_string();
    assert!(Validator::email_response(None, &f).is_ok());
    let e = Validator::email_response(Some("bad".to_string()), &f).unwrap_err();
    assert_eq!(e.field, "mail");
    assert_eq!(e.message, "bad");
}

#[test]
fn email_check_rejects_missing_separator() {
    let e = Validator::validate_email("plainaddress", &"mail".to_string()).unwrap_err();
    assert_eq!(e.message, "Missing separator character '@'.");
    assert!(Validator::validate_email("a@b.co", &"mail".to_string()).is_ok());
}

#[test]
fn rule_text_forms() {
    assert_eq!(ValidationType::NoCheck.to_text(), "None");
    assert_eq!(ValidationType::Count(3, 1, 5).to_text(), "Count - value: 3, min: 1, max: 5");
    assert_eq!(
        ValidationType::StringLength("ab".to_string(), 0, 12).to_text(),
        "StringLength - value: ab, min: 0, max: 12"
    );
    assert_eq!(
        ValidationType::DateRange(DateRange::new(4, 90)).to_text(),
        "DateRange - DateRange { start_date: 4, end_date: 90 }"
    );
    assert_eq!(ValidationType::Email("a\"b".to_string()).to_text(), "Email - \"a\\\"b\"");
}
