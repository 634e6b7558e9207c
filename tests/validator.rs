use printtables::name::NameSubject;
use printtables::validation::{CollectingValidator, ValidationError};

#[test]
fn parse_valid_items() {
    let mut validator = CollectingValidator::default();
    let val_1 = validator.parse::<TestValue1, String>(VALID_VALUE.to_string());
    let val_2 = validator.parse::<TestValue2, String>(VALID_VALUE.to_string());

    assert!(
        !validator.has_errors(),
        "all values are valid. errors must not be reported"
    );

    assert!(val_1.is_ok());
    assert!(val_2.is_ok());

    let errors = validator.into_errors();
    has_no_errors(&errors, VALUE_1);
    has_no_errors(&errors, VALUE_2);
    assert!(errors.is_empty(), "no other errors must be reported");
}

#[test]
fn parse_valid_and_invalid_items() {
    let mut validator = CollectingValidator::default();
    let val_1 = validator.parse::<TestValue1, String>(INVALID_VALUE.to_string());
    let val_2 = validator.parse::<TestValue2, String>(VALID_VALUE.to_string());

    assert!(
        validator.has_errors(),
        "errors must be reported when there is at least a single validation error"
    );

    assert!(val_1.is_err());
    assert!(val_2.is_ok());

    let errors = validator.into_errors();
    has_errors(&errors, VALUE_1);
    has_no_errors(&errors, VALUE_2);
    assert_eq!(
        errors.len(),
        1,
        "only one field has error. no other errors must be reported"
    );
}

#[test]
fn parse_invalid_items() {
    let mut validator = CollectingValidator::default();
    let val_1 = validator.parse::<TestValue1, String>(INVALID_VALUE.to_string());
    let val_2 = validator.parse::<TestValue2, String>(INVALID_VALUE.to_string());

    assert!(
        validator.has_errors(),
        "errors must be reported. all valitations failed"
    );

    assert!(val_1.is_err());
    assert!(val_2.is_err());

    let errors = validator.into_errors();
    has_errors(&errors, VALUE_1);
    has_errors(&errors, VALUE_2);
    assert_eq!(
        errors.len(),
        2,
        "two fields are invalid. no other errors must be reported"
    );
}

#[test]
fn parse_string_collects_errors_in_order() {
    let mut validator = CollectingValidator::new();
    let first = validator.parse_string::<TestValue2>(INVALID_VALUE);
    let second = validator.parse_string::<TestValue1>(INVALID_VALUE);
    let third = validator.parse_string::<TestValue1>(VALID_VALUE);
    assert!(first.is_err() && second.is_err() && third.is_ok());
    let errors = validator.into_errors();
    assert_eq!(errors.len(), 2);
    assert_eq!(errors[0].attribute(), VALUE_2);
    assert_eq!(errors[1].attribute(), VALUE_1);
}

#[test]
fn parse_name_records_the_name_error() {
    let mut validator = CollectingValidator::new();
    let part = validator.parse_name(NameSubject::Part, "  ");
    let project = validator.parse_name(NameSubject::Project, " Lamp ");
    assert!(part.is_err());
    assert_eq!(project.unwrap().as_str(), "Lamp");
    assert!(validator.has_errors());
    let errors = validator.into_errors();
    assert_eq!(errors.len(), 1);
    assert_eq!(errors[0].code(), "part.name.too-short");
}

#[test]
fn validation_error_keeps_its_fields() {
    let e = ValidationError::new("name", "part.name.too-long", "part name is too long");
    let copy = e.clone();
    assert_eq!(copy.attribute(), "name");
    assert_eq!(copy.code(), "part.name.too-long");
    assert_eq!(copy.message(), "part name is too long");
}

fn has_errors(errors: &[ValidationError], value: &str) {
    let error_count = errors.iter().filter(|e| e.attribute() == value).count();
    assert!(
        error_count > 0,
        "value {} should have reported errors but there are none",
        value
    );
}

fn has_no_errors(errors: &[ValidationError], value: &str) {
    let error_count = errors.iter().filter(|e| e.attribute() == value).count();
    assert!(
        error_count == 0,
        "value {} should be valid but {} errors are reported",
        value,
        error_count
    );
}

const VALID_VALUE: &'static str = "valid_value";
const INVALID_VALUE: &'static str = "invalid_value";
const VALUE_1: &'static str = "value_1";
const VALUE_2: &'static str = "value_2";

struct TestValue1;
struct TestValue2;

impl TryFrom<String> for TestValue1 {
    type Error = ValidationError;

    fn try_from(value: String) -> Result<Self, Self::Error> {
        if value.eq(VALID_VALUE) {
            Ok(Self)
        } else {
            Err(ValidationError::new(
                VALUE_1,
                "value_1.invalid",
                "Invalid value 1",
            ))
        }
    }
}

impl TryFrom<String> for TestValue2 {
    type Error = ValidationError;

    fn try_from(value: String) -> Result<Self, Self::Error> {
        if value.eq(VALID_VALUE) {
            Ok(Self)
        } else {
            Err(ValidationError::new(
                VALUE_2,
                "value_2.invalid",
                "Invalid value 2",
            ))
        }
    }
}
