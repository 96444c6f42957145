use autoendpoint::validation::{
    errno_from_validation_errors, ValidationError, ValidationErrors, ValidationErrorsKind,
};

fn check(code: &str) -> ValidationError {
    ValidationError { code: code.to_string(), message: None }
}

fn failure(errors: Vec<(&str, ValidationErrorsKind)>) -> ValidationErrors {
    ValidationErrors {
        message: "validation failed".to_string(),
        errors: errors.into_iter().map(|(name, kind)| (name.to_string(), kind)).collect(),
    }
}

#[test]
fn no_failing_field_has_no_errno() {
    assert_eq!(errno_from_validation_errors(&failure(vec![])), None);
}

#[test]
fn field_code_that_reads_as_number_is_the_errno() {
    let e = failure(vec![("ttl", ValidationErrorsKind::Field(vec![check("114")]))]);
    assert_eq!(errno_from_validation_errors(&e), Some(114));
}

#[test]
fn codes_that_are_no_numbers_are_passed_over() {
    let e = failure(vec![(
        "ttl",
        ValidationErrorsKind::Field(vec![check("range"), check(""), check("-3"), check("111")]),
    )]);
    assert_eq!(errno_from_validation_errors(&e), Some(111));
    let none = failure(vec![(
        "ttl",
        ValidationErrorsKind::Field(vec![check("range"), check("length")]),
    )]);
    assert_eq!(errno_from_validation_errors(&none), None);
}

#[test]
fn first_number_in_the_walk_wins() {
    let e = failure(vec![
        ("a", ValidationErrorsKind::Field(vec![check("email")])),
        ("b", ValidationErrorsKind::Field(vec![check("110"), check("111")])),
        ("c", ValidationErrorsKind::Field(vec![check("112")])),
    ]);
    assert_eq!(errno_from_validation_errors(&e), Some(110));
}

#[test]
fn nested_value_is_walked_in_depth() {
    let inner = failure(vec![("crypto_key", ValidationErrorsKind::Field(vec![check("110")]))]);
    let e = failure(vec![
        ("topic", ValidationErrorsKind::Field(vec![check("regex")])),
        ("headers", ValidationErrorsKind::Struct(Box::new(inner))),
        ("ttl", ValidationErrorsKind::Field(vec![check("111")])),
    ]);
    assert_eq!(errno_from_validation_errors(&e), Some(110));
}

#[test]
fn nested_value_without_numbers_lets_the_walk_go_on() {
    let inner = failure(vec![("crypto_key", ValidationErrorsKind::Field(vec![check("bad")]))]);
    let e = failure(vec![
        ("headers", ValidationErrorsKind::Struct(Box::new(inner))),
        ("ttl", ValidationErrorsKind::Field(vec![check("111")])),
    ]);
    assert_eq!(errno_from_validation_errors(&e), Some(111));
}

#[test]
fn list_items_are_walked_in_order() {
    let first = failure(vec![("x", ValidationErrorsKind::Field(vec![check("nope")]))]);
    let second = failure(vec![("x", ValidationErrorsKind::Field(vec![check("205")]))]);
    let third = failure(vec![("x", ValidationErrorsKind::Field(vec![check("206")]))]);
    let e = failure(vec![(
        "items",
        ValidationErrorsKind::List(vec![(0, first), (3, second), (7, third)]),
    )]);
    assert_eq!(errno_from_validation_errors(&e), Some(205));
}

#[test]
fn empty_list_and_empty_field_have_no_errno() {
    let e = failure(vec![
        ("items", ValidationErrorsKind::List(vec![])),
        ("field", ValidationErrorsKind::Field(vec![])),
    ]);
    assert_eq!(errno_from_validation_errors(&e), None);
}

#[test]
fn code_too_large_for_a_word_is_no_errno() {
    let e = failure(vec![(
        "ttl",
        ValidationErrorsKind::Field(vec![check("340282366920938463463374607431768211456")]),
    )]);
    assert_eq!(errno_from_validation_errors(&e), None);
}
