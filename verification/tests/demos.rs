use error_handling::propagate_error;
use error_handling::result_return;
use error_handling::to_panic_or_not_to_panic;
use error_handling::unrecoverable_errors_with_panic;

#[test]
fn failure_requested_carries_oopsie() {
    assert_eq!(result_return(true), Err(String::from("oopsie")));
}

#[test]
fn success_requested_carries_123() {
    assert_eq!(result_return(false), Ok(123));
}

#[test]
fn placeholder_repeats_without_effect() {
    to_panic_or_not_to_panic();
    to_panic_or_not_to_panic();
    to_panic_or_not_to_panic();
}

#[test]
fn in_bounds_access_yields_each_element() {
    assert_eq!(unrecoverable_errors_with_panic(0), 'a');
    assert_eq!(unrecoverable_errors_with_panic(1), 'b');
    assert_eq!(unrecoverable_errors_with_panic(2), 'c');
}

#[test]
fn success_outcome_yields_hello() {
    let outcome: Result<(), String> = Ok(());
    assert_eq!(propagate_error(outcome), Ok(String::from("hello")));
}

#[test]
fn failure_outcome_is_propagated_unchanged() {
    let outcome: Result<(), String> = Err(String::from("gone"));
    assert_eq!(propagate_error(outcome), Err(String::from("gone")));
}
