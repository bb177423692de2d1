use cp_config::error_kind::{is_error_kind_clients_fault, GIT_ERROR, NOT_FOUND};

#[test]
fn not_found_is_the_clients_fault() {
    assert!(is_error_kind_clients_fault(NOT_FOUND));
    assert!(is_error_kind_clients_fault("not_found"));
}

#[test]
fn other_kinds_are_not_the_clients_fault() {
    assert!(!is_error_kind_clients_fault(GIT_ERROR));
    assert!(!is_error_kind_clients_fault(""));
    assert!(!is_error_kind_clients_fault("not_found "));
    assert!(!is_error_kind_clients_fault("NOT_FOUND"));
}
