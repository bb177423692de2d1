use cp_config::error::{prefixed, ConfigError, Error};
use cp_config::error_kind::{
    CHANNEL_COMMUNICATION_FAILURE, COMMAND_READ_FAILURE, CONFIG_BUILD_FAILURE,
    FAILED_TO_DELETE_FILE, FAILED_TO_READ, FILE_NOT_FOUND, GIT_ERROR, NOT_FOUND,
    PATH_CONVERSION_ERROR, UNEXPECTED_RESPONSE_TYPE,
};

#[test]
fn the_kinds_are_stable_strings() {
    assert_eq!("git_error", GIT_ERROR);
    assert_eq!("path_conversion_error", PATH_CONVERSION_ERROR);
    assert_eq!("config_build_failure", CONFIG_BUILD_FAILURE);
    assert_eq!("command_read_failure", COMMAND_READ_FAILURE);
    assert_eq!("file_not_found", FILE_NOT_FOUND);
    assert_eq!("failed_to_read", FAILED_TO_READ);
    assert_eq!("failed_to_delete_file", FAILED_TO_DELETE_FILE);
    assert_eq!("channel_communication_failure", CHANNEL_COMMUNICATION_FAILURE);
    assert_eq!("unexpected_response_type", UNEXPECTED_RESPONSE_TYPE);
    assert_eq!("not_found", NOT_FOUND);
}

#[test]
fn an_error_keeps_kind_and_message() {
    let error = Error::new("git_error".to_string(), "authentication required".to_string());

    assert_eq!("git_error", error.error_kind());
    assert_eq!("authentication required", error.message());
}

#[test]
fn an_error_is_shown_as_kind_and_message() {
    let error = Error::new("git_error".to_string(), "authentication required".to_string());

    assert_eq!("git_error: authentication required", error.to_string());
    assert_eq!(": ", Error::new(String::new(), String::new()).to_string());
}

#[test]
fn a_copy_of_an_error_is_the_same_error() {
    let error = Error::new("not_found".to_string(), "component 'web' does not exist".to_string());

    assert_eq!(error, error.clone());
    assert_ne!(error, Error::new("not_found".to_string(), String::new()));
}

#[test]
fn a_git_failure_is_a_git_error() {
    let error: Error = ConfigError::from_git("reference 'refs/heads/x' not found").into();

    assert_eq!(GIT_ERROR, error.error_kind());
    assert_eq!("reference 'refs/heads/x' not found", error.message());
}

#[test]
fn a_failure_of_the_system_keeps_its_own_kind() {
    let error = Error::from(ConfigError::from_io("entity not found", "No such file or directory"));

    assert_eq!("entity not found", error.error_kind());
    assert_eq!("No such file or directory", error.message());
}

#[test]
fn a_closed_reply_channel_is_a_failure_to_receive() {
    let error = ConfigError::from_receive("channel closed").0;

    assert_eq!(CHANNEL_COMMUNICATION_FAILURE, error.error_kind());
    assert_eq!("failed to receive value: channel closed", error.message());
}

#[test]
fn a_closed_request_channel_is_a_failure_to_send() {
    let error = ConfigError::from_send("sending into a closed channel").0;

    assert_eq!(CHANNEL_COMMUNICATION_FAILURE, error.error_kind());
    assert_eq!("failed to send request: sending into a closed channel", error.message());
}

#[test]
fn a_lead_is_put_before_its_cause() {
    assert_eq!("failed: why", prefixed("failed: ", "why"));
    assert_eq!("why", prefixed("", "why"));
    assert_eq!("failed: ", prefixed("failed: ", ""));
}
