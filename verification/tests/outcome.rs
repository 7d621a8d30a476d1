use new_folder::outcome::{
    cancel_exit, creation_exit, creation_failure_message, interface_failure_exit,
    interface_failure_message, start_failure_exit, Exit, EXIT_FAILURE, EXIT_OK,
};
use new_folder::target::StartError;

#[test]
fn exit_codes() {
    assert_eq!(EXIT_OK, 0);
    assert_eq!(EXIT_FAILURE, 1);
}

#[test]
fn creation_failure_message_names_path_and_cause() {
    assert_eq!(
        creation_failure_message("/tmp/x/New Folder", "File exists (os error 17)"),
        "Failed to create '/tmp/x/New Folder': File exists (os error 17)"
    );
}

#[test]
fn creation_failure_message_of_empty_parts() {
    assert_eq!(creation_failure_message("", ""), "Failed to create '': ");
}

#[test]
fn interface_failure_message_has_two_lines() {
    assert_eq!(
        interface_failure_message("Failed to run", "Executing app failed"),
        "Failed to run\nExecuting app failed"
    );
}

#[test]
fn missing_home_ends_with_code_one() {
    assert_eq!(
        start_failure_exit(StartError::NoHomeDirectory),
        Exit { code: 1, message: Some("Failed to get home directory.".to_string()) }
    );
}

#[test]
fn cancel_ends_with_code_zero() {
    assert_eq!(cancel_exit(), Exit { code: 0, message: None });
}

#[test]
fn created_folder_ends_with_code_zero() {
    assert_eq!(creation_exit("/tmp/x/a", Ok(())), Exit { code: 0, message: None });
}

#[test]
fn failed_creation_ends_with_code_one_and_message() {
    let exit = creation_exit("/tmp/x/a", Err("Permission denied (os error 13)".to_string()));
    assert_eq!(exit.code, 1);
    assert_eq!(
        exit.message,
        Some("Failed to create '/tmp/x/a': Permission denied (os error 13)".to_string())
    );
}

#[test]
fn interface_failure_ends_with_code_one() {
    assert_eq!(
        interface_failure_exit("no display", "Setting window icon failed"),
        Exit { code: 1, message: Some("no display\nSetting window icon failed".to_string()) }
    );
}
