use warp_tui::{CommandOutcome, WarpClient, WarpCommand, WarpError, WarpMode};

fn failed(stderr: &str) -> CommandOutcome {
    CommandOutcome::Exited {
        success: false,
        stdout: String::new(),
        stderr: stderr.to_string(),
    }
}

#[test]
fn successful_output_is_trimmed() {
    let client = WarpClient::new();
    let outcome = CommandOutcome::Exited {
        success: true,
        stdout: "  Status update: Connected\n\n".to_string(),
        stderr: "ignored".to_string(),
    };
    assert_eq!(
        client.command_output(outcome),
        Ok("Status update: Connected".to_string())
    );
}

#[test]
fn each_outcome_maps_to_its_error() {
    let client = WarpClient::new();
    assert_eq!(
        client.command_output(CommandOutcome::NotFound),
        Err(WarpError::CommandNotFound)
    );
    assert_eq!(
        client.command_output(CommandOutcome::SpawnFailed("permission denied".to_string())),
        Err(WarpError::IoError("permission denied".to_string()))
    );
    assert_eq!(
        client.command_output(CommandOutcome::TimedOut("deadline has elapsed".to_string())),
        Err(WarpError::Timeout("deadline has elapsed".to_string()))
    );
    assert_eq!(
        client.command_output(failed("Error: daemon not running")),
        Err(WarpError::CommandFailed("Error: daemon not running".to_string()))
    );
}

#[test]
fn availability_needs_a_successful_run() {
    let client = WarpClient::new();
    let ok = CommandOutcome::Exited {
        success: true,
        stdout: "warp-cli 2024.1".to_string(),
        stderr: String::new(),
    };
    assert!(client.availability(&ok));
    assert!(!client.availability(&failed("no")));
    assert!(!client.availability(&CommandOutcome::NotFound));
    assert!(!client.availability(&CommandOutcome::SpawnFailed("x".to_string())));
}

#[test]
fn connect_treats_existing_connection_as_success() {
    let client = WarpClient::new();
    let out = client.command_output(failed("Error: already connected to the network"));
    assert_eq!(client.connect_result(out), Ok(()));

    let out = client.command_output(failed("Error: registration missing"));
    assert_eq!(
        client.connect_result(out),
        Err(WarpError::ConnectionFailed("Error: registration missing".to_string()))
    );

    assert_eq!(client.connect_result(Ok("Success".to_string())), Ok(()));
    assert_eq!(
        client.connect_result(Err(WarpError::Timeout("t".to_string()))),
        Err(WarpError::Timeout("t".to_string()))
    );
    // The phrase must match exactly, letter case included.
    let out = client.command_output(failed("Already Connected"));
    assert_eq!(
        client.connect_result(out),
        Err(WarpError::ConnectionFailed("Already Connected".to_string()))
    );
}

#[test]
fn disconnect_treats_existing_disconnection_as_success() {
    let client = WarpClient::new();
    let out = client.command_output(failed("already disconnected"));
    assert_eq!(client.disconnect_result(out), Ok(()));

    let out = client.command_output(failed("already connected"));
    assert_eq!(
        client.disconnect_result(out),
        Err(WarpError::DisconnectionFailed("already connected".to_string()))
    );
    assert_eq!(
        client.disconnect_result(Err(WarpError::IoError("x".to_string()))),
        Err(WarpError::IoError("x".to_string()))
    );
}

#[test]
fn missing_binary_fails_every_operation_with_command_not_found() {
    let client = WarpClient::new();
    let out = client.command_output(CommandOutcome::NotFound);
    assert_eq!(out, Err(WarpError::CommandNotFound));
    assert_eq!(
        client.connect_result(client.command_output(CommandOutcome::NotFound)),
        Err(WarpError::CommandNotFound)
    );
    assert_eq!(
        client.disconnect_result(client.command_output(CommandOutcome::NotFound)),
        Err(WarpError::CommandNotFound)
    );
    let mut dashboard = warp_tui::ui::Dashboard::new();
    dashboard.apply_status(Err(WarpError::CommandNotFound));
    assert_eq!(dashboard.info().status, warp_tui::WarpStatus::Unknown);
    assert_eq!(dashboard.info().mode, None);
    assert!(dashboard.status_text().starts_with("Status: Unknown\nMode: N/A\nAccount Type: N/A\n"));
}

#[test]
fn settings_json_gives_the_operation_mode() {
    let client = WarpClient::new();
    let json = r#"{"settings":{"operation_mode":"warp+doh"}}"#;
    let value: serde_json::Value = serde_json::from_str(json).unwrap();
    let token = value["settings"]["operation_mode"].as_str().unwrap().to_string();
    assert_eq!(client.operation_mode_from(Ok(token)), Ok(WarpMode::WarpDoH));

    let json = r#"{"settings":{"operation_mode":"tunnel_only"}}"#;
    let value: serde_json::Value = serde_json::from_str(json).unwrap();
    let token = value["settings"]["operation_mode"].as_str().unwrap().to_string();
    assert_eq!(client.operation_mode_from(Ok(token)), Ok(WarpMode::Unknown));

    assert_eq!(
        client.operation_mode_from(Err("expected value at line 1 column 1".to_string())),
        Err(WarpError::ParseError("expected value at line 1 column 1".to_string()))
    );
}

#[test]
fn invocations_have_fixed_arguments() {
    assert_eq!(WarpCommand::Version.args(), vec!["--version"]);
    assert_eq!(WarpCommand::Status.args(), vec!["status"]);
    assert_eq!(WarpCommand::JsonSettings.args(), vec!["--json", "settings"]);
    assert_eq!(WarpCommand::Settings.args(), vec!["settings"]);
    assert_eq!(WarpCommand::Mode("dot".to_string()).args(), vec!["mode", "dot"]);
    assert_eq!(
        WarpCommand::SetMode("warp+dot".to_string()).args(),
        vec!["set-mode", "warp+dot"]
    );
    assert_eq!(WarpCommand::Connect.args(), vec!["connect"]);
    assert_eq!(WarpCommand::Disconnect.args(), vec!["disconnect"]);
    assert_eq!(WarpCommand::RegistrationNew.args(), vec!["registration", "new"]);
    assert_eq!(
        WarpCommand::RegistrationDelete.args(),
        vec!["registration", "delete"]
    );
}

#[test]
fn error_messages() {
    assert_eq!(
        WarpError::CommandFailed("boom".to_string()).message(),
        "Command execution failed: boom"
    );
    assert_eq!(
        WarpError::CommandNotFound.message(),
        "Command not found: warp-cli is not installed or not in PATH"
    );
    assert_eq!(
        WarpError::ParseError("p".to_string()).message(),
        "Failed to parse command output: p"
    );
    assert_eq!(WarpError::Timeout("t".to_string()).message(), "Command timed out: t");
    assert_eq!(WarpError::IoError("i".to_string()).message(), "IO error: i");
    assert_eq!(WarpError::JsonError("j".to_string()).message(), "JSON parsing error: j");
    assert_eq!(WarpError::RegistrationExists.message(), "Registration already exists");
    assert_eq!(WarpError::NoRegistration.message(), "No registration found");
    assert_eq!(
        WarpError::ConnectionFailed("c".to_string()).message(),
        "Connection failed: c"
    );
    assert_eq!(
        WarpError::DisconnectionFailed("d".to_string()).message(),
        "Disconnection failed: d"
    );
}

#[test]
fn availability_check_gives_command_not_found() {
    let client = WarpClient::new();
    let ok = CommandOutcome::Exited {
        success: true,
        stdout: "warp-cli 2024.1".to_string(),
        stderr: String::new(),
    };
    assert_eq!(client.require_available(&ok), Ok(()));
    assert_eq!(
        client.require_available(&CommandOutcome::NotFound),
        Err(WarpError::CommandNotFound)
    );
    assert_eq!(
        client.require_available(&failed("broken install")),
        Err(WarpError::CommandNotFound)
    );
}

#[test]
fn status_composes_output_and_mode() {
    let client = WarpClient::new();
    let info = client
        .status_from(
            Ok("Status update: Connected\nAccount type: Free".to_string()),
            Ok(WarpMode::WarpDoT),
        )
        .unwrap();
    assert_eq!(info.status, warp_tui::WarpStatus::Connected);
    assert_eq!(info.mode, Some(WarpMode::WarpDoT));
    assert_eq!(info.account_type, Some("Free".to_string()));

    // The status query's error comes first.
    assert_eq!(
        client
            .status_from(
                Err(WarpError::CommandNotFound),
                Err(WarpError::ParseError("p".to_string()))
            )
            .unwrap_err(),
        WarpError::CommandNotFound
    );
    assert_eq!(
        client
            .status_from(
                Ok("Status update: Connected".to_string()),
                Err(WarpError::ParseError("p".to_string()))
            )
            .unwrap_err(),
        WarpError::ParseError("p".to_string())
    );
}
