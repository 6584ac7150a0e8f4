use warp_tui::{WarpClient, WarpMode, WarpStatus};

#[test]
fn warp_test_test_client_creation() {
    let client = WarpClient::new();
    assert_eq!(client.timeout_secs(), 30);

    let client_with_timeout = WarpClient::with_timeout(60);
    assert_eq!(client_with_timeout.timeout_secs(), 60);
}

#[test]
fn warp_test_test_status_parsing() {
    let client = WarpClient::new();

    // Connected, in the current format; the mode comes from the settings.
    let output = "Status update: Connected\nMode: Warp+DoH\nAccount type: Free";
    let info = client.parse_status_output(output, WarpMode::WarpDoH);
    assert_eq!(info.status, WarpStatus::Connected);
    assert_eq!(info.mode, Some(WarpMode::WarpDoH));
    assert_eq!(info.account_type, Some("Free".to_string()));

    let output = "Status update: Disconnected\nReason: Settings Changed";
    let info = client.parse_status_output(output, WarpMode::WarpDoH);
    assert_eq!(info.status, WarpStatus::Disconnected);

    let output = "Status update: Connecting\nReason: Checking for a route to the DNS endpoint";
    let info = client.parse_status_output(output, WarpMode::WarpDoH);
    assert_eq!(info.status, WarpStatus::Connecting);

    // The older format.
    let output = "Status: Connected\nMode: Warp+DoH";
    let info = client.parse_status_output(output, WarpMode::WarpDoH);
    assert_eq!(info.status, WarpStatus::Connected);
}

#[test]
fn warp_test_test_status_line_parsing() {
    let client = WarpClient::new();

    assert_eq!(
        client.parse_status_line("Status update: Connected"),
        WarpStatus::Connected
    );
    assert_eq!(
        client.parse_status_line("Status update: Disconnected"),
        WarpStatus::Disconnected
    );
    assert_eq!(
        client.parse_status_line("Status update: Connecting"),
        WarpStatus::Connecting
    );
    assert_eq!(
        client.parse_status_line("Status update: Disconnecting"),
        WarpStatus::Disconnecting
    );

    assert_eq!(
        client.parse_status_line("status update: connected"),
        WarpStatus::Connected
    );
    assert_eq!(
        client.parse_status_line("STATUS UPDATE: DISCONNECTED"),
        WarpStatus::Disconnected
    );

    assert_eq!(
        client.parse_status_line("Status: Connected"),
        WarpStatus::Connected
    );
    assert_eq!(
        client.parse_status_line("Status: Disconnected"),
        WarpStatus::Disconnected
    );

    assert_eq!(
        client.parse_status_line("Status update: Unknown"),
        WarpStatus::Unknown
    );
    assert_eq!(
        client.parse_status_line("Some other text"),
        WarpStatus::Unknown
    );
}
