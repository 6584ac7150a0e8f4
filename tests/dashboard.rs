use warp_tui::ui::{decimal_text, mode_token_at, Dashboard, Effect, Key, KeyPress, Tone, MODE_COUNT};
use warp_tui::{WarpError, WarpInfo, WarpMode, WarpStatus};

fn press(key: Key) -> KeyPress {
    KeyPress { key, ctrl: false }
}

fn info_with(status: WarpStatus, mode: Option<WarpMode>) -> WarpInfo {
    let mut info = WarpInfo::default();
    info.status = status;
    info.mode = mode;
    info
}

#[test]
fn new_dashboard_is_stopped_and_unknown() {
    let mut d = Dashboard::new();
    assert!(!d.is_running());
    assert_eq!(d.info().status, WarpStatus::Unknown);
    assert_eq!(d.refresh_interval_ms(), 1000);
    assert_eq!(d.mode_selection(), None);
    d.start();
    assert!(d.is_running());
}

#[test]
fn letters_ask_for_client_operations() {
    let mut d = Dashboard::new();
    d.start();
    for (c, effect) in [
        ('c', Effect::Connect),
        ('C', Effect::Connect),
        ('d', Effect::Disconnect),
        ('D', Effect::Disconnect),
        ('r', Effect::Refresh),
        ('R', Effect::Refresh),
        ('x', Effect::Nothing),
    ] {
        assert_eq!(d.on_key(press(Key::Char(c))), effect);
        assert!(d.is_running());
        assert_eq!(d.mode_selection(), None);
    }
}

#[test]
fn quit_keys_stop_the_dashboard() {
    for key in [
        KeyPress { key: Key::Char('q'), ctrl: false },
        KeyPress { key: Key::Char('Q'), ctrl: false },
        KeyPress { key: Key::Esc, ctrl: false },
        KeyPress { key: Key::Char('c'), ctrl: true },
    ] {
        let mut d = Dashboard::new();
        d.start();
        assert_eq!(d.on_key(key), Effect::Nothing);
        assert!(!d.is_running());
    }
}

#[test]
fn selector_opens_at_the_current_mode_and_wraps() {
    let mut d = Dashboard::new();
    d.start();
    d.apply_status(Ok(info_with(WarpStatus::Connected, Some(WarpMode::WarpDoH))));
    assert_eq!(d.on_key(press(Key::Char('m'))), Effect::Nothing);
    assert_eq!(d.mode_selection(), Some(2));
    d.on_key(press(Key::Down));
    assert_eq!(d.mode_selection(), Some(3));
    d.on_key(press(Key::Down));
    assert_eq!(d.mode_selection(), Some(0));
    d.on_key(press(Key::Up));
    assert_eq!(d.mode_selection(), Some(3));
    // Letters do nothing while the selector is open.
    assert_eq!(d.on_key(press(Key::Char('c'))), Effect::Nothing);
    assert_eq!(d.on_key(press(Key::Enter)), Effect::SetMode("warp+dot"));
    assert_eq!(d.mode_selection(), None);
    assert!(d.is_running());
}

#[test]
fn selector_opens_at_top_without_a_listed_mode_and_esc_closes_it() {
    let mut d = Dashboard::new();
    d.start();
    d.on_key(press(Key::Char('M')));
    assert_eq!(d.mode_selection(), Some(0));
    d.on_key(press(Key::Up));
    assert_eq!(d.mode_selection(), Some(MODE_COUNT - 1));
    assert_eq!(d.on_key(press(Key::Esc)), Effect::Nothing);
    assert_eq!(d.mode_selection(), None);
    assert!(d.is_running());

    d.apply_status(Ok(info_with(WarpStatus::Connected, Some(WarpMode::Unknown))));
    d.on_key(press(Key::Char('m')));
    assert_eq!(d.mode_selection(), Some(0));
}

#[test]
fn mode_tokens_in_order() {
    let tokens: Vec<&str> = (0..MODE_COUNT).map(mode_token_at).collect();
    assert_eq!(tokens, vec!["doh", "dot", "warp+doh", "warp+dot"]);
}

#[test]
fn failed_status_query_shows_unknown() {
    let mut d = Dashboard::new();
    d.apply_status(Ok(info_with(WarpStatus::Connected, Some(WarpMode::DoH))));
    assert_eq!(d.status_tone(), Tone::Green);
    d.apply_status(Err(WarpError::CommandNotFound));
    assert_eq!(d.info().status, WarpStatus::Unknown);
    assert_eq!(d.info().mode, None);
    assert_eq!(d.status_tone(), Tone::Gray);
}

#[test]
fn tones_follow_the_state() {
    let mut d = Dashboard::new();
    for (status, tone) in [
        (WarpStatus::Connected, Tone::Green),
        (WarpStatus::Disconnected, Tone::Red),
        (WarpStatus::Connecting, Tone::Yellow),
        (WarpStatus::Disconnecting, Tone::Yellow),
        (WarpStatus::Unknown, Tone::Gray),
    ] {
        d.apply_status(Ok(info_with(status, None)));
        assert_eq!(d.status_tone(), tone);
    }
}

#[test]
fn status_panel_text() {
    let mut d = Dashboard::new();
    let mut info = info_with(WarpStatus::Connected, Some(WarpMode::WarpDoH));
    info.account_type = Some("Free".to_string());
    info.warp_enabled = true;
    d.apply_status(Ok(info));
    let expected = "Status: Connected\n\
        Mode: Warp+DoH\n\
        Account Type: Free\n\
        WARP Enabled: Yes\n\
        Gateway Enabled: No\n\
        Auto-refresh: 1000ms\n\n\
        Controls:\n\
        - Press 'c' to connect\n\
        - Press 'd' to disconnect\n\
        - Press 'r' to refresh status\n\
        - Press 'm' to change mode\n\
        - Use Up/Down arrows to navigate mode selection\n\
        - Press 'Enter' to select mode\n\
        - Press 'Esc' to cancel mode selection\n\
        - Press 'Esc', 'Ctrl-C' or 'q' to quit";
    assert_eq!(d.status_text(), expected);
}

#[test]
fn decimal_digits() {
    assert_eq!(decimal_text(0), "0");
    assert_eq!(decimal_text(7), "7");
    assert_eq!(decimal_text(10), "10");
    assert_eq!(decimal_text(1000), "1000");
    assert_eq!(decimal_text(u64::MAX), u64::MAX.to_string());
}
