//! The dashboard's state and decisions: key handling, the mode selector and
//! the text of the status panel. Whoever draws the dashboard performs each
//! [`Effect`] that a key press asks for and hands back the fresh status.

use vstd::prelude::*;
use crate::error::WarpResult;
use crate::types::{mode_label, status_label, unknown_info, WarpInfo, WarpInfoView, WarpMode, WarpStatus};

verus! {

/// How many modes the selector lists.
pub const MODE_COUNT: usize = 4;

/// The refresh interval of a new dashboard, in milliseconds.
pub const DEFAULT_REFRESH_MS: u64 = 1000;

/// The tokens of the modes that the selector lists, in order.
pub open spec fn mode_tokens() -> Seq<Seq<char>> {
    seq!["doh"@, "dot"@, "warp+doh"@, "warp+dot"@]
}

/// Where a mode stands in the selector's list; `Unknown` is not listed.
pub open spec fn mode_position(m: WarpMode) -> Option<nat> {
    match m {
        WarpMode::DoH => Some(0),
        WarpMode::DoT => Some(1),
        WarpMode::WarpDoH => Some(2),
        WarpMode::WarpDoT => Some(3),
        WarpMode::Unknown => None,
    }
}

/// Where the selector opens: at the current mode where it is listed, else at the top.
pub open spec fn initial_selection(mode: Option<WarpMode>) -> nat {
    match mode {
        Some(m) => match mode_position(m) {
            Some(i) => i,
            None => 0,
        },
        None => 0,
    }
}

/// The entry above `i`, wrapping to the bottom.
pub open spec fn previous_entry(i: nat) -> nat {
    if i == 0 {
        (MODE_COUNT - 1) as nat
    } else {
        (i - 1) as nat
    }
}

/// The entry below `i`, wrapping to the top.
pub open spec fn next_entry(i: nat) -> nat {
    if i >= MODE_COUNT - 1 {
        0
    } else {
        i + 1
    }
}

/// The token of the `i`-th listed mode.
pub fn mode_token_at(i: usize) -> (r: &'static str)
    requires
        i < MODE_COUNT,
    ensures
        r@ == mode_tokens()[i as int],
{
    if i == 0 {
        "doh"
    } else if i == 1 {
        "dot"
    } else if i == 2 {
        "warp+doh"
    } else {
        "warp+dot"
    }
}

/// A key as the dashboard sees it.
#[derive(Debug, Clone, Copy, PartialEq, Eq, Structural)]
pub enum Key {
    Char(char),
    Esc,
    Up,
    Down,
    Enter,
    Other,
}

/// A key press; `ctrl` holds where Control is the only modifier.
#[derive(Debug, Clone, Copy, PartialEq, Eq, Structural)]
pub struct KeyPress {
    pub key: Key,
    pub ctrl: bool,
}

/// What a key press asks the client to do.
#[derive(Debug, Clone, Copy, PartialEq, Eq)]
pub enum Effect {
    Nothing,
    Connect,
    Disconnect,
    Refresh,
    /// Select the mode with this token, then refresh where that succeeded.
    SetMode(&'static str),
}

/// The colour in which the status panel is drawn.
#[derive(Debug, Clone, Copy, PartialEq, Eq, Structural)]
pub enum Tone {
    Green,
    Red,
    Yellow,
    Gray,
}

/// The colour that goes with a connection state.
pub open spec fn tone_of(s: WarpStatus) -> Tone {
    match s {
        WarpStatus::Connected => Tone::Green,
        WarpStatus::Disconnected => Tone::Red,
        WarpStatus::Connecting => Tone::Yellow,
        WarpStatus::Disconnecting => Tone::Yellow,
        WarpStatus::Unknown => Tone::Gray,
    }
}

/// The decimal digits of `n`.
pub open spec fn decimal(n: nat) -> Seq<char>
    decreases n,
{
    if n < 10 {
        "0123456789"@.subrange(n as int, n as int + 1)
    } else {
        decimal(n / 10) + "0123456789"@.subrange((n % 10) as int, (n % 10) as int + 1)
    }
}

/// `Yes` or `No`.
pub open spec fn yes_no(b: bool) -> Seq<char> {
    if b {
        "Yes"@
    } else {
        "No"@
    }
}

/// The line of the status panel that shows the mode.
pub open spec fn mode_line(m: Option<WarpMode>) -> Seq<char> {
    match m {
        Some(m) => "Mode: "@ + mode_label(m),
        None => "Mode: N/A"@,
    }
}

/// The key help at the foot of the status panel.
pub open spec fn controls_text() -> Seq<char> {
    "Controls:\n- Press 'c' to connect\n- Press 'd' to disconnect\n- Press 'r' to refresh status\n- Press 'm' to change mode\n- Use Up/Down arrows to navigate mode selection\n- Press 'Enter' to select mode\n- Press 'Esc' to cancel mode selection\n- Press 'Esc', 'Ctrl-C' or 'q' to quit"@
}

/// The text of the status panel.
pub open spec fn panel_text(info: WarpInfoView, refresh_ms: u64) -> Seq<char> {
    "Status: "@ + status_label(info.status) + "\n"@ + mode_line(info.mode) + "\nAccount Type: "@
        + (match info.account_type {
        Some(a) => a,
        None => "N/A"@,
    }) + "\nWARP Enabled: "@ + yes_no(info.warp_enabled) + "\nGateway Enabled: "@ + yes_no(
        info.gateway_enabled,
    ) + "\nAuto-refresh: "@ + decimal(refresh_ms as nat) + "ms\n\n"@ + controls_text()
}

/// The decimal digits of `n`, as a string.
pub fn decimal_text(n: u64) -> (r: String)
    ensures
        r@ == decimal(n as nat),
    decreases n,
{
    proof {
        reveal_strlit("0123456789");
    }
    if n < 10 {
        String::from_str("0123456789".substring_char(n as usize, n as usize + 1))
    } else {
        let d = (n % 10) as usize;
        decimal_text(n / 10).concat("0123456789".substring_char(d, d + 1))
    }
}

/// The content of a [`Dashboard`].
pub struct DashboardView {
    pub running: bool,
    pub info: WarpInfoView,
    pub refresh_interval_ms: u64,
    /// The highlighted entry of the mode selector, where it is open.
    pub selection: Option<nat>,
}

/// What a key press does to a dashboard in state `s`: the new state `t`
/// and the effect `e`. Control-C quits. While the mode selector is open,
/// Esc closes it, the arrows move its highlight with wrap-around, and Enter
/// closes it and selects the highlighted mode. Otherwise Esc and `q` quit,
/// `c`, `d` and `r` connect, disconnect and refresh, and `m` opens the
/// selector at the current mode. Letters count in either case; any other
/// key changes nothing.
pub open spec fn key_matches(s: DashboardView, press: KeyPress, t: DashboardView, e: Effect) -> bool {
    let quit = DashboardView { running: false, ..s };
    let same = t == s && e == Effect::Nothing;
    if press.ctrl && (press.key == Key::Char('c') || press.key == Key::Char('C')) {
        t == quit && e == Effect::Nothing
    } else if s.selection is Some {
        let i = s.selection->0;
        match press.key {
            Key::Esc => t == DashboardView { selection: None, ..s } && e == Effect::Nothing,
            Key::Up => t == DashboardView { selection: Some(previous_entry(i)), ..s } && e
                == Effect::Nothing,
            Key::Down => t == DashboardView { selection: Some(next_entry(i)), ..s } && e
                == Effect::Nothing,
            Key::Enter => {
                &&& t == (DashboardView { selection: None, ..s })
                &&& e matches Effect::SetMode(m)
                &&& m@ == mode_tokens()[i as int]
            },
            _ => same,
        }
    } else {
        match press.key {
            Key::Esc => t == quit && e == Effect::Nothing,
            Key::Char(c) => if c == 'q' || c == 'Q' {
                t == quit && e == Effect::Nothing
            } else if c == 'c' || c == 'C' {
                t == s && e == Effect::Connect
            } else if c == 'd' || c == 'D' {
                t == s && e == Effect::Disconnect
            } else if c == 'r' || c == 'R' {
                t == s && e == Effect::Refresh
            } else if c == 'm' || c == 'M' {
                t == DashboardView { selection: Some(initial_selection(s.info.mode)), ..s } && e
                    == Effect::Nothing
            } else {
                same
            },
            _ => same,
        }
    }
}

/// The dashboard: whether it runs, the last status snapshot, the refresh
/// interval and the mode selector.
#[derive(Debug)]
pub struct Dashboard {
    running: bool,
    info: WarpInfo,
    refresh_interval_ms: u64,
    mode_selection: Option<usize>,
}

impl View for Dashboard {
    type V = DashboardView;

    closed spec fn view(&self) -> DashboardView {
        DashboardView {
            running: self.running,
            info: self.info@,
            refresh_interval_ms: self.refresh_interval_ms,
            selection: match self.mode_selection {
                Some(i) => Some(i as nat),
                None => None,
            },
        }
    }
}

impl Dashboard {
    #[verifier::type_invariant]
    spec fn selection_listed(&self) -> bool {
        self.mode_selection matches Some(i) ==> i < MODE_COUNT
    }

    /// A stopped dashboard with nothing known and the selector closed.
    pub fn new() -> (r: Dashboard)
        ensures
            r@ == (DashboardView {
                running: false,
                info: unknown_info(),
                refresh_interval_ms: DEFAULT_REFRESH_MS,
                selection: None,
            }),
    {
        Dashboard {
            running: false,
            info: WarpInfo::default(),
            refresh_interval_ms: DEFAULT_REFRESH_MS,
            mode_selection: None,
        }
    }

    /// Whether the dashboard runs.
    pub fn is_running(&self) -> (r: bool)
        ensures
            r == self@.running,
    {
        self.running
    }

    /// The last status snapshot.
    pub fn info(&self) -> (r: &WarpInfo)
        ensures
            r@ == self@.info,
    {
        &self.info
    }

    /// The refresh interval, in milliseconds.
    pub fn refresh_interval_ms(&self) -> (r: u64)
        ensures
            r == self@.refresh_interval_ms,
    {
        self.refresh_interval_ms
    }

    /// The highlighted entry of the mode selector, where it is open.
    pub fn mode_selection(&self) -> (r: Option<usize>)
        ensures
            r matches Some(i) ==> self@.selection == Some(i as nat) && i < MODE_COUNT,
            r is None ==> self@.selection is None,
    {
        proof {
            use_type_invariant(self);
        }
        self.mode_selection
    }

    /// Marks the dashboard as running.
    pub fn start(&mut self)
        ensures
            final(self)@ == (DashboardView { running: true, ..old(self)@ }),
    {
        proof {
            use_type_invariant(&*self);
        }
        self.running = true;
    }

    /// Replaces the snapshot with a fresh query's: its result, or the
    /// unknown snapshot where the query failed.
    pub fn apply_status(&mut self, res: WarpResult<WarpInfo>)
        ensures
            res matches Ok(info) ==> final(self)@ == (DashboardView { info: info@, ..old(self)@ }),
            res is Err ==> final(self)@ == (DashboardView { info: unknown_info(), ..old(self)@ }),
    {
        proof {
            use_type_invariant(&*self);
        }
        match res {
            Ok(info) => {
                self.info = info;
            },
            Err(_) => {
                self.info = WarpInfo::default();
            },
        }
    }

    /// Handles a key press and returns what it asks the client to do.
    pub fn on_key(&mut self, press: KeyPress) -> (e: Effect)
        ensures
            key_matches(old(self)@, press, final(self)@, e),
    {
        proof {
            use_type_invariant(&*self);
        }
        if press.ctrl && (press.key == Key::Char('c') || press.key == Key::Char('C')) {
            self.running = false;
            return Effect::Nothing;
        }
        match self.mode_selection {
            Some(i) => {
                match press.key {
                    Key::Esc => {
                        self.mode_selection = None;
                        Effect::Nothing
                    },
                    Key::Up => {
                        let j = if i == 0 {
                            MODE_COUNT - 1
                        } else {
                            i - 1
                        };
                        self.mode_selection = Some(j);
                        Effect::Nothing
                    },
                    Key::Down => {
                        let j = if i >= MODE_COUNT - 1 {
                            0
                        } else {
                            i + 1
                        };
                        self.mode_selection = Some(j);
                        Effect::Nothing
                    },
                    Key::Enter => {
                        self.mode_selection = None;
                        Effect::SetMode(mode_token_at(i))
                    },
                    _ => Effect::Nothing,
                }
            },
            None => {
                match press.key {
                    Key::Esc => {
                        self.running = false;
                        Effect::Nothing
                    },
                    Key::Char(c) => {
                        if c == 'q' || c == 'Q' {
                            self.running = false;
                            Effect::Nothing
                        } else if c == 'c' || c == 'C' {
                            Effect::Connect
                        } else if c == 'd' || c == 'D' {
                            Effect::Disconnect
                        } else if c == 'r' || c == 'R' {
                            Effect::Refresh
                        } else if c == 'm' || c == 'M' {
                            let start: usize = match self.info.mode {
                                Some(WarpMode::DoH) => 0,
                                Some(WarpMode::DoT) => 1,
                                Some(WarpMode::WarpDoH) => 2,
                                Some(WarpMode::WarpDoT) => 3,
                                _ => 0,
                            };
                            self.mode_selection = Some(start);
                            Effect::Nothing
                        } else {
                            Effect::Nothing
                        }
                    },
                    _ => Effect::Nothing,
                }
            },
        }
    }

    /// The colour of the status panel.
    pub fn status_tone(&self) -> (r: Tone)
        ensures
            r == tone_of(self@.info.status),
    {
        match self.info.status {
            WarpStatus::Connected => Tone::Green,
            WarpStatus::Disconnected => Tone::Red,
            WarpStatus::Connecting => Tone::Yellow,
            WarpStatus::Disconnecting => Tone::Yellow,
            WarpStatus::Unknown => Tone::Gray,
        }
    }

    /// The text of the status panel.
    pub fn status_text(&self) -> (r: String)
        ensures
            r@ == panel_text(self@.info, self@.refresh_interval_ms),
    {
        let mut t = String::from_str("Status: ");
        t.append(self.info.status.name());
        t.append("\n");
        match self.info.mode {
            Some(m) => {
                t.append("Mode: ");
                t.append(m.name());
            },
            None => {
                t.append("Mode: N/A");
            },
        }
        t.append("\nAccount Type: ");
        match &self.info.account_type {
            Some(a) => {
                t.append(a.as_str());
            },
            None => {
                t.append("N/A");
            },
        }
        t.append("\nWARP Enabled: ");
        t.append(if self.info.warp_enabled { "Yes" } else { "No" });
        t.append("\nGateway Enabled: ");
        t.append(if self.info.gateway_enabled { "Yes" } else { "No" });
        t.append("\nAuto-refresh: ");
        t.append(decimal_text(self.refresh_interval_ms).as_str());
        t.append("ms\n\n");
        t.append("Controls:\n- Press 'c' to connect\n- Press 'd' to disconnect\n- Press 'r' to refresh status\n- Press 'm' to change mode\n- Use Up/Down arrows to navigate mode selection\n- Press 'Enter' to select mode\n- Press 'Esc' to cancel mode selection\n- Press 'Esc', 'Ctrl-C' or 'q' to quit");
        t
    }
}

} // verus!
