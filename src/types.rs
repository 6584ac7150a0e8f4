//! The status records that the client builds from `warp-cli` output.

use vstd::prelude::*;
use crate::text::{chars_of, range_equals};

verus! {

/// The connection state that the client reports.
#[derive(Debug, Clone, Copy, PartialEq, Eq, Structural)]
pub enum WarpStatus {
    Connected,
    Disconnected,
    Connecting,
    Disconnecting,
    Unknown,
}

/// The DNS resolution mode in the client's settings.
#[derive(Debug, Clone, Copy, PartialEq, Eq, Structural)]
pub enum WarpMode {
    /// DNS over HTTPS.
    DoH,
    /// DNS over TLS.
    DoT,
    /// The tunnel with DNS over HTTPS.
    WarpDoH,
    /// The tunnel with DNS over TLS.
    WarpDoT,
    Unknown,
}

/// How a connection state is shown.
pub open spec fn status_label(s: WarpStatus) -> Seq<char> {
    match s {
        WarpStatus::Connected => "Connected"@,
        WarpStatus::Disconnected => "Disconnected"@,
        WarpStatus::Connecting => "Connecting"@,
        WarpStatus::Disconnecting => "Disconnecting"@,
        WarpStatus::Unknown => "Unknown"@,
    }
}

/// How a mode is shown.
pub open spec fn mode_label(m: WarpMode) -> Seq<char> {
    match m {
        WarpMode::DoH => "DoH"@,
        WarpMode::DoT => "DoT"@,
        WarpMode::WarpDoH => "Warp+DoH"@,
        WarpMode::WarpDoT => "Warp+DoT"@,
        WarpMode::Unknown => "Unknown"@,
    }
}

/// The mode that a settings token names; any other token is `Unknown`.
pub open spec fn mode_of_token(t: Seq<char>) -> WarpMode {
    if t == "warp+dot"@ {
        WarpMode::WarpDoT
    } else if t == "dot"@ {
        WarpMode::DoT
    } else if t == "doh"@ {
        WarpMode::DoH
    } else if t == "warp+doh"@ {
        WarpMode::WarpDoH
    } else {
        WarpMode::Unknown
    }
}

impl WarpStatus {
    /// The display name of the state.
    pub fn name(&self) -> (r: &'static str)
        ensures
            r@ == status_label(*self),
    {
        match self {
            WarpStatus::Connected => "Connected",
            WarpStatus::Disconnected => "Disconnected",
            WarpStatus::Connecting => "Connecting",
            WarpStatus::Disconnecting => "Disconnecting",
            WarpStatus::Unknown => "Unknown",
        }
    }
}

impl WarpMode {
    /// The display name of the mode.
    pub fn name(&self) -> (r: &'static str)
        ensures
            r@ == mode_label(*self),
    {
        match self {
            WarpMode::DoH => "DoH",
            WarpMode::DoT => "DoT",
            WarpMode::WarpDoH => "Warp+DoH",
            WarpMode::WarpDoT => "Warp+DoT",
            WarpMode::Unknown => "Unknown",
        }
    }

    /// The mode that an `operation_mode` settings token names.
    pub fn from_token(token: &str) -> (r: WarpMode)
        ensures
            r == mode_of_token(token@),
    {
        let t = chars_of(token);
        let n = t.len();
        assert(t@.subrange(0, n as int) =~= token@);
        if range_equals(&t, 0, n, &chars_of("warp+dot")) {
            WarpMode::WarpDoT
        } else if range_equals(&t, 0, n, &chars_of("dot")) {
            WarpMode::DoT
        } else if range_equals(&t, 0, n, &chars_of("doh")) {
            WarpMode::DoH
        } else if range_equals(&t, 0, n, &chars_of("warp+doh")) {
            WarpMode::WarpDoH
        } else {
            WarpMode::Unknown
        }
    }
}

/// A status snapshot, built whole on every query.
#[derive(Debug, Clone)]
pub struct WarpInfo {
    pub status: WarpStatus,
    pub mode: Option<WarpMode>,
    pub account_type: Option<String>,
    pub warp_enabled: bool,
    pub gateway_enabled: bool,
    pub connected_networks: Vec<String>,
}

/// The mathematical content of a [`WarpInfo`].
pub struct WarpInfoView {
    pub status: WarpStatus,
    pub mode: Option<WarpMode>,
    pub account_type: Option<Seq<char>>,
    pub warp_enabled: bool,
    pub gateway_enabled: bool,
    pub connected_networks: Seq<Seq<char>>,
}

impl View for WarpInfo {
    type V = WarpInfoView;

    open spec fn view(&self) -> WarpInfoView {
        WarpInfoView {
            status: self.status,
            mode: self.mode,
            account_type: self.account_type.deep_view(),
            warp_enabled: self.warp_enabled,
            gateway_enabled: self.gateway_enabled,
            connected_networks: self.connected_networks.deep_view(),
        }
    }
}

/// The snapshot shown when nothing is known.
pub open spec fn unknown_info() -> WarpInfoView {
    WarpInfoView {
        status: WarpStatus::Unknown,
        mode: None,
        account_type: None,
        warp_enabled: false,
        gateway_enabled: false,
        connected_networks: Seq::empty(),
    }
}

impl Default for WarpInfo {
    fn default() -> (r: WarpInfo)
        ensures
            r@ == unknown_info(),
    {
        let r = WarpInfo {
            status: WarpStatus::Unknown,
            mode: None,
            account_type: None,
            warp_enabled: false,
            gateway_enabled: false,
            connected_networks: Vec::new(),
        };
        assert(r.connected_networks.deep_view() =~= Seq::<Seq<char>>::empty());
        r
    }
}

/// The device registration that a registration command reports.
#[derive(Debug, Clone)]
pub struct RegistrationInfo {
    pub device_id: Option<String>,
    pub organization: Option<String>,
    pub account_type: Option<String>,
    pub license_key: Option<String>,
}

/// The mathematical content of a [`RegistrationInfo`].
pub struct RegistrationView {
    pub device_id: Option<Seq<char>>,
    pub organization: Option<Seq<char>>,
    pub account_type: Option<Seq<char>>,
    pub license_key: Option<Seq<char>>,
}

impl View for RegistrationInfo {
    type V = RegistrationView;

    open spec fn view(&self) -> RegistrationView {
        RegistrationView {
            device_id: self.device_id.deep_view(),
            organization: self.organization.deep_view(),
            account_type: self.account_type.deep_view(),
            license_key: self.license_key.deep_view(),
        }
    }
}

} // verus!
