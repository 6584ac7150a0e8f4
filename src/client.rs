//! The client's configuration and its parsers for `warp-cli` text output.

use vstd::prelude::*;
use crate::error::WarpResult;
use crate::text::{
    chars_of, contains, contains_in, find_in, first_occurrence, lemma_first_occurrence,
    line_bounds, lines_of, range_equals, second_piece, second_piece_bounds, starts_with,
    starts_with_in, trim, trim_bounds,
};
use crate::types::{
    unknown_info, RegistrationInfo, RegistrationView, WarpInfo, WarpInfoView, WarpMode,
    WarpStatus,
};

verus! {

/// What `str::to_lowercase` makes of a text.
pub uninterp spec fn lowercase_of(s: Seq<char>) -> Seq<char>;

/// Relies on `str::to_lowercase`: the Unicode lowercase mapping of `s`,
/// which depends on the characters of `s` alone.
#[verifier::external_body]
fn lowercase(s: &str) -> (r: String)
    ensures
        r@ == lowercase_of(s@),
{
    s.to_lowercase()
}

/// The state that an already lowercased status line reports. A line that
/// begins with `status update:` names the state exactly after that marker;
/// otherwise the text after the first `status:` (up to a second one) is
/// searched for the state words, a longer word before a word it contains.
pub open spec fn status_of_lowered(t: Seq<char>) -> WarpStatus {
    if starts_with(t, "status update:"@) {
        let part = trim(t.skip("status update:"@.len() as int));
        if part == "connected"@ {
            WarpStatus::Connected
        } else if part == "disconnected"@ {
            WarpStatus::Disconnected
        } else if part == "connecting"@ {
            WarpStatus::Connecting
        } else if part == "disconnecting"@ {
            WarpStatus::Disconnecting
        } else {
            WarpStatus::Unknown
        }
    } else if contains(t, "status:"@) {
        let part = trim(second_piece(t, "status:"@));
        if contains(part, "connected"@) && !contains(part, "disconnected"@) {
            WarpStatus::Connected
        } else if contains(part, "disconnected"@) {
            WarpStatus::Disconnected
        } else if contains(part, "disconnecting"@) {
            WarpStatus::Disconnecting
        } else if contains(part, "connecting"@) {
            WarpStatus::Connecting
        } else {
            WarpStatus::Unknown
        }
    } else {
        WarpStatus::Unknown
    }
}

/// The state that a status line reports, whatever the case of its letters.
pub open spec fn status_of_line(line: Seq<char>) -> WarpStatus {
    status_of_lowered(lowercase_of(line))
}

/// The trimmed text after the first colon of `line`, to the end of the
/// line; none where there is no colon or that text is empty.
pub open spec fn value_after_colon(line: Seq<char>) -> Option<Seq<char>> {
    if contains(line, ":"@) {
        let v = trim(line.skip(first_occurrence(line, ":"@) + 1));
        if v.len() == 0 {
            None
        } else {
            Some(v)
        }
    } else {
        None
    }
}

/// One line of `status` output applied to a snapshot. The line is trimmed;
/// the first marker it carries decides which field it sets.
pub open spec fn apply_status_line(info: WarpInfoView, raw: Seq<char>) -> WarpInfoView {
    let l = trim(raw);
    if starts_with(l, "Status update:"@) || contains(l, "Status:"@) {
        WarpInfoView { status: status_of_line(l), ..info }
    } else if contains(l, "Account type:"@) {
        WarpInfoView { account_type: value_after_colon(l), ..info }
    } else if contains(l, "Warp enabled:"@) {
        WarpInfoView { warp_enabled: contains(l, "true"@), ..info }
    } else if contains(l, "Gateway enabled:"@) {
        WarpInfoView { gateway_enabled: contains(l, "true"@), ..info }
    } else {
        info
    }
}

/// Lines of `status` output applied in order.
pub open spec fn apply_status_lines(info: WarpInfoView, lines: Seq<Seq<char>>) -> WarpInfoView
    decreases lines.len(),
{
    if lines.len() == 0 {
        info
    } else {
        apply_status_line(apply_status_lines(info, lines.drop_last()), lines.last())
    }
}

/// The snapshot that `status` output describes, with the mode taken from the settings.
pub open spec fn status_info_of(output: Seq<char>, mode: WarpMode) -> WarpInfoView {
    apply_status_lines(WarpInfoView { mode: Some(mode), ..unknown_info() }, lines_of(output))
}

/// A registration with no field known.
pub open spec fn empty_registration() -> RegistrationView {
    RegistrationView { device_id: None, organization: None, account_type: None, license_key: None }
}

/// One line of registration output applied to a record.
pub open spec fn apply_registration_line(info: RegistrationView, raw: Seq<char>) -> RegistrationView {
    let l = trim(raw);
    if contains(l, "Device ID:"@) {
        RegistrationView { device_id: value_after_colon(l), ..info }
    } else if contains(l, "Organization:"@) {
        RegistrationView { organization: value_after_colon(l), ..info }
    } else if contains(l, "Account type:"@) {
        RegistrationView { account_type: value_after_colon(l), ..info }
    } else if contains(l, "License key:"@) {
        RegistrationView { license_key: value_after_colon(l), ..info }
    } else {
        info
    }
}

/// Lines of registration output applied in order.
pub open spec fn apply_registration_lines(info: RegistrationView, lines: Seq<Seq<char>>) -> RegistrationView
    decreases lines.len(),
{
    if lines.len() == 0 {
        info
    } else {
        apply_registration_line(apply_registration_lines(info, lines.drop_last()), lines.last())
    }
}

/// The registration that registration output describes.
pub open spec fn registration_of(output: Seq<char>) -> RegistrationView {
    apply_registration_lines(empty_registration(), lines_of(output))
}

/// Runs `warp-cli` operations with a time bound for the asynchronous ones.
#[derive(Debug, Clone)]
pub struct WarpClient {
    command_timeout_secs: u64,
}

impl Default for WarpClient {
    fn default() -> (r: WarpClient)
        ensures
            r.timeout() == 30,
    {
        WarpClient::new()
    }
}

impl WarpClient {
    /// The time bound, in seconds.
    pub closed spec fn timeout(&self) -> u64 {
        self.command_timeout_secs
    }

    /// A client with a time bound of 30 seconds.
    pub fn new() -> (r: Self)
        ensures
            r.timeout() == 30,
    {
        WarpClient { command_timeout_secs: 30 }
    }

    /// A client with the given time bound.
    pub fn with_timeout(timeout_secs: u64) -> (r: Self)
        ensures
            r.timeout() == timeout_secs,
    {
        WarpClient { command_timeout_secs: timeout_secs }
    }

    /// The time bound, in seconds.
    pub fn timeout_secs(&self) -> (r: u64)
        ensures
            r == self.timeout(),
    {
        self.command_timeout_secs
    }

    /// The state that an already lowercased status line reports.
    pub fn parse_lowercase_status_line(&self, lowered: &str) -> (r: WarpStatus)
        ensures
            r == status_of_lowered(lowered@),
    {
        let v = chars_of(lowered);
        let n = v.len();
        assert(v@.subrange(0, n as int) =~= v@);
        let update = chars_of("status update:");
        if starts_with_in(&v, 0, n, &update) {
            let (a, b) = trim_bounds(&v, update.len(), n);
            assert(v@.subrange(update.len() as int, n as int) =~= v@.skip(update@.len() as int));
            if range_equals(&v, a, b, &chars_of("connected")) {
                WarpStatus::Connected
            } else if range_equals(&v, a, b, &chars_of("disconnected")) {
                WarpStatus::Disconnected
            } else if range_equals(&v, a, b, &chars_of("connecting")) {
                WarpStatus::Connecting
            } else if range_equals(&v, a, b, &chars_of("disconnecting")) {
                WarpStatus::Disconnecting
            } else {
                WarpStatus::Unknown
            }
        } else {
            match second_piece_bounds(&v, &chars_of("status:")) {
                None => WarpStatus::Unknown,
                Some((s0, e0)) => {
                    let (a, b) = trim_bounds(&v, s0, e0);
                    if contains_in(&v, a, b, &chars_of("connected")) && !contains_in(
                        &v,
                        a,
                        b,
                        &chars_of("disconnected"),
                    ) {
                        WarpStatus::Connected
                    } else if contains_in(&v, a, b, &chars_of("disconnected")) {
                        WarpStatus::Disconnected
                    } else if contains_in(&v, a, b, &chars_of("disconnecting")) {
                        WarpStatus::Disconnecting
                    } else if contains_in(&v, a, b, &chars_of("connecting")) {
                        WarpStatus::Connecting
                    } else {
                        WarpStatus::Unknown
                    }
                },
            }
        }
    }

    /// The state that a status line reports, in either the `Status update:`
    /// or the older `Status:` format, whatever the case of its letters.
    pub fn parse_status_line(&self, line: &str) -> (r: WarpStatus)
        ensures
            r == status_of_line(line@),
    {
        let lowered = lowercase(line);
        self.parse_lowercase_status_line(lowered.as_str())
    }

    /// The trimmed text after the first colon of `line`, to the end of the
    /// line; none where there is no colon or nothing but whitespace follows.
    pub fn extract_value_after_colon(&self, line: &str) -> (r: Option<String>)
        ensures
            r.deep_view() == value_after_colon(line@),
    {
        let v = chars_of(line);
        let n = v.len();
        let colon = chars_of(":");
        assert(v@.subrange(0, n as int) =~= v@);
        match find_in(&v, 0, n, &colon) {
            None => None,
            Some(i) => {
                proof {
                    reveal_strlit(":");
                    lemma_first_occurrence(v@, colon@, i as int);
                }
                assert(v@.subrange(i + 1, n as int) =~= v@.skip(i + 1));
                let (a, b) = trim_bounds(&v, i + 1, n);
                if a == b {
                    None
                } else {
                    Some(String::from_str(line.substring_char(a, b)))
                }
            },
        }
    }

    /// The snapshot that the output of `status` describes; `mode` is the
    /// operation mode read from the settings.
    pub fn parse_status_output(&self, output: &str, mode: WarpMode) -> (r: WarpInfo)
        ensures
            r@ == status_info_of(output@, mode),
    {
        let v = chars_of(output);
        let lines = line_bounds(&v);
        let update = chars_of("Status update:");
        let status = chars_of("Status:");
        let account = chars_of("Account type:");
        let warp = chars_of("Warp enabled:");
        let gateway = chars_of("Gateway enabled:");
        let yes = chars_of("true");
        let mut info = WarpInfo {
            status: WarpStatus::Unknown,
            mode: Some(mode),
            account_type: None,
            warp_enabled: false,
            gateway_enabled: false,
            connected_networks: Vec::new(),
        };
        let ghost init = WarpInfoView { mode: Some(mode), ..unknown_info() };
        let ghost all = lines_of(v@);
        assert(info.connected_networks.deep_view() =~= Seq::<Seq<char>>::empty());
        assert(all.take(0) =~= Seq::<Seq<char>>::empty());
        let mut i: usize = 0;
        while i < lines.len()
            invariant
                i <= lines.len(),
                v@ == output@,
                all == lines_of(v@),
                lines.len() == all.len(),
                forall|k: int|
                    0 <= k < lines.len() ==> {
                        let (a, b) = #[trigger] lines@[k];
                        a <= b <= v.len() && v@.subrange(a as int, b as int) == all[k]
                    },
                update@ == "Status update:"@,
                status@ == "Status:"@,
                account@ == "Account type:"@,
                warp@ == "Warp enabled:"@,
                gateway@ == "Gateway enabled:"@,
                yes@ == "true"@,
                info@ == apply_status_lines(init, all.take(i as int)),
            decreases lines.len() - i,
        {
            let (a0, b0) = lines[i];
            let (a, b) = trim_bounds(&v, a0, b0);
            let line = output.substring_char(a, b);
            if starts_with_in(&v, a, b, &update) || contains_in(&v, a, b, &status) {
                info.status = self.parse_status_line(line);
            } else if contains_in(&v, a, b, &account) {
                info.account_type = self.extract_value_after_colon(line);
            } else if contains_in(&v, a, b, &warp) {
                info.warp_enabled = contains_in(&v, a, b, &yes);
            } else if contains_in(&v, a, b, &gateway) {
                info.gateway_enabled = contains_in(&v, a, b, &yes);
            }
            assert(all.take(i + 1).drop_last() =~= all.take(i as int));
            i = i + 1;
        }
        assert(all.take(i as int) =~= all);
        info
    }

    /// The registration that the output of a registration command describes.
    pub fn parse_registration_output(&self, output: &str) -> (r: WarpResult<RegistrationInfo>)
        ensures
            r matches Ok(info) && info@ == registration_of(output@),
    {
        let v = chars_of(output);
        let lines = line_bounds(&v);
        let device = chars_of("Device ID:");
        let organization = chars_of("Organization:");
        let account = chars_of("Account type:");
        let license = chars_of("License key:");
        let mut info = RegistrationInfo {
            device_id: None,
            organization: None,
            account_type: None,
            license_key: None,
        };
        let ghost all = lines_of(v@);
        assert(all.take(0) =~= Seq::<Seq<char>>::empty());
        let mut i: usize = 0;
        while i < lines.len()
            invariant
                i <= lines.len(),
                v@ == output@,
                all == lines_of(v@),
                lines.len() == all.len(),
                forall|k: int|
                    0 <= k < lines.len() ==> {
                        let (a, b) = #[trigger] lines@[k];
                        a <= b <= v.len() && v@.subrange(a as int, b as int) == all[k]
                    },
                device@ == "Device ID:"@,
                organization@ == "Organization:"@,
                account@ == "Account type:"@,
                license@ == "License key:"@,
                info@ == apply_registration_lines(empty_registration(), all.take(i as int)),
            decreases lines.len() - i,
        {
            let (a0, b0) = lines[i];
            let (a, b) = trim_bounds(&v, a0, b0);
            let line = output.substring_char(a, b);
            if contains_in(&v, a, b, &device) {
                info.device_id = self.extract_value_after_colon(line);
            } else if contains_in(&v, a, b, &organization) {
                info.organization = self.extract_value_after_colon(line);
            } else if contains_in(&v, a, b, &account) {
                info.account_type = self.extract_value_after_colon(line);
            } else if contains_in(&v, a, b, &license) {
                info.license_key = self.extract_value_after_colon(line);
            }
            assert(all.take(i + 1).drop_last() =~= all.take(i as int));
            i = i + 1;
        }
        assert(all.take(i as int) =~= all);
        Ok(info)
    }
}

} // verus!
