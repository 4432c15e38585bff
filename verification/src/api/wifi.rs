//! The stand-in wifi API of the demo mode: fixed answers, each after a fixed delay.
use vstd::prelude::*;
use vstd::string::*;

use crate::components::settings::{default_ap_settings, ApSettings, WifiSettings, WifiSettingsView};
use crate::components::wifi_ap::{ApStatus, ClientStatus, WifiStatus};
use crate::edge::wifi::{default_sta_conf, AuthMethod, Protocols, StaConfView, StaConfiguration};

verus! {

/// What the device's wifi can be: a station, an access point, or both at once.
#[derive(Clone, Copy, Debug, PartialEq, Eq, Structural)]
pub struct Capabilities {
    pub client: bool,
    pub access_point: bool,
    pub mixed: bool,
}

/// Where a secondary channel lies, if the network uses one.
#[derive(Clone, Copy, Debug, PartialEq, Eq, Structural)]
pub enum SecondaryChannel {
    Unused,
    Above,
    Below,
}

/// A network found by a scan.
pub struct AccessPointInfo {
    pub ssid: String,
    pub bssid: [u8; 6],
    pub channel: u8,
    pub secondary_channel: SecondaryChannel,
    pub signal_strength: u8,
    pub protocols: Protocols,
    pub auth_method: AuthMethod,
}

/// The operations of the API, for their delays.
#[derive(Clone, Copy, Debug, PartialEq, Eq, Structural)]
pub enum WifiOp {
    GetCapabilities,
    GetStatus,
    Scan,
    GetConfiguration,
    SetConfiguration,
}

/// The stand-in wifi API.
#[derive(Clone, Copy, Debug, PartialEq, Eq, Structural)]
pub struct WifiAsync;

pub open spec fn protocols_of(bgn: bool, lr: bool) -> Protocols {
    Protocols { p802d11b: false, p802d11bg: false, p802d11bgn: bgn, p802d11bgnlr: false, p802d11lr: lr }
}

pub open spec fn zero_bssid(b: [u8; 6]) -> bool {
    forall|i: int| 0 <= i < 6 ==> b[i] == 0
}

/// The networks a scan finds: "foo", "bar" and "open", in that order.
pub open spec fn scan_found(r: Seq<AccessPointInfo>) -> bool {
    &&& r.len() == 3
    &&& r[0].ssid@ == "foo"@ && zero_bssid(r[0].bssid) && r[0].channel == 6
        && r[0].secondary_channel == SecondaryChannel::Unused && r[0].signal_strength == 2
        && r[0].protocols == protocols_of(true, true) && r[0].auth_method == AuthMethod::WPA2Personal
    &&& r[1].ssid@ == "bar"@ && zero_bssid(r[1].bssid) && r[1].channel == 3
        && r[1].secondary_channel == SecondaryChannel::Unused && r[1].signal_strength == 3
        && r[1].protocols == protocols_of(true, false) && r[1].auth_method == AuthMethod::WEP
    &&& r[2].ssid@ == "open"@ && zero_bssid(r[2].bssid) && r[2].channel == 1
        && r[2].secondary_channel == SecondaryChannel::Unused && r[2].signal_strength == 3
        && r[2].protocols == protocols_of(true, false) && r[2].auth_method == AuthMethod::Open
}

impl WifiAsync {
    /// The delay, in milliseconds, before an operation answers.
    pub fn delay_ms(op: WifiOp) -> (r: u32)
        ensures
            r == match op {
                WifiOp::GetCapabilities => 5000u32,
                WifiOp::GetStatus => 6000u32,
                WifiOp::Scan => 4000u32,
                WifiOp::GetConfiguration => 5000u32,
                WifiOp::SetConfiguration => 500u32,
            },
    {
        match op {
            WifiOp::GetCapabilities => 5000,
            WifiOp::GetStatus => 6000,
            WifiOp::Scan => 4000,
            WifiOp::GetConfiguration => 5000,
            WifiOp::SetConfiguration => 500,
        }
    }

    /// Every mode is supported.
    pub fn get_capabilities(&self) -> (r: Capabilities)
        ensures
            r == (Capabilities { client: true, access_point: true, mixed: true }),
    {
        Capabilities { client: true, access_point: true, mixed: true }
    }

    /// Both the station and the access point are stopped.
    pub fn get_status(&self) -> (r: WifiStatus)
        ensures
            r == WifiStatus(ClientStatus::Stopped, ApStatus::Stopped),
    {
        WifiStatus(ClientStatus::Stopped, ApStatus::Stopped)
    }

    /// Three networks, as `scan_found` lists them.
    pub fn scan(&self) -> (r: Vec<AccessPointInfo>)
        ensures
            scan_found(r@),
    {
        proof {
            reveal_strlit("foo");
            reveal_strlit("bar");
            reveal_strlit("open");
        }
        let mut r = Vec::new();
        r.push(
            AccessPointInfo {
                ssid: String::from_str("foo"),
                bssid: [0, 0, 0, 0, 0, 0],
                channel: 6,
                secondary_channel: SecondaryChannel::Unused,
                signal_strength: 2,
                protocols: Protocols {
                    p802d11b: false,
                    p802d11bg: false,
                    p802d11bgn: true,
                    p802d11bgnlr: false,
                    p802d11lr: true,
                },
                auth_method: AuthMethod::WPA2Personal,
            },
        );
        r.push(
            AccessPointInfo {
                ssid: String::from_str("bar"),
                bssid: [0, 0, 0, 0, 0, 0],
                channel: 3,
                secondary_channel: SecondaryChannel::Unused,
                signal_strength: 3,
                protocols: Protocols {
                    p802d11b: false,
                    p802d11bg: false,
                    p802d11bgn: true,
                    p802d11bgnlr: false,
                    p802d11lr: false,
                },
                auth_method: AuthMethod::WEP,
            },
        );
        r.push(
            AccessPointInfo {
                ssid: String::from_str("open"),
                bssid: [0, 0, 0, 0, 0, 0],
                channel: 1,
                secondary_channel: SecondaryChannel::Unused,
                signal_strength: 3,
                protocols: Protocols {
                    p802d11b: false,
                    p802d11bg: false,
                    p802d11bgn: true,
                    p802d11bgnlr: false,
                    p802d11lr: false,
                },
                auth_method: AuthMethod::Open,
            },
        );
        r
    }

    /// Station "foo" with password "pass", beside the default access point.
    pub fn get_configuration(&self) -> (r: WifiSettings)
        ensures
            r@ == WifiSettingsView::Mixed(
                StaConfView { ssid: "foo"@, password: "pass"@, ..default_sta_conf() },
                default_ap_settings(),
            ),
    {
        proof {
            reveal_strlit("foo");
            reveal_strlit("pass");
        }
        let mut client = StaConfiguration::default();
        client.ssid = String::from_str("foo");
        client.password = String::from_str("pass");
        WifiSettings::Mixed(client, ApSettings::default())
    }

    /// Accepts any configuration.
    pub fn set_configuration(&mut self, _conf: &WifiSettings) {
    }
}

} // verus!
