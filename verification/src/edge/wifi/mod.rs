//! Wifi configuration: the access point and station settings, which parts of
//! them a setup screen edits, and how the states of its forms combine into one.
use vstd::prelude::*;
use vstd::string::*;

use crate::edge::ipv4::client::ClientState;
use crate::edge::ipv4::router::RouterState;
use crate::edge::ipv4::{ClientConfiguration as IpClientConfiguration, RouterConfiguration};
use crate::text::{char_utf8_len, str_eq, utf8_len};

pub mod ap;
pub mod sta;

use ap::ApState;
use sta::StaState;

verus! {

/// The authentication method of a wifi network.
#[derive(Clone, Copy, Debug, PartialEq, Eq, Structural)]
pub enum AuthMethod {
    Open,
    WEP,
    WPA,
    WPA2Personal,
    WPAWPA2Personal,
    WPA2Enterprise,
    WPA3Personal,
    WPA2WPA3Personal,
    WAPIPersonal,
}

/// The text of an authentication method, as its `Display` writes it.
pub open spec fn auth_text(m: AuthMethod) -> Seq<char> {
    match m {
        AuthMethod::Open => "none"@,
        AuthMethod::WEP => "wep"@,
        AuthMethod::WPA => "wpa"@,
        AuthMethod::WPA2Personal => "wpa2personal"@,
        AuthMethod::WPAWPA2Personal => "wpawpa2personal"@,
        AuthMethod::WPA2Enterprise => "wpa2enterprise"@,
        AuthMethod::WPA3Personal => "wpa3personal"@,
        AuthMethod::WPA2WPA3Personal => "wpa2wpa3personal"@,
        AuthMethod::WAPIPersonal => "wapipersonal"@,
    }
}

/// The label of an authentication method shown in a selection list.
pub open spec fn auth_message(m: AuthMethod) -> Seq<char> {
    match m {
        AuthMethod::Open => "None"@,
        AuthMethod::WEP => "WEP"@,
        AuthMethod::WPA => "WPA"@,
        AuthMethod::WPA2Personal => "WPA2 Personal"@,
        AuthMethod::WPAWPA2Personal => "WPA & WPA2 Personal"@,
        AuthMethod::WPA2Enterprise => "WPA2 Enterprise"@,
        AuthMethod::WPA3Personal => "WPA3 Personal"@,
        AuthMethod::WPA2WPA3Personal => "WPA2 & WPA3 Personal"@,
        AuthMethod::WAPIPersonal => "WAPI Personal"@,
    }
}

/// All authentication methods, in the order a selection list shows them.
pub open spec fn all_auth_methods() -> Seq<AuthMethod> {
    seq![
        AuthMethod::Open,
        AuthMethod::WEP,
        AuthMethod::WPA,
        AuthMethod::WPA2Personal,
        AuthMethod::WPAWPA2Personal,
        AuthMethod::WPA2Enterprise,
        AuthMethod::WPA3Personal,
        AuthMethod::WPA2WPA3Personal,
        AuthMethod::WAPIPersonal,
    ]
}

/// The first authentication method, in list order, whose text is `s`; the default
/// one when there is none.
pub open spec fn auth_of_text(s: Seq<char>) -> AuthMethod {
    if s == auth_text(AuthMethod::Open) {
        AuthMethod::Open
    } else if s == auth_text(AuthMethod::WEP) {
        AuthMethod::WEP
    } else if s == auth_text(AuthMethod::WPA) {
        AuthMethod::WPA
    } else if s == auth_text(AuthMethod::WPA2Personal) {
        AuthMethod::WPA2Personal
    } else if s == auth_text(AuthMethod::WPAWPA2Personal) {
        AuthMethod::WPAWPA2Personal
    } else if s == auth_text(AuthMethod::WPA2Enterprise) {
        AuthMethod::WPA2Enterprise
    } else if s == auth_text(AuthMethod::WPA3Personal) {
        AuthMethod::WPA3Personal
    } else if s == auth_text(AuthMethod::WPA2WPA3Personal) {
        AuthMethod::WPA2WPA3Personal
    } else if s == auth_text(AuthMethod::WAPIPersonal) {
        AuthMethod::WAPIPersonal
    } else {
        AuthMethod::WPA2Personal
    }
}

/// The text of a method selects that method.
pub proof fn law_auth_text_round_trip(m: AuthMethod)
    ensures
        auth_of_text(auth_text(m)) == m,
{
    reveal_strlit("none");
    reveal_strlit("wep");
    reveal_strlit("wpa");
    reveal_strlit("wpa2personal");
    reveal_strlit("wpawpa2personal");
    reveal_strlit("wpa2enterprise");
    reveal_strlit("wpa3personal");
    reveal_strlit("wpa2wpa3personal");
    reveal_strlit("wapipersonal");
    match m {
        AuthMethod::Open => {},
        AuthMethod::WEP => {
            assert(auth_text(m)[0] != auth_text(AuthMethod::Open)[0]);
        },
        AuthMethod::WPA => {
            assert(auth_text(m)[0] != auth_text(AuthMethod::Open)[0]);
            assert(auth_text(m)[1] != auth_text(AuthMethod::WEP)[1]);
        },
        AuthMethod::WPA2Personal => {
            assert(auth_text(m)[0] != auth_text(AuthMethod::Open)[0]);
            assert(auth_text(m)[1] != auth_text(AuthMethod::WEP)[1]);
            assert(auth_text(m).len() != auth_text(AuthMethod::WPA).len());
        },
        AuthMethod::WPAWPA2Personal => {
            assert(auth_text(m)[0] != auth_text(AuthMethod::Open)[0]);
            assert(auth_text(m)[1] != auth_text(AuthMethod::WEP)[1]);
            assert(auth_text(m).len() != auth_text(AuthMethod::WPA).len());
            assert(auth_text(m)[3] != auth_text(AuthMethod::WPA2Personal)[3]);
        },
        AuthMethod::WPA2Enterprise => {
            assert(auth_text(m)[0] != auth_text(AuthMethod::Open)[0]);
            assert(auth_text(m)[1] != auth_text(AuthMethod::WEP)[1]);
            assert(auth_text(m).len() != auth_text(AuthMethod::WPA).len());
            assert(auth_text(m)[4] != auth_text(AuthMethod::WPA2Personal)[4]);
            assert(auth_text(m)[3] != auth_text(AuthMethod::WPAWPA2Personal)[3]);
        },
        AuthMethod::WPA3Personal => {
            assert(auth_text(m)[0] != auth_text(AuthMethod::Open)[0]);
            assert(auth_text(m)[1] != auth_text(AuthMethod::WEP)[1]);
            assert(auth_text(m).len() != auth_text(AuthMethod::WPA).len());
            assert(auth_text(m)[3] != auth_text(AuthMethod::WPA2Personal)[3]);
            assert(auth_text(m)[3] != auth_text(AuthMethod::WPAWPA2Personal)[3]);
            assert(auth_text(m)[3] != auth_text(AuthMethod::WPA2Enterprise)[3]);
        },
        AuthMethod::WPA2WPA3Personal => {
            assert(auth_text(m)[0] != auth_text(AuthMethod::Open)[0]);
            assert(auth_text(m)[1] != auth_text(AuthMethod::WEP)[1]);
            assert(auth_text(m).len() != auth_text(AuthMethod::WPA).len());
            assert(auth_text(m)[4] != auth_text(AuthMethod::WPA2Personal)[4]);
            assert(auth_text(m)[3] != auth_text(AuthMethod::WPAWPA2Personal)[3]);
            assert(auth_text(m)[4] != auth_text(AuthMethod::WPA2Enterprise)[4]);
            assert(auth_text(m)[3] != auth_text(AuthMethod::WPA3Personal)[3]);
        },
        AuthMethod::WAPIPersonal => {
            assert(auth_text(m)[0] != auth_text(AuthMethod::Open)[0]);
            assert(auth_text(m)[1] != auth_text(AuthMethod::WEP)[1]);
            assert(auth_text(m)[1] != auth_text(AuthMethod::WPA)[1]);
            assert(auth_text(m)[1] != auth_text(AuthMethod::WPA2Personal)[1]);
            assert(auth_text(m)[1] != auth_text(AuthMethod::WPAWPA2Personal)[1]);
            assert(auth_text(m)[1] != auth_text(AuthMethod::WPA2Enterprise)[1]);
            assert(auth_text(m)[1] != auth_text(AuthMethod::WPA3Personal)[1]);
            assert(auth_text(m)[1] != auth_text(AuthMethod::WPA2WPA3Personal)[1]);
        },
    }
}

impl AuthMethod {
    pub fn as_str(&self) -> (r: &'static str)
        ensures
            r@ == auth_text(*self),
    {
        match self {
            AuthMethod::Open => "none",
            AuthMethod::WEP => "wep",
            AuthMethod::WPA => "wpa",
            AuthMethod::WPA2Personal => "wpa2personal",
            AuthMethod::WPAWPA2Personal => "wpawpa2personal",
            AuthMethod::WPA2Enterprise => "wpa2enterprise",
            AuthMethod::WPA3Personal => "wpa3personal",
            AuthMethod::WPA2WPA3Personal => "wpa2wpa3personal",
            AuthMethod::WAPIPersonal => "wapipersonal",
        }
    }

    /// The text of the method, as its `to_string` gives it.
    pub fn to_text(&self) -> (r: String)
        ensures
            r@ == auth_text(*self),
    {
        String::from_str(self.as_str())
    }

    pub fn message(&self) -> (r: &'static str)
        ensures
            r@ == auth_message(*self),
    {
        match self {
            AuthMethod::Open => "None",
            AuthMethod::WEP => "WEP",
            AuthMethod::WPA => "WPA",
            AuthMethod::WPA2Personal => "WPA2 Personal",
            AuthMethod::WPAWPA2Personal => "WPA & WPA2 Personal",
            AuthMethod::WPA2Enterprise => "WPA2 Enterprise",
            AuthMethod::WPA3Personal => "WPA3 Personal",
            AuthMethod::WPA2WPA3Personal => "WPA2 & WPA3 Personal",
            AuthMethod::WAPIPersonal => "WAPI Personal",
        }
    }

    /// All methods, in list order.
    pub fn iter() -> (r: Vec<AuthMethod>)
        ensures
            r@ == all_auth_methods(),
    {
        let r = vec![
            AuthMethod::Open,
            AuthMethod::WEP,
            AuthMethod::WPA,
            AuthMethod::WPA2Personal,
            AuthMethod::WPAWPA2Personal,
            AuthMethod::WPA2Enterprise,
            AuthMethod::WPA3Personal,
            AuthMethod::WPA2WPA3Personal,
            AuthMethod::WAPIPersonal,
        ];
        assert(r@ =~= all_auth_methods());
        r
    }

    /// The method selected by a text: the first in list order whose text it is, else
    /// the default method.
    pub fn from_text(raw: &str) -> (r: AuthMethod)
        ensures
            r == auth_of_text(raw@),
    {
        let all = AuthMethod::iter();
        let mut i: usize = 0;
        while i < all.len()
            invariant
                all@ == all_auth_methods(),
                i <= all.len(),
                forall|j: int| 0 <= j < i ==> auth_text(#[trigger] all@[j]) != raw@,
            decreases all.len() - i,
        {
            let m = all[i];
            if str_eq(m.as_str(), raw) {
                return m;
            }
            i = i + 1;
        }
        assert(auth_text(all@[0]) != raw@);
        assert(auth_text(all@[1]) != raw@);
        assert(auth_text(all@[2]) != raw@);
        assert(auth_text(all@[3]) != raw@);
        assert(auth_text(all@[4]) != raw@);
        assert(auth_text(all@[5]) != raw@);
        assert(auth_text(all@[6]) != raw@);
        assert(auth_text(all@[7]) != raw@);
        assert(auth_text(all@[8]) != raw@);
        AuthMethod::WPA2Personal
    }
}

impl Default for AuthMethod {
    fn default() -> (r: Self)
        ensures
            r == AuthMethod::WPA2Personal,
    {
        AuthMethod::WPA2Personal
    }
}


/// The radio protocols an access point offers.
#[derive(Clone, Copy, Debug, PartialEq, Eq, Structural)]
pub struct Protocols {
    pub p802d11b: bool,
    pub p802d11bg: bool,
    pub p802d11bgn: bool,
    pub p802d11bgnlr: bool,
    pub p802d11lr: bool,
}

/// The settings of an access point.
pub struct AccessPointConfiguration {
    pub ssid: String,
    pub ssid_hidden: bool,
    pub channel: u8,
    pub secondary_channel: Option<u8>,
    pub protocols: Protocols,
    pub auth_method: AuthMethod,
    pub password: String,
    pub max_connections: u16,
}

pub struct ApConfView {
    pub ssid: Seq<char>,
    pub ssid_hidden: bool,
    pub channel: u8,
    pub secondary_channel: Option<u8>,
    pub protocols: Protocols,
    pub auth_method: AuthMethod,
    pub password: Seq<char>,
    pub max_connections: u16,
}

impl View for AccessPointConfiguration {
    type V = ApConfView;

    open spec fn view(&self) -> ApConfView {
        ApConfView {
            ssid: self.ssid@,
            ssid_hidden: self.ssid_hidden,
            channel: self.channel,
            secondary_channel: self.secondary_channel,
            protocols: self.protocols,
            auth_method: self.auth_method,
            password: self.password@,
            max_connections: self.max_connections,
        }
    }
}

/// The most bytes an access point's network name takes.
pub const SSID_MAX_BYTES: usize = 32;

/// The most bytes an access point's password takes.
pub const PASSWORD_MAX_BYTES: usize = 64;

impl ApConfView {
    /// The network name and the password fit the space the settings keep for them.
    pub open spec fn fits(self) -> bool {
        &&& utf8_len(self.ssid) <= SSID_MAX_BYTES
        &&& utf8_len(self.password) <= PASSWORD_MAX_BYTES
    }
}

proof fn lemma_utf8_len_ascii(s: Seq<char>)
    requires
        forall|i: int| 0 <= i < s.len() ==> char_utf8_len(#[trigger] s[i]) == 1,
    ensures
        utf8_len(s) == s.len(),
    decreases s.len(),
{
    if s.len() > 0 {
        lemma_utf8_len_ascii(s.drop_last());
    }
}

pub open spec fn default_ap_conf() -> ApConfView {
    ApConfView {
        ssid: "iot-device"@,
        ssid_hidden: false,
        channel: 1,
        secondary_channel: None,
        protocols: Protocols {
            p802d11b: true,
            p802d11bg: true,
            p802d11bgn: true,
            p802d11bgnlr: false,
            p802d11lr: false,
        },
        auth_method: AuthMethod::Open,
        password: Seq::empty(),
        max_connections: 255,
    }
}

impl Default for AccessPointConfiguration {
    fn default() -> (r: Self)
        ensures
            r@ == default_ap_conf(),
            r@.fits(),
    {
        proof {
            reveal_strlit("iot-device");
            lemma_utf8_len_ascii("iot-device"@);
        }
        AccessPointConfiguration {
            ssid: String::from_str("iot-device"),
            ssid_hidden: false,
            channel: 1,
            secondary_channel: None,
            protocols: Protocols {
                p802d11b: true,
                p802d11bg: true,
                p802d11bgn: true,
                p802d11bgnlr: false,
                p802d11lr: false,
            },
            auth_method: AuthMethod::Open,
            password: String::new(),
            max_connections: 255,
        }
    }
}

impl AccessPointConfiguration {
    pub fn duplicate(&self) -> (r: Self)
        ensures
            r@ == self@,
    {
        AccessPointConfiguration {
            ssid: self.ssid.clone(),
            ssid_hidden: self.ssid_hidden,
            channel: self.channel,
            secondary_channel: self.secondary_channel,
            protocols: self.protocols,
            auth_method: self.auth_method,
            password: self.password.clone(),
            max_connections: self.max_connections,
        }
    }
}

/// The settings by which a station joins a network.
pub struct StaConfiguration {
    pub ssid: String,
    pub bssid: Option<[u8; 6]>,
    pub auth_method: AuthMethod,
    pub password: String,
    pub channel: Option<u8>,
}

pub struct StaConfView {
    pub ssid: Seq<char>,
    pub bssid: Option<[u8; 6]>,
    pub auth_method: AuthMethod,
    pub password: Seq<char>,
    pub channel: Option<u8>,
}

impl View for StaConfiguration {
    type V = StaConfView;

    open spec fn view(&self) -> StaConfView {
        StaConfView {
            ssid: self.ssid@,
            bssid: self.bssid,
            auth_method: self.auth_method,
            password: self.password@,
            channel: self.channel,
        }
    }
}

pub open spec fn default_sta_conf() -> StaConfView {
    StaConfView {
        ssid: Seq::empty(),
        bssid: None,
        auth_method: AuthMethod::WPA2Personal,
        password: Seq::empty(),
        channel: None,
    }
}

impl Default for StaConfiguration {
    fn default() -> (r: Self)
        ensures
            r@ == default_sta_conf(),
    {
        StaConfiguration {
            ssid: String::new(),
            bssid: None,
            auth_method: AuthMethod::WPA2Personal,
            password: String::new(),
            channel: None,
        }
    }
}

impl StaConfiguration {
    pub fn duplicate(&self) -> (r: Self)
        ensures
            r@ == self@,
    {
        StaConfiguration {
            ssid: self.ssid.clone(),
            bssid: self.bssid,
            auth_method: self.auth_method,
            password: self.password.clone(),
            channel: self.channel,
        }
    }
}

/// The wifi mode and its settings.
pub enum Configuration {
    Unconfigured,
    Client(StaConfiguration),
    AccessPoint(AccessPointConfiguration),
    Mixed(StaConfiguration, AccessPointConfiguration),
}

pub enum ConfigurationView {
    Unconfigured,
    Client(StaConfView),
    AccessPoint(ApConfView),
    Mixed(StaConfView, ApConfView),
}

impl View for Configuration {
    type V = ConfigurationView;

    open spec fn view(&self) -> ConfigurationView {
        match self {
            Configuration::Unconfigured => ConfigurationView::Unconfigured,
            Configuration::Client(c) => ConfigurationView::Client(c@),
            Configuration::AccessPoint(a) => ConfigurationView::AccessPoint(a@),
            Configuration::Mixed(c, a) => ConfigurationView::Mixed(c@, a@),
        }
    }
}

impl Configuration {
    pub fn as_client_conf_ref(&self) -> (r: Option<&StaConfiguration>)
        ensures
            match *self {
                Configuration::Client(c) => r == Some(&c),
                Configuration::Mixed(c, _) => r == Some(&c),
                _ => r is None,
            },
    {
        match self {
            Configuration::Client(c) => Some(c),
            Configuration::Mixed(c, _) => Some(c),
            _ => None,
        }
    }

    pub fn as_ap_conf_ref(&self) -> (r: Option<&AccessPointConfiguration>)
        ensures
            match *self {
                Configuration::AccessPoint(a) => r == Some(&a),
                Configuration::Mixed(_, a) => r == Some(&a),
                _ => r is None,
            },
    {
        match self {
            Configuration::AccessPoint(a) => Some(a),
            Configuration::Mixed(_, a) => Some(a),
            _ => None,
        }
    }
}

/// The wifi configuration that the setup screen edits: the wifi settings and the IP
/// configuration of the access point and of the station.
pub struct WifiConf {
    pub conf: Configuration,
    pub ap_ip_conf: Option<RouterConfiguration>,
    pub sta_ip_conf: Option<IpClientConfiguration>,
}

pub struct WifiConfView {
    pub conf: ConfigurationView,
    pub ap_ip_conf: Option<RouterConfiguration>,
    pub sta_ip_conf: Option<IpClientConfiguration>,
}

impl View for WifiConf {
    type V = WifiConfView;

    open spec fn view(&self) -> WifiConfView {
        WifiConfView { conf: self.conf@, ap_ip_conf: self.ap_ip_conf, sta_ip_conf: self.sta_ip_conf }
    }
}

impl Default for WifiConf {
    fn default() -> (r: Self)
        ensures
            r@ == (WifiConfView {
                conf: ConfigurationView::Mixed(default_sta_conf(), default_ap_conf()),
                ap_ip_conf: Some(RouterConfiguration::spec_default()),
                sta_ip_conf: Some(IpClientConfiguration::DHCP),
            }),
    {
        WifiConf {
            conf: Configuration::Mixed(StaConfiguration::default(), AccessPointConfiguration::default()),
            ap_ip_conf: Some(RouterConfiguration::default()),
            sta_ip_conf: Some(IpClientConfiguration::DHCP),
        }
    }
}

impl Configuration {
    pub fn duplicate(&self) -> (r: Self)
        ensures
            r@ == self@,
    {
        match self {
            Configuration::Unconfigured => Configuration::Unconfigured,
            Configuration::Client(c) => Configuration::Client(c.duplicate()),
            Configuration::AccessPoint(a) => Configuration::AccessPoint(a.duplicate()),
            Configuration::Mixed(c, a) => Configuration::Mixed(c.duplicate(), a.duplicate()),
        }
    }
}

impl WifiConf {
    pub fn duplicate(&self) -> (r: Self)
        ensures
            r@ == self@,
    {
        WifiConf {
            conf: self.conf.duplicate(),
            ap_ip_conf: self.ap_ip_conf,
            sta_ip_conf: self.sta_ip_conf,
        }
    }
}

/// Whether the setup screen leaves out, edits, or lets the user switch on an
/// interface's IP configuration.
#[derive(Clone, Copy, Debug, PartialEq, Eq, Structural)]
pub enum WifiIpConfScope {
    Disabled,
    Enabled,
    Optional,
}

impl Default for WifiIpConfScope {
    fn default() -> (r: Self)
        ensures
            r == WifiIpConfScope::Enabled,
    {
        WifiIpConfScope::Enabled
    }
}

/// Which interfaces the setup screen edits, with the scope of their IP configuration.
#[derive(Clone, Copy, Debug, PartialEq, Eq, Structural)]
pub enum WifiConfScope {
    Sta(WifiIpConfScope),
    Ap(WifiIpConfScope),
    ApSta(WifiIpConfScope, WifiIpConfScope),
}

pub open spec fn sta_ip_scope(s: WifiConfScope) -> WifiIpConfScope {
    match s {
        WifiConfScope::Sta(scope) => scope,
        WifiConfScope::ApSta(_, scope) => scope,
        WifiConfScope::Ap(_) => WifiIpConfScope::Disabled,
    }
}

pub open spec fn ap_ip_scope(s: WifiConfScope) -> WifiIpConfScope {
    match s {
        WifiConfScope::Ap(scope) => scope,
        WifiConfScope::ApSta(scope, _) => scope,
        WifiConfScope::Sta(_) => WifiIpConfScope::Disabled,
    }
}

impl WifiConfScope {
    pub fn get_sta_ip_conf_scope(&self) -> (r: WifiIpConfScope)
        ensures
            r == sta_ip_scope(*self),
    {
        match self {
            WifiConfScope::Sta(scope) => *scope,
            WifiConfScope::ApSta(_, scope) => *scope,
            WifiConfScope::Ap(_) => WifiIpConfScope::Disabled,
        }
    }

    pub fn get_ap_ip_conf_scope(&self) -> (r: WifiIpConfScope)
        ensures
            r == ap_ip_scope(*self),
    {
        match self {
            WifiConfScope::Ap(scope) => *scope,
            WifiConfScope::ApSta(scope, _) => *scope,
            WifiConfScope::Sta(_) => WifiIpConfScope::Disabled,
        }
    }
}

impl Default for WifiConfScope {
    fn default() -> (r: Self)
        ensures
            r == WifiConfScope::Sta(WifiIpConfScope::Enabled),
    {
        WifiConfScope::Sta(WifiIpConfScope::Enabled)
    }
}

/// Whether an interface's IP configuration starts switched on: always when its scope
/// is `Enabled`, and when it is `Optional` if the configuration has one.
pub fn ip_conf_enabled_initially(scope: WifiIpConfScope, has_conf: bool) -> (r: bool)
    ensures
        r == (scope == WifiIpConfScope::Enabled || scope == WifiIpConfScope::Optional && has_conf),
{
    matches!(scope, WifiIpConfScope::Enabled) || matches!(scope, WifiIpConfScope::Optional)
        && has_conf
}


/// What the wifi setup screen reports: nothing changed, some form is in error, or
/// the configuration its forms describe.
pub enum WifiState {
    Unchanged,
    Errors,
    Conf(WifiConf),
}

impl WifiState {
    pub fn conf(&self) -> (r: Option<&WifiConf>)
        ensures
            match *self {
                WifiState::Conf(c) => r == Some(&c),
                _ => r is None,
            },
    {
        match self {
            WifiState::Conf(c) => Some(c),
            _ => None,
        }
    }
}

/// A change reported by one of the forms of the setup screen.
pub enum Change {
    Nothing,
    Ap(ApState),
    Sta(StaState),
    ApIp(RouterState),
    StaIp(ClientState),
}

/// The states last reported by the forms of the setup screen.
pub struct FormStates {
    pub ap: ApState,
    pub sta: StaState,
    pub router: RouterState,
    pub client: ClientState,
}

/// The states after a change: the form that reported it takes the state it reported.
pub open spec fn states_after(states: FormStates, change: Change) -> FormStates {
    match change {
        Change::Nothing => states,
        Change::Ap(s) => FormStates { ap: s, ..states },
        Change::Sta(s) => FormStates { sta: s, ..states },
        Change::ApIp(s) => FormStates { router: s, ..states },
        Change::StaIp(s) => FormStates { client: s, ..states },
    }
}

/// The states after a change, as `states_after` says.
pub fn apply_change(states: FormStates, change: Change) -> (r: FormStates)
    ensures
        r == states_after(states, change),
{
    match change {
        Change::Nothing => states,
        Change::Ap(s) => FormStates { ap: s, ..states },
        Change::Sta(s) => FormStates { sta: s, ..states },
        Change::ApIp(s) => FormStates { router: s, ..states },
        Change::StaIp(s) => FormStates { client: s, ..states },
    }
}

pub open spec fn any_errors(s: FormStates) -> bool {
    ||| s.ap is Errors
    ||| s.sta is Errors
    ||| s.router is Errors
    ||| s.client is Errors
}

pub open spec fn all_unchanged(s: FormStates) -> bool {
    &&& s.ap is Unchanged
    &&& s.sta is Unchanged
    &&& s.router is Unchanged
    &&& s.client is Unchanged
}

pub open spec fn ap_conf_or_default(s: ApState) -> ApConfView {
    match s {
        ApState::Conf(c) => c@,
        _ => default_ap_conf(),
    }
}

pub open spec fn sta_conf_or_default(s: StaState) -> StaConfView {
    match s {
        StaState::Conf(c) => c@,
        _ => default_sta_conf(),
    }
}

pub open spec fn router_conf_or_default(s: RouterState) -> RouterConfiguration {
    match s {
        RouterState::Conf(c) => c,
        _ => RouterConfiguration::spec_default(),
    }
}

pub open spec fn client_conf_or_default(s: ClientState) -> IpClientConfiguration {
    match s {
        ClientState::Conf(c) => c,
        _ => IpClientConfiguration::DHCP,
    }
}

/// The configuration that the forms describe: the wifi mode of the scope, with the
/// settings of the forms (their defaults where a form reported none), and the IP
/// configurations that the scope edits and that are switched on.
pub open spec fn described_conf(
    scope: WifiConfScope,
    s: FormStates,
    router_enabled: bool,
    client_enabled: bool,
) -> WifiConfView {
    WifiConfView {
        conf: match scope {
            WifiConfScope::Sta(_) => ConfigurationView::Client(sta_conf_or_default(s.sta)),
            WifiConfScope::Ap(_) => ConfigurationView::AccessPoint(ap_conf_or_default(s.ap)),
            WifiConfScope::ApSta(_, _) => ConfigurationView::Mixed(
                sta_conf_or_default(s.sta),
                ap_conf_or_default(s.ap),
            ),
        },
        ap_ip_conf: match ap_ip_scope(scope) {
            WifiIpConfScope::Disabled => None,
            WifiIpConfScope::Enabled => Some(router_conf_or_default(s.router)),
            WifiIpConfScope::Optional => if router_enabled {
                Some(router_conf_or_default(s.router))
            } else {
                None
            },
        },
        sta_ip_conf: match sta_ip_scope(scope) {
            WifiIpConfScope::Disabled => None,
            WifiIpConfScope::Enabled => Some(client_conf_or_default(s.client)),
            WifiIpConfScope::Optional => if client_enabled {
                Some(client_conf_or_default(s.client))
            } else {
                None
            },
        },
    }
}

fn ap_conf_of(s: &ApState) -> (r: AccessPointConfiguration)
    ensures
        r@ == ap_conf_or_default(*s),
{
    match s.conf() {
        Some(c) => c.duplicate(),
        None => AccessPointConfiguration::default(),
    }
}

fn sta_conf_of(s: &StaState) -> (r: StaConfiguration)
    ensures
        r@ == sta_conf_or_default(*s),
{
    match s.conf() {
        Some(c) => c.duplicate(),
        None => StaConfiguration::default(),
    }
}

fn ip_conf_of(
    scope: WifiIpConfScope,
    enabled: bool,
    conf: Option<&RouterConfiguration>,
) -> (r: Option<RouterConfiguration>)
    ensures
        r == match scope {
            WifiIpConfScope::Disabled => None,
            WifiIpConfScope::Enabled => Some(
                match conf {
                    Some(c) => *c,
                    None => RouterConfiguration::spec_default(),
                },
            ),
            WifiIpConfScope::Optional => if enabled {
                Some(
                    match conf {
                        Some(c) => *c,
                        None => RouterConfiguration::spec_default(),
                    },
                )
            } else {
                None
            },
        },
{
    let c = match conf {
        Some(c) => *c,
        None => RouterConfiguration::default(),
    };
    match scope {
        WifiIpConfScope::Disabled => None,
        WifiIpConfScope::Enabled => Some(c),
        WifiIpConfScope::Optional => if enabled {
            Some(c)
        } else {
            None
        },
    }
}

fn client_ip_conf_of(
    scope: WifiIpConfScope,
    enabled: bool,
    conf: Option<&IpClientConfiguration>,
) -> (r: Option<IpClientConfiguration>)
    ensures
        r == match scope {
            WifiIpConfScope::Disabled => None,
            WifiIpConfScope::Enabled => Some(
                match conf {
                    Some(c) => *c,
                    None => IpClientConfiguration::DHCP,
                },
            ),
            WifiIpConfScope::Optional => if enabled {
                Some(
                    match conf {
                        Some(c) => *c,
                        None => IpClientConfiguration::DHCP,
                    },
                )
            } else {
                None
            },
        },
{
    let c = match conf {
        Some(c) => *c,
        None => IpClientConfiguration::DHCP,
    };
    match scope {
        WifiIpConfScope::Disabled => None,
        WifiIpConfScope::Enabled => Some(c),
        WifiIpConfScope::Optional => if enabled {
            Some(c)
        } else {
            None
        },
    }
}

/// Two changes come from the same form.
pub open spec fn same_form(a: Change, b: Change) -> bool {
    ||| a is Ap && b is Ap
    ||| a is Sta && b is Sta
    ||| a is ApIp && b is ApIp
    ||| a is StaIp && b is StaIp
}

/// A form that reports an error puts the screen in error, whatever the other forms
/// report, until it reports again.
pub proof fn law_error_blocks_save(states: FormStates, change: Change, other: Change)
    requires
        change matches Change::Ap(ApState::Errors) || change matches Change::Sta(StaState::Errors)
            || change matches Change::ApIp(RouterState::Errors) || change matches Change::StaIp(ClientState::Errors),
        !same_form(change, other),
    ensures
        any_errors(states_after(states, change)),
        any_errors(states_after(states_after(states, change), other)),
{
}

/// The configuration the forms describe has the wifi mode of the scope, and an
/// interface's IP configuration exactly when its scope edits it and, where that is
/// optional, it is switched on.
pub proof fn law_described_conf_follows_scope(
    scope: WifiConfScope,
    s: FormStates,
    router_enabled: bool,
    client_enabled: bool,
)
    ensures
        ({
            let c = described_conf(scope, s, router_enabled, client_enabled);
            &&& scope is Sta ==> c.conf is Client
            &&& scope is Ap ==> c.conf is AccessPoint
            &&& scope is ApSta ==> c.conf is Mixed
            &&& c.ap_ip_conf is Some <==> (ap_ip_scope(scope) == WifiIpConfScope::Enabled
                || ap_ip_scope(scope) == WifiIpConfScope::Optional && router_enabled)
            &&& c.sta_ip_conf is Some <==> (sta_ip_scope(scope) == WifiIpConfScope::Enabled
                || sta_ip_scope(scope) == WifiIpConfScope::Optional && client_enabled)
        }),
{
}

/// What the setup screen reports for the states of its forms: errors if some form is
/// in error, no change if no form changed, else the configuration they describe.
pub fn wifi_state(
    scope: WifiConfScope,
    s: &FormStates,
    router_enabled: bool,
    client_enabled: bool,
) -> (r: WifiState)
    ensures
        r is Errors <==> any_errors(*s),
        r is Unchanged <==> !any_errors(*s) && all_unchanged(*s),
        r is Errors <==> (s.ap is Errors || s.sta is Errors || s.router is Errors
            || s.client is Errors),
        r is Conf <==> !(s.ap is Errors || s.sta is Errors || s.router is Errors
            || s.client is Errors) && !(s.ap is Unchanged && s.sta is Unchanged
            && s.router is Unchanged && s.client is Unchanged),
        r matches WifiState::Conf(c) ==> c@ == described_conf(
            scope,
            *s,
            router_enabled,
            client_enabled,
        ),
{
    if matches!(s.ap, ApState::Errors) || matches!(s.sta, StaState::Errors) || matches!(
        s.router,
        RouterState::Errors,
    ) || matches!(s.client, ClientState::Errors) {
        return WifiState::Errors;
    }
    if matches!(s.ap, ApState::Unchanged) && matches!(s.sta, StaState::Unchanged) && matches!(
        s.router,
        RouterState::Unchanged,
    ) && matches!(s.client, ClientState::Unchanged) {
        return WifiState::Unchanged;
    }
    let conf = match scope {
        WifiConfScope::Sta(_) => Configuration::Client(sta_conf_of(&s.sta)),
        WifiConfScope::Ap(_) => Configuration::AccessPoint(ap_conf_of(&s.ap)),
        WifiConfScope::ApSta(_, _) => Configuration::Mixed(sta_conf_of(&s.sta), ap_conf_of(&s.ap)),
    };
    let ap_ip_conf = ip_conf_of(scope.get_ap_ip_conf_scope(), router_enabled, s.router.conf());
    let sta_ip_conf = client_ip_conf_of(
        scope.get_sta_ip_conf_scope(),
        client_enabled,
        s.client.conf(),
    );
    WifiState::Conf(WifiConf { conf, ap_ip_conf, sta_ip_conf })
}

/// The access point's IP configuration is reported where the scope edits it: always
/// when its part of the scope is `Enabled`, and while it is switched on when `Optional`.
pub open spec fn ap_ip_reported(scope: WifiConfScope, router_enabled: bool) -> bool {
    ||| scope matches WifiConfScope::Ap(WifiIpConfScope::Enabled)
    ||| scope matches WifiConfScope::ApSta(WifiIpConfScope::Enabled, _)
    ||| router_enabled && scope matches WifiConfScope::Ap(WifiIpConfScope::Optional)
    ||| router_enabled && scope matches WifiConfScope::ApSta(WifiIpConfScope::Optional, _)
}

/// The station's IP configuration is reported where the scope edits it: always when
/// its part of the scope is `Enabled`, and while it is switched on when `Optional`.
pub open spec fn sta_ip_reported(scope: WifiConfScope, client_enabled: bool) -> bool {
    ||| scope matches WifiConfScope::Sta(WifiIpConfScope::Enabled)
    ||| scope matches WifiConfScope::ApSta(_, WifiIpConfScope::Enabled)
    ||| client_enabled && scope matches WifiConfScope::Sta(WifiIpConfScope::Optional)
    ||| client_enabled && scope matches WifiConfScope::ApSta(_, WifiIpConfScope::Optional)
}

/// The access point's IP configuration in the reported settings is the one the router
/// form reports, the default one where that form reports none, and is absent where
/// the scope does not edit it or it is switched off.
pub proof fn law_reported_ap_ip_conf(
    scope: WifiConfScope,
    s: FormStates,
    router_enabled: bool,
    client_enabled: bool,
)
    ensures
        ({
            let c = described_conf(scope, s, router_enabled, client_enabled);
            &&& s.router matches RouterState::Conf(r) ==> (ap_ip_reported(scope, router_enabled)
                ==> c.ap_ip_conf == Some(r))
            &&& ap_ip_reported(scope, router_enabled) && !(s.router is Conf) ==> c.ap_ip_conf
                == Some(RouterConfiguration::spec_default())
            &&& !ap_ip_reported(scope, router_enabled) ==> c.ap_ip_conf is None
        }),
{
}

/// The station's IP configuration in the reported settings is the one the client
/// form reports, DHCP where that form reports none, and is absent where the scope
/// does not edit it or it is switched off.
pub proof fn law_reported_sta_ip_conf(
    scope: WifiConfScope,
    s: FormStates,
    router_enabled: bool,
    client_enabled: bool,
)
    ensures
        ({
            let c = described_conf(scope, s, router_enabled, client_enabled);
            &&& s.client matches ClientState::Conf(r) ==> (sta_ip_reported(scope, client_enabled)
                ==> c.sta_ip_conf == Some(r))
            &&& sta_ip_reported(scope, client_enabled) && !(s.client is Conf) ==> c.sta_ip_conf
                == Some(IpClientConfiguration::DHCP)
            &&& !sta_ip_reported(scope, client_enabled) ==> c.sta_ip_conf is None
        }),
{
}

/// The reported wifi settings have the mode of the scope, and take the access point
/// and station settings that their forms report, the default ones where a form
/// reports none.
pub proof fn law_reported_wifi_mode(
    scope: WifiConfScope,
    s: FormStates,
    router_enabled: bool,
    client_enabled: bool,
)
    ensures
        ({
            let c = described_conf(scope, s, router_enabled, client_enabled);
            let ap = match s.ap {
                ApState::Conf(a) => a@,
                _ => default_ap_conf(),
            };
            let sta = match s.sta {
                StaState::Conf(a) => a@,
                _ => default_sta_conf(),
            };
            &&& scope is Sta ==> c.conf == ConfigurationView::Client(sta)
            &&& scope is Ap ==> c.conf == ConfigurationView::AccessPoint(ap)
            &&& scope is ApSta ==> c.conf == ConfigurationView::Mixed(sta, ap)
        }),
{
}

} // verus!
