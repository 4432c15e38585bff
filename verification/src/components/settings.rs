//! Wifi settings as the access point screen edits them: the access point carries
//! the IP configuration of its interface, and the values of its text inputs.
use vstd::prelude::*;
use vstd::string::*;

use crate::edge::field::opt_view;
use crate::edge::ipv4::{ip_of_text, optional_ip_text, subnet_of_text, validate_ip, RouterConfiguration};
use crate::edge::wifi::{
    auth_of_text, auth_text, default_ap_conf, law_auth_text_round_trip, AccessPointConfiguration, ApConfView, AuthMethod,
    StaConfView, StaConfiguration,
};
use crate::net::{dec3, format_subnet, ipv4_text, law_ipv4_text_injective, parse_subnet, subnet_text, Ipv4Addr, Subnet};
use crate::text::{is_whitespace, lemma_trimmed_idempotent, lemma_trimmed_plain, str_eq, trim, trimmed};

use super::common::{field_loaded, field_read, FieldText, Optional};

verus! {

/// The method whose text `s` is, if it is the text of one.
pub open spec fn auth_named(s: Seq<char>) -> Option<AuthMethod> {
    if auth_text(auth_of_text(s)) == s {
        Some(auth_of_text(s))
    } else {
        None
    }
}

impl AuthMethod {
    /// The method whose text `raw` is, if it is the text of one.
    pub fn parse_text(raw: &str) -> (r: Option<AuthMethod>)
        ensures
            r == auth_named(raw@),
    {
        let m = AuthMethod::from_text(raw);
        if str_eq(m.as_str(), raw) {
            Some(m)
        } else {
            None
        }
    }
}

impl View for AuthMethod {
    type V = AuthMethod;

    open spec fn view(&self) -> AuthMethod {
        *self
    }
}

impl View for Subnet {
    type V = Subnet;

    open spec fn view(&self) -> Subnet {
        *self
    }
}

impl View for Ipv4Addr {
    type V = Ipv4Addr;

    open spec fn view(&self) -> Ipv4Addr {
        *self
    }
}

impl<T: View> View for Optional<T> {
    type V = Option<T::V>;

    open spec fn view(&self) -> Option<T::V> {
        opt_view(self.0)
    }
}

impl FieldText for AuthMethod {
    open spec fn spec_read(s: Seq<char>) -> Option<AuthMethod> {
        auth_named(s)
    }

    open spec fn spec_write(v: AuthMethod) -> Seq<char> {
        auth_text(v)
    }

    fn read(s: &str) -> (r: Option<Self>) {
        AuthMethod::parse_text(s)
    }

    fn write(&self) -> (r: String) {
        self.to_text()
    }
}

impl FieldText for Subnet {
    open spec fn spec_read(s: Seq<char>) -> Option<Subnet> {
        subnet_of_text(s)
    }

    open spec fn spec_write(v: Subnet) -> Seq<char> {
        subnet_text(v)
    }

    fn read(s: &str) -> (r: Option<Self>) {
        match parse_subnet(s) {
            Ok(sn) => Some(sn),
            Err(_) => None,
        }
    }

    fn write(&self) -> (r: String) {
        format_subnet(*self)
    }
}

/// What an optional address input reads: blank text is no address, else the
/// trimmed text must be an address.
pub open spec fn optional_ip_read(s: Seq<char>) -> Option<Option<Ipv4Addr>> {
    let t = trimmed(s);
    if t.len() == 0 {
        Some(None)
    } else {
        match ip_of_text(t) {
            Some(a) => Some(Some(a)),
            None => None,
        }
    }
}

impl FieldText for Optional<Ipv4Addr> {
    open spec fn spec_read(s: Seq<char>) -> Option<Option<Ipv4Addr>> {
        optional_ip_read(s)
    }

    open spec fn spec_write(v: Option<Ipv4Addr>) -> Seq<char> {
        match v {
            Some(a) => ipv4_text(a),
            None => Seq::empty(),
        }
    }

    fn read(s: &str) -> (r: Option<Self>) {
        let t = trim(s);
        if t.unicode_len() == 0 {
            Some(Optional(None))
        } else {
            match validate_ip(t.to_string()) {
                Ok(a) => Some(Optional(Some(a))),
                Err(_) => None,
            }
        }
    }

    fn write(&self) -> (r: String) {
        optional_ip_text(self.0)
    }
}

/// An access point's settings with the IP configuration of its interface.
pub struct ApSettings {
    pub conf: AccessPointConfiguration,
    pub ip_conf: Option<RouterConfiguration>,
}

pub struct ApSettingsView {
    pub conf: ApConfView,
    pub ip_conf: Option<RouterConfiguration>,
}

impl View for ApSettings {
    type V = ApSettingsView;

    open spec fn view(&self) -> ApSettingsView {
        ApSettingsView { conf: self.conf@, ip_conf: self.ip_conf }
    }
}

/// The settings of a new access point: the default ones, with the default IP
/// configuration.
pub open spec fn default_ap_settings() -> ApSettingsView {
    ApSettingsView { conf: default_ap_conf(), ip_conf: Some(RouterConfiguration::spec_default()) }
}

impl Default for ApSettings {
    fn default() -> (r: Self)
        ensures
            r@ == default_ap_settings(),
    {
        ApSettings { conf: AccessPointConfiguration::default(), ip_conf: Some(RouterConfiguration::default()) }
    }
}

/// The wifi mode and its settings, as the access point screen loads and saves them.
pub enum WifiSettings {
    Unconfigured,
    Client(StaConfiguration),
    AccessPoint(ApSettings),
    Mixed(StaConfiguration, ApSettings),
}

pub enum WifiSettingsView {
    Unconfigured,
    Client(StaConfView),
    AccessPoint(ApSettingsView),
    Mixed(StaConfView, ApSettingsView),
}

impl View for WifiSettings {
    type V = WifiSettingsView;

    open spec fn view(&self) -> WifiSettingsView {
        match self {
            WifiSettings::Unconfigured => WifiSettingsView::Unconfigured,
            WifiSettings::Client(c) => WifiSettingsView::Client(c@),
            WifiSettings::AccessPoint(a) => WifiSettingsView::AccessPoint(a@),
            WifiSettings::Mixed(c, a) => WifiSettingsView::Mixed(c@, a@),
        }
    }
}

/// The access point settings of a configuration, if it has an access point.
pub open spec fn ap_of(w: WifiSettingsView) -> Option<ApSettingsView> {
    match w {
        WifiSettingsView::AccessPoint(a) => Some(a),
        WifiSettingsView::Mixed(_, a) => Some(a),
        _ => None,
    }
}

/// The access point settings that an edit starts from: those of the configuration,
/// else the default ones.
pub open spec fn ap_for_edit(w: WifiSettingsView) -> ApSettingsView {
    match ap_of(w) {
        Some(a) => a,
        None => default_ap_settings(),
    }
}

impl WifiSettings {
    pub fn as_ap_conf_ref(&self) -> (r: Option<&ApSettings>)
        ensures
            opt_view(r) == ap_of(self@),
    {
        match self {
            WifiSettings::AccessPoint(a) => Some(a),
            WifiSettings::Mixed(_, a) => Some(a),
            _ => None,
        }
    }

    /// The access point settings, taking them out: those of the configuration, else
    /// the default ones.
    pub fn into_ap_conf(self) -> (r: ApSettings)
        ensures
            r@ == ap_for_edit(self@),
    {
        match self {
            WifiSettings::AccessPoint(a) => a,
            WifiSettings::Mixed(_, a) => a,
            _ => ApSettings::default(),
        }
    }
}

/// One change of the access point settings.
pub enum ApEdit {
    Ssid(String),
    SsidHidden(bool),
    Auth(AuthMethod),
    Password(String),
    Subnet(Subnet),
    DhcpEnabled(bool),
    Dns(Option<Ipv4Addr>),
    SecondaryDns(Option<Ipv4Addr>),
}

pub enum ApEditView {
    Ssid(Seq<char>),
    SsidHidden(bool),
    Auth(AuthMethod),
    Password(Seq<char>),
    Subnet(Subnet),
    DhcpEnabled(bool),
    Dns(Option<Ipv4Addr>),
    SecondaryDns(Option<Ipv4Addr>),
}

impl View for ApEdit {
    type V = ApEditView;

    open spec fn view(&self) -> ApEditView {
        match self {
            ApEdit::Ssid(s) => ApEditView::Ssid(s@),
            ApEdit::SsidHidden(b) => ApEditView::SsidHidden(*b),
            ApEdit::Auth(m) => ApEditView::Auth(*m),
            ApEdit::Password(s) => ApEditView::Password(s@),
            ApEdit::Subnet(s) => ApEditView::Subnet(*s),
            ApEdit::DhcpEnabled(b) => ApEditView::DhcpEnabled(*b),
            ApEdit::Dns(d) => ApEditView::Dns(*d),
            ApEdit::SecondaryDns(d) => ApEditView::SecondaryDns(*d),
        }
    }
}

/// The IP configuration that an edit of it starts from: the one there is, else the
/// default one.
pub open spec fn ip_for_edit(a: ApSettingsView) -> RouterConfiguration {
    match a.ip_conf {
        Some(i) => i,
        None => RouterConfiguration::spec_default(),
    }
}

/// The settings after an edit.
pub open spec fn apply_edit(a: ApSettingsView, e: ApEditView) -> ApSettingsView {
    let ip = ip_for_edit(a);
    match e {
        ApEditView::Ssid(s) => ApSettingsView { conf: ApConfView { ssid: s, ..a.conf }, ..a },
        ApEditView::SsidHidden(b) => ApSettingsView {
            conf: ApConfView { ssid_hidden: b, ..a.conf },
            ..a
        },
        ApEditView::Auth(m) => ApSettingsView {
            conf: ApConfView { auth_method: m, ..a.conf },
            ..a
        },
        ApEditView::Password(s) => ApSettingsView {
            conf: ApConfView { password: s, ..a.conf },
            ..a
        },
        ApEditView::Subnet(s) => ApSettingsView {
            ip_conf: Some(RouterConfiguration { subnet: s, ..ip }),
            ..a
        },
        ApEditView::DhcpEnabled(b) => ApSettingsView {
            ip_conf: Some(RouterConfiguration { dhcp_enabled: b, ..ip }),
            ..a
        },
        ApEditView::Dns(d) => ApSettingsView {
            ip_conf: Some(RouterConfiguration { dns: d, ..ip }),
            ..a
        },
        ApEditView::SecondaryDns(d) => ApSettingsView {
            ip_conf: Some(RouterConfiguration { secondary_dns: d, ..ip }),
            ..a
        },
    }
}

impl ApSettings {
    /// Applies an edit; an edit of the IP configuration creates the default one
    /// where there is none.
    pub fn apply(&mut self, e: ApEdit)
        ensures
            final(self)@ == apply_edit(old(self)@, e@),
    {
        match e {
            ApEdit::Ssid(s) => self.conf.ssid = s,
            ApEdit::SsidHidden(b) => self.conf.ssid_hidden = b,
            ApEdit::Auth(m) => self.conf.auth_method = m,
            ApEdit::Password(s) => self.conf.password = s,
            ApEdit::Subnet(s) => {
                let mut ip = self.ip_or_default();
                ip.subnet = s;
                self.ip_conf = Some(ip);
            },
            ApEdit::DhcpEnabled(b) => {
                let mut ip = self.ip_or_default();
                ip.dhcp_enabled = b;
                self.ip_conf = Some(ip);
            },
            ApEdit::Dns(d) => {
                let mut ip = self.ip_or_default();
                ip.dns = d;
                self.ip_conf = Some(ip);
            },
            ApEdit::SecondaryDns(d) => {
                let mut ip = self.ip_or_default();
                ip.secondary_dns = d;
                self.ip_conf = Some(ip);
            },
        }
    }

    fn ip_or_default(&self) -> (r: RouterConfiguration)
        ensures
            r == ip_for_edit(self@),
    {
        match self.ip_conf {
            Some(i) => i,
            None => RouterConfiguration::default(),
        }
    }
}

/// An input loaded with a method reads back that method.
pub proof fn law_auth_input_round_trip(m: AuthMethod)
    ensures
        field_read::<AuthMethod>(field_loaded::<AuthMethod>(Some(m)).text) == Some(m),
{
    let t = auth_text(m);
    reveal_strlit("none");
    reveal_strlit("wep");
    reveal_strlit("wpa");
    reveal_strlit("wpa2personal");
    reveal_strlit("wpawpa2personal");
    reveal_strlit("wpa2enterprise");
    reveal_strlit("wpa3personal");
    reveal_strlit("wpa2wpa3personal");
    reveal_strlit("wapipersonal");
    assert(!is_whitespace(t[0]));
    assert(!is_whitespace(t.last()));
    lemma_trimmed_plain(t);
    law_auth_text_round_trip(m);
}

/// An optional address input loaded with an address, or with none, reads it back.
pub proof fn law_optional_ip_input_round_trip(a: Option<Ipv4Addr>)
    ensures
        field_read::<Optional<Ipv4Addr>>(field_loaded::<Optional<Ipv4Addr>>(Some(a)).text) == Some(a),
{
    match a {
        Some(x) => {
            let t = ipv4_text(x);
            reveal(ipv4_text);
            assert(t[0] == dec3(x.0 as int)[0]);
            assert(t.last() == dec3(x.3 as int).last());
            lemma_trimmed_plain(t);
            lemma_trimmed_idempotent(t);
            assert forall|b: Ipv4Addr| ipv4_text(b) == t implies b == x by {
                law_ipv4_text_injective(x, b);
            }
        },
        None => {
            assert(trimmed(Seq::<char>::empty()) =~= Seq::<char>::empty());
        },
    }
}

/// The text of an optional address reads back as that address, or as none.
pub proof fn law_optional_text_round_trip(a: Option<Ipv4Addr>)
    ensures
        <Optional<Ipv4Addr> as FieldText>::spec_read(<Optional<Ipv4Addr> as FieldText>::spec_write(a)) == Some(a),
{
    law_optional_ip_input_round_trip(a);
    match a {
        Some(x) => {
            let t = ipv4_text(x);
            reveal(ipv4_text);
            assert(t[0] == dec3(x.0 as int)[0]);
            assert(t.last() == dec3(x.3 as int).last());
            lemma_trimmed_plain(t);
        },
        None => {
            assert(trimmed(Seq::<char>::empty()) =~= Seq::<char>::empty());
        },
    }
}

} // verus!
