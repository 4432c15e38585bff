//! The access point screen: the settings and status it loads from the device, its
//! inputs, how each message changes them, and what the screen shows.
use vstd::prelude::*;

use crate::edge::dto::Role;
use crate::edge::field::opt_view;
use crate::plugin::{opt_text, Category, InsertionPoint, InsertionPoints, SimplePlugin};
use vstd::string::*;
use crate::edge::ipv4::{ClientSettings, RouterConfiguration};
use crate::edge::wifi::{all_auth_methods, auth_text, ApConfView, AuthMethod};
use crate::text::str_eq;
use crate::net::{Ipv4Addr, Subnet};
use crate::edge::ipv4::subnet_of_text;
use crate::text::{lemma_trimmed_idempotent, trimmed};

use super::common::{
    field_loaded, field_read, field_update_value, field_updated, loadable_data, loadable_loaded_result,
    loadable_loading, invalid_format, Editable, Field, FieldView, Loadable, Optional,
};
use super::settings::{ap_for_edit, ap_of, apply_edit, ApEdit, ApEditView, ApSettings, ApSettingsView, WifiSettings, WifiSettingsView};

verus! {

#[derive(Clone, Copy, Debug, PartialEq, Eq, Structural)]
pub enum ClientIpStatus {
    Disabled,
    Waiting,
    Done(ClientSettings),
}

#[derive(Clone, Copy, Debug, PartialEq, Eq, Structural)]
pub enum ClientConnectionStatus {
    Disconnected,
    Connecting,
    Connected(ClientIpStatus),
}

#[derive(Clone, Copy, Debug, PartialEq, Eq, Structural)]
pub enum ClientStatus {
    Stopped,
    Starting,
    Started(ClientConnectionStatus),
}

#[derive(Clone, Copy, Debug, PartialEq, Eq, Structural)]
pub enum ApIpStatus {
    Disabled,
    Waiting,
    Done,
}

#[derive(Clone, Copy, Debug, PartialEq, Eq, Structural)]
pub enum ApStatus {
    Stopped,
    Starting,
    Started(ApIpStatus),
}

/// The status of the station and of the access point.
#[derive(Clone, Copy, Debug, PartialEq, Eq, Structural)]
pub struct WifiStatus(pub ClientStatus, pub ApStatus);

/// The line that describes the access point's status.
pub open spec fn ap_status_text(status: Loadable<WifiStatus>) -> Seq<char> {
    match loadable_data(status) {
        None => "Waiting for status info..."@,
        Some(s) => match s.1 {
            ApStatus::Stopped => "Stopped"@,
            ApStatus::Starting => "Starting..."@,
            ApStatus::Started(ApIpStatus::Disabled) => "Disabled"@,
            ApStatus::Started(ApIpStatus::Waiting) => "Waiting for IP..."@,
            ApStatus::Started(ApIpStatus::Done) => "Connected"@,
        },
    }
}

impl Loadable<WifiStatus> {
    pub fn ap_status_str(&self) -> (r: &'static str)
        ensures
            r@ == ap_status_text(*self),
    {
        match self.data_ref() {
            None => {
                proof { reveal_strlit("Waiting for status info..."); }
                "Waiting for status info..."
            },
            Some(status) => match status.1 {
                ApStatus::Stopped => {
                    proof { reveal_strlit("Stopped"); }
                    "Stopped"
                },
                ApStatus::Starting => {
                    proof { reveal_strlit("Starting..."); }
                    "Starting..."
                },
                ApStatus::Started(ApIpStatus::Disabled) => {
                    proof { reveal_strlit("Disabled"); }
                    "Disabled"
                },
                ApStatus::Started(ApIpStatus::Waiting) => {
                    proof { reveal_strlit("Waiting for IP..."); }
                    "Waiting for IP..."
                },
                ApStatus::Started(ApIpStatus::Done) => {
                    proof { reveal_strlit("Connected"); }
                    "Connected"
                },
            },
        }
    }
}

/// The settings as the screen holds them: whether they were changed, and their view.
pub open spec fn conf_view(c: Loadable<Editable<WifiSettings>>) -> Loadable<(bool, WifiSettingsView)> {
    match c {
        Loadable::Not => Loadable::Not,
        Loadable::Loading(None) => Loadable::Loading(None),
        Loadable::Loading(Some(e)) => Loadable::Loading(Some((e.spec_changed(), e.spec_data()@))),
        Loadable::Loaded(e) => Loadable::Loaded((e.spec_changed(), e.spec_data()@)),
    }
}

/// The access point settings the screen holds, if it holds settings with an access point.
pub open spec fn held_ap(c: Loadable<(bool, WifiSettingsView)>) -> Option<ApSettingsView> {
    match loadable_data(c) {
        Some((_, w)) => ap_of(w),
        None => None,
    }
}

/// The held settings after an access point edit: changed, and holding just the
/// access point, edited.
pub open spec fn edited(c: Loadable<(bool, WifiSettingsView)>, e: ApEditView) -> Loadable<
    (bool, WifiSettingsView),
> {
    match c {
        Loadable::Loaded((_, w)) => Loadable::Loaded(
            (true, WifiSettingsView::AccessPoint(apply_edit(ap_for_edit(w), e))),
        ),
        Loadable::Loading(Some((_, w))) => Loadable::Loading(
            Some((true, WifiSettingsView::AccessPoint(apply_edit(ap_for_edit(w), e)))),
        ),
        other => other,
    }
}

/// Applies an access point edit to the held settings, which must be at hand.
pub fn edit_ap(conf: &mut Loadable<Editable<WifiSettings>>, e: ApEdit)
    requires
        loadable_data(*old(conf)) is Some,
    ensures
        conf_view(*final(conf)) == edited(conf_view(*old(conf)), e@),
{
    let data = conf.data_mut();
    let w = data.as_mut();
    let mut taken = WifiSettings::Unconfigured;
    std::mem::swap(w, &mut taken);
    let mut ap = taken.into_ap_conf();
    ap.apply(e);
    *w = WifiSettings::AccessPoint(ap);
}

/// The inputs of the access point screen.
pub struct ApFields {
    pub ssid: Field<String>,
    pub auth_method: Field<AuthMethod>,
    pub password: Field<String>,
    pub password_confirmed: Field<String>,
    pub subnet: Field<Subnet>,
    pub dns: Field<Optional<Ipv4Addr>>,
    pub secondary_dns: Field<Optional<Ipv4Addr>>,
}

pub struct ApFieldsView {
    pub ssid: FieldView,
    pub auth_method: FieldView,
    pub password: FieldView,
    pub password_confirmed: FieldView,
    pub subnet: FieldView,
    pub dns: FieldView,
    pub secondary_dns: FieldView,
}

impl View for ApFields {
    type V = ApFieldsView;

    open spec fn view(&self) -> ApFieldsView {
        ApFieldsView {
            ssid: self.ssid@,
            auth_method: self.auth_method@,
            password: self.password@,
            password_confirmed: self.password_confirmed@,
            subnet: self.subnet@,
            dns: self.dns@,
            secondary_dns: self.secondary_dns@,
        }
    }
}

pub open spec fn map_ip<A>(a: Option<ApSettingsView>, f: spec_fn(RouterConfiguration) -> A) -> Option<A> {
    match a {
        Some(s) => match s.ip_conf {
            Some(i) => Some(f(i)),
            None => None,
        },
        None => None,
    }
}

/// The inputs after they show the held settings and the held confirmation.
pub open spec fn fields_loaded(c: Loadable<(bool, WifiSettingsView)>, confirmed: Seq<char>) -> ApFieldsView {
    let a = held_ap(c);
    ApFieldsView {
        ssid: field_loaded::<String>(
            match a {
                Some(s) => Some(s.conf.ssid),
                None => None,
            },
        ),
        auth_method: field_loaded::<AuthMethod>(
            match a {
                Some(s) => Some(s.conf.auth_method),
                None => None,
            },
        ),
        password: field_loaded::<String>(
            match a {
                Some(s) => Some(s.conf.password),
                None => None,
            },
        ),
        password_confirmed: field_loaded::<String>(Some(confirmed)),
        subnet: field_loaded::<Subnet>(map_ip(a, |i: RouterConfiguration| i.subnet)),
        dns: field_loaded::<Optional<Ipv4Addr>>(map_ip(a, |i: RouterConfiguration| i.dns)),
        secondary_dns: field_loaded::<Optional<Ipv4Addr>>(
            map_ip(a, |i: RouterConfiguration| i.secondary_dns),
        ),
    }
}

impl Default for ApFields {
    fn default() -> (r: Self)
        ensures
            r@ == (ApFieldsView {
                ssid: FieldView { text: Seq::empty(), error: None },
                auth_method: FieldView { text: Seq::empty(), error: None },
                password: FieldView { text: Seq::empty(), error: None },
                password_confirmed: FieldView { text: Seq::empty(), error: None },
                subnet: FieldView { text: Seq::empty(), error: None },
                dns: FieldView { text: Seq::empty(), error: None },
                secondary_dns: FieldView { text: Seq::empty(), error: None },
            }),
    {
        ApFields {
            ssid: Field::default(),
            auth_method: Field::default(),
            password: Field::default(),
            password_confirmed: Field::default(),
            subnet: Field::default(),
            dns: Field::default(),
            secondary_dns: Field::default(),
        }
    }
}

impl ApFields {
    /// Shows the held settings and the held confirmation in the inputs.
    pub fn load(&mut self, conf: &Loadable<Editable<WifiSettings>>, confirmed: &String)
        ensures
            final(self)@ == fields_loaded(conf_view(*conf), confirmed@),
    {
        let ap = match conf.data_ref() {
            Some(e) => e.as_ref().as_ap_conf_ref(),
            None => None,
        };
        match ap {
            Some(a) => {
                self.ssid.load(Some(a.conf.ssid.clone()));
                self.auth_method.load(Some(a.conf.auth_method));
                self.password.load(Some(a.conf.password.clone()));
                match a.ip_conf {
                    Some(i) => {
                        self.subnet.load(Some(i.subnet));
                        self.dns.load(Some(Optional(i.dns)));
                        self.secondary_dns.load(Some(Optional(i.secondary_dns)));
                    },
                    None => {
                        self.subnet.load(None);
                        self.dns.load(None);
                        self.secondary_dns.load(None);
                    },
                }
            },
            None => {
                self.ssid.load(None);
                self.auth_method.load(None);
                self.password.load(None);
                self.subnet.load(None);
                self.dns.load(None);
                self.secondary_dns.load(None);
            },
        }
        self.password_confirmed.load(Some(confirmed.clone()));
    }
}

/// What the screen can be told: to fetch or take the settings or the status, or
/// that an input changed.
pub enum Msg {
    GetConfiguration,
    GotConfiguration(Result<WifiSettings, String>),
    GetStatus,
    GotStatus(Result<WifiStatus, String>),
    SSIDChanged(String),
    SSIDHiddenChanged(bool),
    AuthMethodChanged(AuthMethod),
    PasswordChanged(String),
    PasswordConfirmedChanged(String),
    SubnetChanged(String),
    DHCPEnabledChanged(bool),
    DnsChanged(String),
    SecondaryDnsChanged(String),
    Nothing,
}

/// Device requests that the screen asks its host to make; their replies come back as
/// `GotConfiguration` and `GotStatus`.
#[derive(Clone, Copy, Debug, PartialEq, Eq, Structural)]
pub enum Command {
    FetchConfiguration,
    FetchStatus,
}

/// The access point screen.
pub struct WiFiAp {
    pub conf: Loadable<Editable<WifiSettings>>,
    pub status: Loadable<WifiStatus>,
    pub fields: ApFields,
    pub password_confirmed: String,
}

pub struct WiFiApView {
    pub conf: Loadable<(bool, WifiSettingsView)>,
    pub status: Loadable<WifiStatus>,
    pub fields: ApFieldsView,
    pub password_confirmed: Seq<char>,
}

impl View for WiFiAp {
    type V = WiFiApView;

    open spec fn view(&self) -> WiFiApView {
        WiFiApView {
            conf: conf_view(self.conf),
            status: self.status,
            fields: self.fields@,
            password_confirmed: self.password_confirmed@,
        }
    }
}

/// The screen after an input's edit hands `value` to the model through `edit`.
pub open spec fn with_ap_value<V>(v: WiFiApView, value: Option<V>, edit: spec_fn(V) -> ApEditView) -> Loadable<
    (bool, WifiSettingsView),
> {
    match value {
        Some(d) => edited(v.conf, edit(d)),
        None => v.conf,
    }
}

/// How a message changes the screen.
pub open spec fn next(v: WiFiApView, m: Msg) -> WiFiApView {
    let f = v.fields;
    match m {
        Msg::GetConfiguration => WiFiApView { conf: loadable_loading(v.conf), ..v },
        Msg::GotConfiguration(r) => {
            let c = loadable_loaded_result(
                v.conf,
                match r {
                    Ok(w) => Ok::<(bool, WifiSettingsView), Seq<char>>((false, w@)),
                    Err(e) => Err::<(bool, WifiSettingsView), Seq<char>>(e@),
                },
            );
            WiFiApView { conf: c, fields: fields_loaded(c, v.password_confirmed), ..v }
        },
        Msg::GetStatus => WiFiApView { status: loadable_loading(v.status), ..v },
        Msg::GotStatus(r) => WiFiApView {
            status: loadable_loaded_result(
                v.status,
                match r {
                    Ok(s) => Ok::<WifiStatus, Seq<char>>(s),
                    Err(e) => Err::<WifiStatus, Seq<char>>(e@),
                },
            ),
            fields: fields_loaded(v.conf, v.password_confirmed),
            ..v
        },
        Msg::SSIDChanged(s) => WiFiApView {
            fields: ApFieldsView { ssid: field_updated::<String>(f.ssid, s@), ..f },
            conf: with_ap_value(
                v,
                field_update_value::<String>(f.ssid, s@),
                |d: Seq<char>| ApEditView::Ssid(d),
            ),
            ..v
        },
        Msg::SSIDHiddenChanged(b) => WiFiApView {
            conf: edited(v.conf, ApEditView::SsidHidden(b)),
            ..v
        },
        Msg::AuthMethodChanged(a) => WiFiApView {
            fields: ApFieldsView {
                auth_method: field_updated::<AuthMethod>(f.auth_method, auth_text(a)),
                ..f
            },
            conf: with_ap_value(
                v,
                field_update_value::<AuthMethod>(f.auth_method, auth_text(a)),
                |d: AuthMethod| ApEditView::Auth(d),
            ),
            ..v
        },
        Msg::PasswordChanged(s) => WiFiApView {
            fields: ApFieldsView { password: field_updated::<String>(f.password, s@), ..f },
            conf: with_ap_value(
                v,
                field_update_value::<String>(f.password, s@),
                |d: Seq<char>| ApEditView::Password(d),
            ),
            ..v
        },
        Msg::PasswordConfirmedChanged(s) => WiFiApView {
            fields: ApFieldsView {
                password_confirmed: field_updated::<String>(f.password_confirmed, s@),
                ..f
            },
            password_confirmed: match field_update_value::<String>(f.password_confirmed, s@) {
                Some(d) => d,
                None => v.password_confirmed,
            },
            ..v
        },
        Msg::SubnetChanged(s) => WiFiApView {
            fields: ApFieldsView { subnet: field_updated::<Subnet>(f.subnet, s@), ..f },
            conf: with_ap_value(
                v,
                field_update_value::<Subnet>(f.subnet, s@),
                |d: Subnet| ApEditView::Subnet(d),
            ),
            ..v
        },
        Msg::DHCPEnabledChanged(b) => WiFiApView {
            conf: edited(v.conf, ApEditView::DhcpEnabled(b)),
            ..v
        },
        Msg::DnsChanged(s) => WiFiApView {
            fields: ApFieldsView { dns: field_updated::<Optional<Ipv4Addr>>(f.dns, s@), ..f },
            conf: with_ap_value(
                v,
                field_update_value::<Optional<Ipv4Addr>>(f.dns, s@),
                |d: Option<Ipv4Addr>| ApEditView::Dns(d),
            ),
            ..v
        },
        Msg::SecondaryDnsChanged(s) => WiFiApView {
            fields: ApFieldsView {
                secondary_dns: field_updated::<Optional<Ipv4Addr>>(f.secondary_dns, s@),
                ..f
            },
            conf: with_ap_value(
                v,
                field_update_value::<Optional<Ipv4Addr>>(f.secondary_dns, s@),
                |d: Option<Ipv4Addr>| ApEditView::SecondaryDns(d),
            ),
            ..v
        },
        Msg::Nothing => v,
    }
}

/// The message would write to settings that are not at hand: an input whose new
/// text reads as a value, or a switch, while no settings are loaded. The screen
/// disables its inputs then.
pub open spec fn writes_without_settings(v: WiFiApView, m: Msg) -> bool {
    let f = v.fields;
    let writes = match m {
        Msg::SSIDChanged(s) => field_update_value::<String>(f.ssid, s@) is Some,
        Msg::SSIDHiddenChanged(_) => true,
        Msg::AuthMethodChanged(a) => field_update_value::<AuthMethod>(f.auth_method, auth_text(a)) is Some,
        Msg::PasswordChanged(s) => field_update_value::<String>(f.password, s@) is Some,
        Msg::SubnetChanged(s) => field_update_value::<Subnet>(f.subnet, s@) is Some,
        Msg::DHCPEnabledChanged(_) => true,
        Msg::DnsChanged(s) => field_update_value::<Optional<Ipv4Addr>>(f.dns, s@) is Some,
        Msg::SecondaryDnsChanged(s) => field_update_value::<Optional<Ipv4Addr>>(
            f.secondary_dns,
            s@,
        ) is Some,
        _ => false,
    };
    writes && loadable_data(v.conf) is None
}

/// Whether the screen redraws after a message, and the request it asks for.
pub struct Outcome {
    pub render: bool,
    pub command: Option<Command>,
}

pub open spec fn outcome_of(m: Msg) -> Outcome {
    Outcome {
        render: !(m is Nothing),
        command: match m {
            Msg::GetConfiguration => Some(Command::FetchConfiguration),
            Msg::GetStatus => Some(Command::FetchStatus),
            _ => None,
        },
    }
}

impl WiFiAp {
    /// A new screen: nothing loaded, empty inputs; its host then sends
    /// `GetConfiguration` and `GetStatus`.
    pub fn create() -> (r: Self)
        ensures
            r@.conf is Not,
            r@.status is Not,
            r@.password_confirmed == Seq::<char>::empty(),
            r@.fields == fields_loaded(Loadable::Not, Seq::<char>::empty()),
    {
        let mut wifi = WiFiAp {
            conf: Loadable::Not,
            status: Loadable::Not,
            fields: ApFields::default(),
            password_confirmed: String::new(),
        };
        wifi.fields.load(&wifi.conf, &wifi.password_confirmed);
        wifi
    }

    /// Both the settings and the status are at hand.
    pub fn is_loaded(&self) -> (r: bool)
        ensures
            r == (loadable_data(self@.conf) is Some && loadable_data(self@.status) is Some),
    {
        self.conf.is_loaded() && self.status.is_loaded()
    }

    /// Whether the message would write to settings that are not at hand, as
    /// `writes_without_settings` says.
    pub fn writes_without_settings(&self, msg: &Msg) -> (r: bool)
        ensures
            r == writes_without_settings(self@, *msg),
    {
        let f = &self.fields;
        let writes = match msg {
            Msg::SSIDChanged(s) => f.ssid.update_gives_value(s.as_str()),
            Msg::SSIDHiddenChanged(_) => true,
            Msg::AuthMethodChanged(a) => f.auth_method.update_gives_value(a.as_str()),
            Msg::PasswordChanged(s) => f.password.update_gives_value(s.as_str()),
            Msg::SubnetChanged(s) => f.subnet.update_gives_value(s.as_str()),
            Msg::DHCPEnabledChanged(_) => true,
            Msg::DnsChanged(s) => f.dns.update_gives_value(s.as_str()),
            Msg::SecondaryDnsChanged(s) => f.secondary_dns.update_gives_value(s.as_str()),
            _ => false,
        };
        writes && !self.conf.is_loaded()
    }

    /// Takes a message.
    pub fn update(&mut self, msg: Msg) -> (r: Outcome)
        requires
            !writes_without_settings(old(self)@, msg),
        ensures
            final(self)@ == next(old(self)@, msg),
            r == outcome_of(msg),
    {
        match msg {
            Msg::GetConfiguration => {
                self.conf.loading();
                Outcome { render: true, command: Some(Command::FetchConfiguration) }
            },
            Msg::GotConfiguration(result) => {
                let r = match result {
                    Ok(data) => Ok(Editable::new(data)),
                    Err(e) => Err(e),
                };
                self.conf.loaded_result(r);
                self.fields.load(&self.conf, &self.password_confirmed);
                Outcome { render: true, command: None }
            },
            Msg::GetStatus => {
                self.status.loading();
                Outcome { render: true, command: Some(Command::FetchStatus) }
            },
            Msg::GotStatus(result) => {
                self.status.loaded_result(result);
                self.fields.load(&self.conf, &self.password_confirmed);
                Outcome { render: true, command: None }
            },
            Msg::SSIDChanged(value) => {
                if let Some(d) = self.fields.ssid.update(value.as_str()) {
                    edit_ap(&mut self.conf, ApEdit::Ssid(d));
                }
                Outcome { render: true, command: None }
            },
            Msg::SSIDHiddenChanged(value) => {
                edit_ap(&mut self.conf, ApEdit::SsidHidden(value));
                Outcome { render: true, command: None }
            },
            Msg::AuthMethodChanged(value) => {
                let text = value.to_text();
                if let Some(d) = self.fields.auth_method.update(text.as_str()) {
                    edit_ap(&mut self.conf, ApEdit::Auth(d));
                }
                Outcome { render: true, command: None }
            },
            Msg::PasswordChanged(value) => {
                if let Some(d) = self.fields.password.update(value.as_str()) {
                    edit_ap(&mut self.conf, ApEdit::Password(d));
                }
                Outcome { render: true, command: None }
            },
            Msg::PasswordConfirmedChanged(value) => {
                if let Some(d) = self.fields.password_confirmed.update(value.as_str()) {
                    self.password_confirmed = d;
                }
                Outcome { render: true, command: None }
            },
            Msg::SubnetChanged(value) => {
                if let Some(d) = self.fields.subnet.update(value.as_str()) {
                    edit_ap(&mut self.conf, ApEdit::Subnet(d));
                }
                Outcome { render: true, command: None }
            },
            Msg::DHCPEnabledChanged(value) => {
                edit_ap(&mut self.conf, ApEdit::DhcpEnabled(value));
                Outcome { render: true, command: None }
            },
            Msg::DnsChanged(value) => {
                if let Some(d) = self.fields.dns.update(value.as_str()) {
                    edit_ap(&mut self.conf, ApEdit::Dns(d.0));
                }
                Outcome { render: true, command: None }
            },
            Msg::SecondaryDnsChanged(value) => {
                if let Some(d) = self.fields.secondary_dns.update(value.as_str()) {
                    edit_ap(&mut self.conf, ApEdit::SecondaryDns(d.0));
                }
                Outcome { render: true, command: None }
            },
            Msg::Nothing => Outcome { render: false, command: None },
        }
    }

    /// Takes new properties: a new device address drops the held settings and shows
    /// empty inputs again.
    pub fn change(&mut self, endpoint_changed: bool) -> (r: bool)
        ensures
            r == endpoint_changed,
            endpoint_changed ==> final(self)@ == (WiFiApView {
                conf: Loadable::Not,
                fields: fields_loaded(Loadable::Not, old(self)@.password_confirmed),
                ..old(self)@
            }),
            !endpoint_changed ==> final(self)@ == old(self)@,
    {
        if endpoint_changed {
            self.conf = Loadable::Not;
            self.fields.load(&self.conf, &self.password_confirmed);
            true
        } else {
            false
        }
    }
}

/// What the access point screen shows, apart from the inputs' texts and errors.
pub struct ApScreen {
    pub status: &'static str,
    pub disabled: bool,
    pub hidden_checked: bool,
    pub dhcp_checked: bool,
    pub show_password: bool,
    pub password_label: &'static str,
    pub confirm_label: &'static str,
}

/// The method the authentication input reads as.
pub open spec fn shown_auth(v: WiFiApView) -> Option<AuthMethod> {
    field_read::<AuthMethod>(v.fields.auth_method.text)
}

impl WiFiAp {
    /// What the screen shows: the status line; inputs disabled until the settings and
    /// the status are at hand; the switches as the held access point settings have
    /// them; the password inputs unless the open method is selected, labelled for a
    /// key when WEP is.
    pub fn screen(&self) -> (r: ApScreen)
        ensures
            r.status@ == ap_status_text(self@.status),
            r.disabled == !(loadable_data(self@.conf) is Some && loadable_data(self@.status) is Some),
            r.hidden_checked == match held_ap(self@.conf) {
                Some(a) => a.conf.ssid_hidden,
                None => false,
            },
            r.dhcp_checked == match map_ip(held_ap(self@.conf), |i: RouterConfiguration| i.dhcp_enabled) {
                Some(b) => b,
                None => false,
            },
            r.show_password == (shown_auth(self@) != Some(AuthMethod::Open)),
            r.password_label@ == if shown_auth(self@) == Some(AuthMethod::WEP) {
                "Key"@
            } else {
                "Password"@
            },
            r.confirm_label@ == if shown_auth(self@) == Some(AuthMethod::WEP) {
                "Confirm Key"@
            } else {
                "Confirm Password"@
            },
    {
        let ap = match self.conf.data_ref() {
            Some(e) => e.as_ref().as_ap_conf_ref(),
            None => None,
        };
        let hidden_checked = match ap {
            Some(a) => a.conf.ssid_hidden,
            None => false,
        };
        let dhcp_checked = match ap {
            Some(a) => match a.ip_conf {
                Some(i) => i.dhcp_enabled,
                None => false,
            },
            None => false,
        };
        let auth = self.fields.auth_method.get_value();
        let wep = match auth {
            Some(m) => m == AuthMethod::WEP,
            None => false,
        };
        let open = match auth {
            Some(m) => m == AuthMethod::Open,
            None => false,
        };
        proof {
            reveal_strlit("Key");
            reveal_strlit("Password");
            reveal_strlit("Confirm Key");
            reveal_strlit("Confirm Password");
        }
        ApScreen {
            status: self.status.ap_status_str(),
            disabled: !self.is_loaded(),
            hidden_checked,
            dhcp_checked,
            show_password: !open,
            password_label: if wep { "Key" } else { "Password" },
            confirm_label: if wep { "Confirm Key" } else { "Confirm Password" },
        }
    }
}

/// A network name entered while settings are held becomes, trimmed, the name of
/// the held access point, which then holds the access point alone and counts as
/// changed; the input shows the trimmed text without error.
pub proof fn law_ssid_edit_reaches_settings(v: WiFiApView, s: String)
    requires
        loadable_data(v.conf) is Some,
        trimmed(s@) != v.fields.ssid.text,
    ensures
        ({
            let n = next(v, Msg::SSIDChanged(s));
            &&& loadable_data(n.conf) matches Some((changed, w)) && changed && w
                == WifiSettingsView::AccessPoint(
                apply_edit(ap_for_edit((loadable_data(v.conf)->0).1), ApEditView::Ssid(trimmed(s@))),
            )
            &&& held_ap(n.conf) matches Some(a) && a.conf.ssid == trimmed(s@)
            &&& n.fields.ssid == (FieldView { text: trimmed(s@), error: None })
        }),
{
    lemma_trimmed_idempotent(s@);
}

/// A subnet entered that does not read as one leaves the held settings as they
/// were, and the input shows the text with the format error.
pub proof fn law_refused_subnet_keeps_settings(v: WiFiApView, s: String)
    requires
        trimmed(s@) != v.fields.subnet.text,
        subnet_of_text(trimmed(s@)) is None,
    ensures
        next(v, Msg::SubnetChanged(s)).conf == v.conf,
        next(v, Msg::SubnetChanged(s)).fields.subnet == (FieldView {
            text: trimmed(s@),
            error: Some(invalid_format()),
        }),
{
    lemma_trimmed_idempotent(s@);
}

/// A fetch of the settings that fails leaves the settings held before it, and the
/// inputs show them.
pub proof fn law_failed_fetch_keeps_settings(v: WiFiApView, e: String)
    ensures
        ({
            let n = next(next(v, Msg::GetConfiguration), Msg::GotConfiguration(Err(e)));
            &&& loadable_data(n.conf) == loadable_data(v.conf)
            &&& n.fields == fields_loaded(n.conf, v.password_confirmed)
        }),
{
}

/// The access point settings an edit starts from: those the screen holds, else the
/// default ones.
pub open spec fn edit_base(v: WiFiApView) -> ApSettingsView {
    ap_for_edit((loadable_data(v.conf)->0).1)
}

/// The IP configuration an edit starts from: that of the held access point, else
/// the default one.
pub open spec fn edit_base_ip(v: WiFiApView) -> RouterConfiguration {
    match edit_base(v).ip_conf {
        Some(i) => i,
        None => RouterConfiguration::spec_default(),
    }
}

/// After message `m` the screen holds changed settings with just an access point,
/// namely `a`.
pub open spec fn holds_edited(v: WiFiApView, m: Msg, a: ApSettingsView) -> bool {
    let n = next(v, m);
    &&& loadable_data(n.conf) matches Some((changed, w)) && changed
    &&& held_ap(n.conf) == Some(a)
}

/// A name server entered while settings are held, that reads as an address or as
/// none, becomes the name server of the held access point; its secondary name server,
/// subnet, DHCP switch and radio settings stay as they were.
pub proof fn law_dns_edit_reaches_settings(v: WiFiApView, s: String, d: Option<Ipv4Addr>)
    requires
        loadable_data(v.conf) is Some,
        field_update_value::<Optional<Ipv4Addr>>(v.fields.dns, s@) == Some(d),
    ensures
        holds_edited(
            v,
            Msg::DnsChanged(s),
            ApSettingsView {
                conf: edit_base(v).conf,
                ip_conf: Some(RouterConfiguration { dns: d, ..edit_base_ip(v) }),
            },
        ),
{
}

/// A secondary name server entered while settings are held, that reads as an
/// address or as none, becomes the secondary name server of the held access point;
/// its name server, subnet, DHCP switch and radio settings stay as they were.
pub proof fn law_secondary_dns_edit_reaches_settings(
    v: WiFiApView,
    s: String,
    d: Option<Ipv4Addr>,
)
    requires
        loadable_data(v.conf) is Some,
        field_update_value::<Optional<Ipv4Addr>>(v.fields.secondary_dns, s@) == Some(d),
    ensures
        holds_edited(
            v,
            Msg::SecondaryDnsChanged(s),
            ApSettingsView {
                conf: edit_base(v).conf,
                ip_conf: Some(RouterConfiguration { secondary_dns: d, ..edit_base_ip(v) }),
            },
        ),
{
}

/// A subnet entered while settings are held, that reads as one, becomes the subnet
/// of the held access point; the rest of its settings stay as they were.
pub proof fn law_subnet_edit_reaches_settings(v: WiFiApView, s: String, sn: Subnet)
    requires
        loadable_data(v.conf) is Some,
        field_update_value::<Subnet>(v.fields.subnet, s@) == Some(sn),
    ensures
        holds_edited(
            v,
            Msg::SubnetChanged(s),
            ApSettingsView {
                conf: edit_base(v).conf,
                ip_conf: Some(RouterConfiguration { subnet: sn, ..edit_base_ip(v) }),
            },
        ),
{
}

/// The DHCP switch, flipped while settings are held, sets the DHCP server of the
/// held access point; the rest of its settings stay as they were.
pub proof fn law_dhcp_switch_reaches_settings(v: WiFiApView, b: bool)
    requires
        loadable_data(v.conf) is Some,
    ensures
        holds_edited(
            v,
            Msg::DHCPEnabledChanged(b),
            ApSettingsView {
                conf: edit_base(v).conf,
                ip_conf: Some(RouterConfiguration { dhcp_enabled: b, ..edit_base_ip(v) }),
            },
        ),
{
}

/// The hidden-name switch, flipped while settings are held, sets whether the held
/// access point hides its name; the rest of its settings stay as they were.
pub proof fn law_hidden_switch_reaches_settings(v: WiFiApView, b: bool)
    requires
        loadable_data(v.conf) is Some,
    ensures
        holds_edited(
            v,
            Msg::SSIDHiddenChanged(b),
            ApSettingsView {
                conf: ApConfView { ssid_hidden: b, ..edit_base(v).conf },
                ip_conf: edit_base(v).ip_conf,
            },
        ),
{
}

/// A password entered while settings are held becomes the password of the held
/// access point; the rest of its settings stay as they were.
pub proof fn law_password_edit_reaches_settings(v: WiFiApView, s: String, p: Seq<char>)
    requires
        loadable_data(v.conf) is Some,
        field_update_value::<String>(v.fields.password, s@) == Some(p),
    ensures
        holds_edited(
            v,
            Msg::PasswordChanged(s),
            ApSettingsView {
                conf: ApConfView { password: p, ..edit_base(v).conf },
                ip_conf: edit_base(v).ip_conf,
            },
        ),
{
}

/// An authentication method chosen while settings are held, that the input reads,
/// becomes the method of the held access point; the rest of its settings stay as
/// they were.
pub proof fn law_auth_edit_reaches_settings(v: WiFiApView, m: AuthMethod, x: AuthMethod)
    requires
        loadable_data(v.conf) is Some,
        field_update_value::<AuthMethod>(v.fields.auth_method, auth_text(m)) == Some(x),
    ensures
        holds_edited(
            v,
            Msg::AuthMethodChanged(m),
            ApSettingsView {
                conf: ApConfView { auth_method: x, ..edit_base(v).conf },
                ip_conf: edit_base(v).ip_conf,
            },
        ),
{
}

/// A name server text that does not read as a new value leaves the held settings
/// as they were; so does such a secondary name server text.
pub proof fn law_unread_dns_keeps_settings(v: WiFiApView, s: String)
    ensures
        field_update_value::<Optional<Ipv4Addr>>(v.fields.dns, s@) is None ==> next(
            v,
            Msg::DnsChanged(s),
        ).conf == v.conf,
        field_update_value::<Optional<Ipv4Addr>>(v.fields.secondary_dns, s@) is None ==> next(
            v,
            Msg::SecondaryDnsChanged(s),
        ).conf == v.conf,
{
}

/// Fetched settings are held unchanged, and the inputs show them: the network name,
/// method and password of their access point, and its subnet and name servers.
pub proof fn law_fetched_settings_are_shown(v: WiFiApView, w: WifiSettings)
    ensures
        ({
            let n = next(v, Msg::GotConfiguration(Ok(w)));
            &&& loadable_data(n.conf) == Some((false, w@))
            &&& held_ap(n.conf) == ap_of(w@)
            &&& ap_of(w@) matches Some(a) ==> {
                &&& n.fields.ssid == field_loaded::<String>(Some(a.conf.ssid))
                &&& n.fields.password == field_loaded::<String>(Some(a.conf.password))
                &&& n.fields.auth_method == field_loaded::<AuthMethod>(Some(a.conf.auth_method))
                &&& a.ip_conf matches Some(i) ==> {
                    &&& n.fields.subnet == field_loaded::<Subnet>(Some(i.subnet))
                    &&& n.fields.dns == field_loaded::<Optional<Ipv4Addr>>(Some(i.dns))
                    &&& n.fields.secondary_dns == field_loaded::<Optional<Ipv4Addr>>(
                        Some(i.secondary_dns),
                    )
                }
            }
        }),
{
}

/// Asking for the settings or the status starts that fetch and keeps what is held;
/// every message but `Nothing` redraws the screen, and only those two ask for a request.
pub proof fn law_fetch_requests(v: WiFiApView, m: Msg)
    ensures
        m is GetConfiguration ==> outcome_of(m).command == Some(Command::FetchConfiguration)
            && loadable_data(next(v, m).conf) == loadable_data(v.conf),
        m is GetStatus ==> outcome_of(m).command == Some(Command::FetchStatus) && next(v, m).conf
            == v.conf,
        !(m is GetConfiguration || m is GetStatus) ==> outcome_of(m).command is None,
        outcome_of(m).render == !(m is Nothing),
{
}

/// A confirmation entered changes the confirmation the screen holds, if it reads as
/// a new text, and never the held settings.
pub proof fn law_confirmation_edit_keeps_settings(v: WiFiApView, s: String)
    ensures
        next(v, Msg::PasswordConfirmedChanged(s)).conf == v.conf,
        field_update_value::<String>(v.fields.password_confirmed, s@) matches Some(d)
            ==> next(v, Msg::PasswordConfirmedChanged(s)).password_confirmed == d,
{
}

/// The access point screen as a plugin: a settings entry for administrators, in the
/// navigation and among the status items.
pub fn plugin() -> (r: SimplePlugin<bool>)
    ensures
        r.name@ == "WiFi Ap"@,
        opt_text(r.description) == Some("A settings user interface for configuring WiFi Access Point"@),
        opt_text(r.icon) == Some("wifi"@),
        r.min_role == Role::Admin,
        r.insertion_points == (InsertionPoints { navigation: true, status: true }),
        r.category == Category::Settings,
        r.route == true,
{
    proof {
        reveal_strlit("WiFi Ap");
        reveal_strlit("A settings user interface for configuring WiFi Access Point");
        reveal_strlit("wifi");
    }
    SimplePlugin {
        name: String::from_str("WiFi Ap"),
        description: Some(String::from_str("A settings user interface for configuring WiFi Access Point")),
        icon: Some(String::from_str("wifi")),
        min_role: Role::Admin,
        insertion_points: InsertionPoints::only(InsertionPoint::Navigation).union(
            &InsertionPoints::only(InsertionPoint::Status),
        ),
        category: Category::Settings,
        route: true,
    }
}

/// The entries of the authentication list: every method, in list order, marked
/// selected when its text is the text of the selected method.
pub fn auth_choices(selected: Option<AuthMethod>) -> (r: Vec<(AuthMethod, bool)>)
    ensures
        r@.len() == all_auth_methods().len(),
        forall|i: int| 0 <= i < r@.len() ==> (#[trigger] r@[i]).0 == all_auth_methods()[i]
            && r@[i].1 == (selected matches Some(m) && auth_text(m) == auth_text(all_auth_methods()[i])),
{
    let all = AuthMethod::iter();
    let mut r: Vec<(AuthMethod, bool)> = Vec::new();
    let mut i: usize = 0;
    while i < all.len()
        invariant
            all@ == all_auth_methods(),
            i <= all.len(),
            r@.len() == i,
            forall|j: int| 0 <= j < i ==> (#[trigger] r@[j]).0 == all_auth_methods()[j]
                && r@[j].1 == (selected matches Some(m) && auth_text(m) == auth_text(all_auth_methods()[j])),
        decreases all.len() - i,
    {
        let m = all[i];
        let chosen = match selected {
            Some(s) => str_eq(s.as_str(), m.as_str()),
            None => false,
        };
        r.push((m, chosen));
        i = i + 1;
    }
    r
}

} // verus!
