//! The wifi settings page: the access point form, what the page shows, and how the
//! page takes the settings it fetches, the forms' changes and a save.
use vstd::prelude::*;

use crate::edge::field::opt_view;
use crate::edge::ipv4::{
    law_optional_ip_round_trip, optional_ip_of_text, optional_ip_text, subnet_of_text, validate_optional_ip, validate_subnet,
    RouterConfiguration,
};
use crate::edge::wifi::ap::{confirm_error_text, password_error_text, validate_password, validate_password_confirm};
use crate::edge::wifi::{
    auth_of_text, auth_text, default_ap_conf, law_auth_text_round_trip, default_sta_conf, AccessPointConfiguration,
    ApConfView, AuthMethod, StaConfView, StaConfiguration,
};
use crate::net::{format_subnet, ipv4_text, law_subnet_text_round_trip, lemma_no_slash_refused, subnet_text};

use super::field::{CheckedInput, InputField, TextInput};
use super::settings::{ap_for_edit, ap_of, default_ap_settings, ApSettings, ApSettingsView, WifiSettings, WifiSettingsView};

verus! {

/// The access point form.
pub struct ApConfForm {
    pub ssid: TextInput,
    pub hidden_ssid: CheckedInput,
    pub auth: TextInput,
    pub password: TextInput,
    pub password_confirm: TextInput,
    pub ip_conf_enabled: CheckedInput,
    pub dhcp_server_enabled: CheckedInput,
    pub subnet: TextInput,
    pub dns: TextInput,
    pub secondary_dns: TextInput,
}

/// The raw values of the access point form.
pub struct ApConfFormView {
    pub ssid: Seq<char>,
    pub hidden_ssid: bool,
    pub auth: Seq<char>,
    pub password: Seq<char>,
    pub password_confirm: Seq<char>,
    pub ip_conf_enabled: bool,
    pub dhcp_server_enabled: bool,
    pub subnet: Seq<char>,
    pub dns: Seq<char>,
    pub secondary_dns: Seq<char>,
}

impl View for ApConfForm {
    type V = ApConfFormView;

    open spec fn view(&self) -> ApConfFormView {
        ApConfFormView {
            ssid: self.ssid.raw@,
            hidden_ssid: self.hidden_ssid.raw,
            auth: self.auth.raw@,
            password: self.password.raw@,
            password_confirm: self.password_confirm.raw@,
            ip_conf_enabled: self.ip_conf_enabled.raw,
            dhcp_server_enabled: self.dhcp_server_enabled.raw,
            subnet: self.subnet.raw@,
            dns: self.dns.raw@,
            secondary_dns: self.secondary_dns.raw@,
        }
    }
}

/// The inputs in error: an empty password, a confirmation that is not the
/// password, a subnet that does not read, an address that is neither blank nor an
/// address. The network name, the method and the switches accept any value.
pub open spec fn password_error(f: ApConfFormView) -> bool {
    f.password.len() == 0
}

pub open spec fn confirm_error(f: ApConfFormView) -> bool {
    f.password_confirm != f.password
}

pub open spec fn subnet_error(f: ApConfFormView) -> bool {
    subnet_of_text(f.subnet) is None
}

pub open spec fn dns_error(f: ApConfFormView) -> bool {
    optional_ip_of_text(f.dns) is None
}

pub open spec fn secondary_dns_error(f: ApConfFormView) -> bool {
    optional_ip_of_text(f.secondary_dns) is None
}

pub open spec fn form_errors(f: ApConfFormView) -> bool {
    password_error(f) || confirm_error(f) || subnet_error(f) || dns_error(f) || secondary_dns_error(f)
}

/// The settings the form describes: none while an input is in error; else the
/// network name, visibility, method and password over the default access point
/// settings, and the IP configuration when it is enabled.
pub open spec fn form_settings(f: ApConfFormView) -> Option<ApSettingsView> {
    if form_errors(f) {
        None
    } else {
        Some(
            ApSettingsView {
                conf: ApConfView {
                    ssid: f.ssid,
                    ssid_hidden: f.hidden_ssid,
                    auth_method: auth_of_text(f.auth),
                    password: f.password,
                    ..default_ap_conf()
                },
                ip_conf: if f.ip_conf_enabled {
                    Some(
                        RouterConfiguration {
                            dhcp_enabled: f.dhcp_server_enabled,
                            subnet: subnet_of_text(f.subnet)->0,
                            dns: optional_ip_of_text(f.dns)->0,
                            secondary_dns: optional_ip_of_text(f.secondary_dns)->0,
                        },
                    )
                } else {
                    None
                },
            },
        )
    }
}

pub open spec fn optional_ip_text_of(a: Option<crate::net::Ipv4Addr>) -> Seq<char> {
    match a {
        Some(x) => ipv4_text(x),
        None => Seq::empty(),
    }
}

/// The form after a reset to settings.
pub open spec fn form_of(a: ApSettingsView) -> ApConfFormView {
    ApConfFormView {
        ssid: a.conf.ssid,
        hidden_ssid: a.conf.ssid_hidden,
        auth: auth_text(a.conf.auth_method),
        password: a.conf.password,
        password_confirm: a.conf.password,
        ip_conf_enabled: a.ip_conf is Some,
        dhcp_server_enabled: match a.ip_conf {
            Some(i) => i.dhcp_enabled,
            None => false,
        },
        subnet: match a.ip_conf {
            Some(i) => subnet_text(i.subnet),
            None => Seq::empty(),
        },
        dns: match a.ip_conf {
            Some(i) => optional_ip_text_of(i.dns),
            None => Seq::empty(),
        },
        secondary_dns: match a.ip_conf {
            Some(i) => optional_ip_text_of(i.secondary_dns),
            None => Seq::empty(),
        },
    }
}

fn validate_auth(raw: String) -> (r: Result<AuthMethod, String>)
    ensures
        r == Ok::<AuthMethod, String>(auth_of_text(raw@)),
{
    Ok(AuthMethod::from_text(raw.as_str()))
}

impl ApConfForm {
    /// A form with empty texts and cleared switches.
    pub fn new() -> (f: Self)
        ensures
            f@ == (ApConfFormView {
                ssid: Seq::empty(),
                hidden_ssid: false,
                auth: Seq::empty(),
                password: Seq::empty(),
                password_confirm: Seq::empty(),
                ip_conf_enabled: false,
                dhcp_server_enabled: false,
                subnet: Seq::empty(),
                dns: Seq::empty(),
                secondary_dns: Seq::empty(),
            }),
    {
        ApConfForm {
            ssid: InputField::new(),
            hidden_ssid: InputField::new(),
            auth: InputField::new(),
            password: InputField::new(),
            password_confirm: InputField::new(),
            ip_conf_enabled: InputField::new(),
            dhcp_server_enabled: InputField::new(),
            subnet: InputField::new(),
            dns: InputField::new(),
            secondary_dns: InputField::new(),
        }
    }

    /// Shows settings in the form.
    pub fn reset(&mut self, conf: &ApSettings)
        ensures
            final(self)@ == form_of(conf@),
    {
        self.ssid.reset(conf.conf.ssid.clone());
        self.hidden_ssid.reset(conf.conf.ssid_hidden);
        self.auth.reset(conf.conf.auth_method.to_text());
        self.password.reset(conf.conf.password.clone());
        self.password_confirm.reset(conf.conf.password.clone());
        self.ip_conf_enabled.reset(conf.ip_conf.is_some());
        match conf.ip_conf {
            Some(i) => {
                self.dhcp_server_enabled.reset(i.dhcp_enabled);
                self.subnet.reset(format_subnet(i.subnet));
                self.dns.reset(optional_ip_text(i.dns));
                self.secondary_dns.reset(optional_ip_text(i.secondary_dns));
            },
            None => {
                self.dhcp_server_enabled.reset(false);
                self.subnet.reset(String::new());
                self.dns.reset(String::new());
                self.secondary_dns.reset(String::new());
            },
        }
    }

    pub fn password_has_errors(&self) -> (r: bool)
        ensures
            r == password_error(self@),
    {
        validate_password(self.password.raw_value()).is_err()
    }

    pub fn confirm_has_errors(&self) -> (r: bool)
        ensures
            r == confirm_error(self@),
    {
        validate_password_confirm(self.password_confirm.raw_value(), &self.password.raw).is_err()
    }

    pub fn subnet_has_errors(&self) -> (r: bool)
        ensures
            r == subnet_error(self@),
    {
        validate_subnet(self.subnet.raw_value()).is_err()
    }

    pub fn dns_has_errors(&self) -> (r: bool)
        ensures
            r == dns_error(self@),
    {
        validate_optional_ip(self.dns.raw_value()).is_err()
    }

    pub fn secondary_dns_has_errors(&self) -> (r: bool)
        ensures
            r == secondary_dns_error(self@),
    {
        validate_optional_ip(self.secondary_dns.raw_value()).is_err()
    }

    /// The method the form selects.
    pub fn auth_value(&self) -> (r: AuthMethod)
        ensures
            r == auth_of_text(self@.auth),
    {
        match validate_auth(self.auth.raw_value()) {
            Ok(m) => m,
            Err(_) => AuthMethod::default(),
        }
    }

    /// The settings the form describes, as `form_settings` says.
    pub fn get(&self) -> (r: Option<ApSettings>)
        ensures
            opt_view(r) == form_settings(self@),
    {
        let errors = self.password_has_errors() || self.confirm_has_errors()
            || self.subnet_has_errors() || self.dns_has_errors()
            || self.secondary_dns_has_errors();
        if errors {
            return None;
        }
        let subnet = validate_subnet(self.subnet.raw_value());
        let dns = validate_optional_ip(self.dns.raw_value());
        let secondary_dns = validate_optional_ip(self.secondary_dns.raw_value());
        match (subnet, dns, secondary_dns) {
            (Ok(subnet), Ok(dns), Ok(secondary_dns)) => {
                let mut conf = AccessPointConfiguration::default();
                conf.ssid = self.ssid.raw_value();
                conf.ssid_hidden = self.hidden_ssid.raw;
                conf.auth_method = self.auth_value();
                conf.password = self.password.raw_value();
                let ip_conf = if self.ip_conf_enabled.raw {
                    Some(
                        RouterConfiguration {
                            dhcp_enabled: self.dhcp_server_enabled.raw,
                            subnet,
                            dns,
                            secondary_dns,
                        },
                    )
                } else {
                    None
                };
                Some(ApSettings { conf, ip_conf })
            },
            _ => None,
        }
    }
}

/// What the access point form shows, apart from its values and messages.
pub struct ApConfScreen {
    pub disabled_ip: bool,
    pub hidden_style: &'static str,
    pub hidden_ip_style: &'static str,
    pub ssid_danger: bool,
    pub password_danger: bool,
    pub confirm_danger: bool,
    pub subnet_danger: bool,
    pub dns_danger: bool,
    pub secondary_dns_danger: bool,
    pub show_password: bool,
    pub password_label: &'static str,
    pub confirm_label: &'static str,
    pub selected_auth: AuthMethod,
}

pub open spec fn hide_style(hidden: bool) -> Seq<char> {
    if hidden {
        "visibility: hidden;"@
    } else {
        Seq::empty()
    }
}

impl ApConfForm {
    /// What the form shows: the IP inputs are disabled with the form or while the IP
    /// configuration is off; messages are hidden on disabled inputs; an input is
    /// marked in error only while enabled; the password inputs show unless the open
    /// method is selected, labelled for a key when WEP is.
    pub fn screen(&self, disabled: bool) -> (r: ApConfScreen)
        ensures
            r.disabled_ip == (disabled || !self@.ip_conf_enabled),
            r.hidden_style@ == hide_style(disabled),
            r.hidden_ip_style@ == hide_style(r.disabled_ip),
            !r.ssid_danger,
            r.password_danger == (!disabled && password_error(self@)),
            r.confirm_danger == (!disabled && confirm_error(self@)),
            r.subnet_danger == (!r.disabled_ip && subnet_error(self@)),
            r.dns_danger == (!r.disabled_ip && dns_error(self@)),
            r.secondary_dns_danger == (!r.disabled_ip && secondary_dns_error(self@)),
            r.selected_auth == auth_of_text(self@.auth),
            r.show_password == (r.selected_auth != AuthMethod::Open),
            r.password_label@ == if r.selected_auth == AuthMethod::WEP {
                "Key"@
            } else {
                "Password"@
            },
            r.confirm_label@ == if r.selected_auth == AuthMethod::WEP {
                "Key Confirmation"@
            } else {
                "Password Confirmation"@
            },
    {
        let disabled_ip = disabled || !self.ip_conf_enabled.raw;
        let auth = self.auth_value();
        let wep = auth == AuthMethod::WEP;
        proof {
            reveal_strlit("visibility: hidden;");
            reveal_strlit("Key");
            reveal_strlit("Password");
            reveal_strlit("Key Confirmation");
            reveal_strlit("Password Confirmation");
            reveal_strlit("");
        }
        ApConfScreen {
            disabled_ip,
            hidden_style: if disabled { "visibility: hidden;" } else { "" },
            hidden_ip_style: if disabled_ip { "visibility: hidden;" } else { "" },
            ssid_danger: false,
            password_danger: !disabled && self.password_has_errors(),
            confirm_danger: !disabled && self.confirm_has_errors(),
            subnet_danger: !disabled_ip && self.subnet_has_errors(),
            dns_danger: !disabled_ip && self.dns_has_errors(),
            secondary_dns_danger: !disabled_ip && self.secondary_dns_has_errors(),
            show_password: auth != AuthMethod::Open,
            password_label: if wep { "Key" } else { "Password" },
            confirm_label: if wep { "Key Confirmation" } else { "Password Confirmation" },
            selected_auth: auth,
        }
    }
}

impl ApSettings {
    pub fn duplicate(&self) -> (r: Self)
        ensures
            r@ == self@,
    {
        ApSettings { conf: self.conf.duplicate(), ip_conf: self.ip_conf }
    }
}

fn same_sta(a: &StaConfiguration, b: &StaConfiguration) -> (r: bool)
    ensures
        r == (a@ == b@),
{
    let bssid_same = match (a.bssid, b.bssid) {
        (Some(x), Some(y)) => {
            let same = x[0] == y[0] && x[1] == y[1] && x[2] == y[2] && x[3] == y[3] && x[4] == y[4]
                && x[5] == y[5];
            proof {
                if same {
                    assert(x =~= y);
                }
            }
            same
        },
        (None, None) => true,
        _ => false,
    };
    a.ssid.eq(&b.ssid) && bssid_same && a.auth_method == b.auth_method && a.password.eq(&b.password)
        && a.channel == b.channel
}

fn same_ap(a: &ApSettings, b: &ApSettings) -> (r: bool)
    ensures
        r == (a@ == b@),
{
    a.conf.ssid.eq(&b.conf.ssid) && a.conf.ssid_hidden == b.conf.ssid_hidden && a.conf.channel
        == b.conf.channel && a.conf.secondary_channel == b.conf.secondary_channel
        && a.conf.protocols == b.conf.protocols && a.conf.auth_method == b.conf.auth_method
        && a.conf.password.eq(&b.conf.password) && a.conf.max_connections
        == b.conf.max_connections && a.ip_conf == b.ip_conf
}

impl WifiSettings {
    pub fn duplicate(&self) -> (r: Self)
        ensures
            r@ == self@,
    {
        match self {
            WifiSettings::Unconfigured => WifiSettings::Unconfigured,
            WifiSettings::Client(c) => WifiSettings::Client(c.duplicate()),
            WifiSettings::AccessPoint(a) => WifiSettings::AccessPoint(a.duplicate()),
            WifiSettings::Mixed(c, a) => WifiSettings::Mixed(c.duplicate(), a.duplicate()),
        }
    }

    /// Whether two configurations are the same.
    pub fn same(&self, other: &WifiSettings) -> (r: bool)
        ensures
            r == (self@ == other@),
    {
        match (self, other) {
            (WifiSettings::Unconfigured, WifiSettings::Unconfigured) => true,
            (WifiSettings::Client(a), WifiSettings::Client(b)) => same_sta(a, b),
            (WifiSettings::AccessPoint(a), WifiSettings::AccessPoint(b)) => same_ap(a, b),
            (WifiSettings::Mixed(a, x), WifiSettings::Mixed(b, y)) => same_sta(a, b) && same_ap(
                x,
                y,
            ),
            _ => false,
        }
    }

    /// The station settings, if the configuration has a station.
    pub fn as_client_conf_ref(&self) -> (r: Option<&StaConfiguration>)
        ensures
            match self@ {
                WifiSettingsView::Client(c) => opt_view(r) == Some(c),
                WifiSettingsView::Mixed(c, _) => opt_view(r) == Some(c),
                _ => r is None,
            },
    {
        match self {
            WifiSettings::Client(c) => Some(c),
            WifiSettings::Mixed(c, _) => Some(c),
            _ => None,
        }
    }
}

/// The wifi settings page: the settings fetched or edited, whether they changed since
/// the last save, the error marks of the two forms, and the access point form.
pub struct WifiPage {
    pub conf: Option<WifiSettings>,
    pub dirty: bool,
    pub errors: (bool, bool),
    pub form: ApConfForm,
}

pub struct WifiPageView {
    pub conf: Option<WifiSettingsView>,
    pub dirty: bool,
    pub errors: (bool, bool),
    pub form: ApConfFormView,
}

impl View for WifiPage {
    type V = WifiPageView;

    open spec fn view(&self) -> WifiPageView {
        WifiPageView { conf: opt_view(self.conf), dirty: self.dirty, errors: self.errors, form: self.form@ }
    }
}

/// What the page shows apart from the forms' values.
pub struct WifiPageScreen {
    pub forms_disabled: bool,
    pub save_disabled: bool,
}

/// The page after the access point form reports `ap`.
pub open spec fn page_ap_changed(v: WifiPageView, ap: Option<ApSettingsView>) -> WifiPageView {
    match ap {
        None => WifiPageView { dirty: false, ..v },
        Some(a) => if v.conf is Some {
            WifiPageView { conf: Some(WifiSettingsView::AccessPoint(a)), dirty: true, ..v }
        } else {
            v
        },
    }
}

/// The page after a save, and what the save hands to the device.
pub open spec fn page_saved(v: WifiPageView) -> (WifiPageView, Option<WifiSettingsView>) {
    (
        WifiPageView {
            form: match v.conf {
                Some(c) => form_of(ap_for_edit(c)),
                None => v.form,
            },
            dirty: false,
            ..v
        },
        if v.dirty {
            v.conf
        } else {
            None
        },
    )
}

/// After the form reports settings on a page that holds settings, a save hands
/// the device the access point with those settings, the form shows them again, and
/// a second save hands nothing.
pub proof fn law_save_stores_last_edit(v: WifiPageView, a: ApSettingsView)
    requires
        v.conf is Some,
    ensures
        page_saved(page_ap_changed(v, Some(a))).1 == Some(WifiSettingsView::AccessPoint(a)),
        page_saved(page_ap_changed(v, Some(a))).0.form == form_of(a),
        page_saved(page_saved(page_ap_changed(v, Some(a))).0).1 is None,
{
}

impl WifiPage {
    /// A page with nothing fetched.
    pub fn new() -> (p: Self)
        ensures
            p@.conf is None,
            !p@.dirty,
            p@.errors == (false, false),
            p@.form == ApConfForm::new_view(),
    {
        WifiPage { conf: None, dirty: false, errors: (false, false), form: ApConfForm::new() }
    }

    /// Takes what the access point form describes: settings replace the held
    /// configuration by an access point alone and mark it changed; none (the form is
    /// in error) clears the mark. Nothing is held before a fetch.
    pub fn ap_changed(&mut self, ap: Option<ApSettings>)
        ensures
            final(self)@ == page_ap_changed(old(self)@, opt_view(ap)),
    {
        match ap {
            Some(a) => {
                if self.conf.is_some() {
                    self.conf = Some(WifiSettings::AccessPoint(a));
                    self.dirty = true;
                }
            },
            None => {
                self.dirty = false;
            },
        }
    }

    /// Takes what the station form describes: it replaces the held configuration by a
    /// station alone, marks it changed and records the station form's error mark.
    pub fn sta_changed(&mut self, sta: StaConfiguration, errors: bool)
        ensures
            final(self)@ == if old(self)@.conf is Some {
                WifiPageView {
                    conf: Some(WifiSettingsView::Client(sta@)),
                    dirty: true,
                    errors: (old(self)@.errors.0, errors),
                    ..old(self)@
                }
            } else {
                old(self)@
            },
    {
        if self.conf.is_some() {
            self.conf = Some(WifiSettings::Client(sta));
            self.dirty = true;
            self.errors = (self.errors.0, errors);
        }
    }

    /// Takes fetched settings: unless there are unsaved changes or they are the held
    /// ones, they become the held settings and the form shows their access point.
    pub fn configuration_fetched(&mut self, conf: WifiSettings)
        ensures
            if old(self)@.conf != Some(conf@) && !old(self)@.dirty {
                final(self)@ == (WifiPageView {
                    conf: Some(conf@),
                    form: form_of(ap_for_edit(conf@)),
                    ..old(self)@
                })
            } else {
                final(self)@ == old(self)@
            },
    {
        let same = match &self.conf {
            Some(c) => c.same(&conf),
            None => false,
        };
        if !same && !self.dirty {
            let ap = match conf.as_ap_conf_ref() {
                Some(a) => a.duplicate(),
                None => ApSettings::default(),
            };
            self.form.reset(&ap);
            self.conf = Some(conf);
        }
    }

    /// Saves: the form shows the held access point again; held settings with unsaved
    /// changes are returned for the device and the change mark is cleared.
    pub fn save(&mut self) -> (r: Option<WifiSettings>)
        ensures
            final(self)@ == page_saved(old(self)@).0,
            opt_view(r) == page_saved(old(self)@).1,
    {
        if let Some(c) = &self.conf {
            let ap = match c.as_ap_conf_ref() {
                Some(a) => a.duplicate(),
                None => ApSettings::default(),
            };
            self.form.reset(&ap);
        }
        if self.dirty {
            self.dirty = false;
            match &self.conf {
                Some(c) => Some(c.duplicate()),
                None => None,
            }
        } else {
            None
        }
    }

    /// What the page shows: both forms disabled until settings are held, the save
    /// button disabled without unsaved changes.
    pub fn screen(&self) -> (r: WifiPageScreen)
        ensures
            r.forms_disabled == self@.conf is None,
            r.save_disabled == !self@.dirty,
    {
        WifiPageScreen { forms_disabled: self.conf.is_none(), save_disabled: !self.dirty }
    }

    /// The station settings the station form shows: the held ones, else the default.
    pub fn sta_conf(&self) -> (r: StaConfiguration)
        ensures
            r@ == match self@.conf {
                Some(WifiSettingsView::Client(c)) => c,
                Some(WifiSettingsView::Mixed(c, _)) => c,
                _ => default_sta_conf(),
            },
    {
        match &self.conf {
            Some(c) => match c.as_client_conf_ref() {
                Some(s) => s.duplicate(),
                None => StaConfiguration::default(),
            },
            None => StaConfiguration::default(),
        }
    }
}

impl ApConfForm {
    pub open spec fn new_view() -> ApConfFormView {
        ApConfFormView {
            ssid: Seq::empty(),
            hidden_ssid: false,
            auth: Seq::empty(),
            password: Seq::empty(),
            password_confirm: Seq::empty(),
            ip_conf_enabled: false,
            dhcp_server_enabled: false,
            subnet: Seq::empty(),
            dns: Seq::empty(),
            secondary_dns: Seq::empty(),
        }
    }
}

/// Settings shown in the form and read back give the settings again, over the default
/// access point settings for what the form does not edit, when their password is not
/// empty and they have an IP configuration whose mask lies within 1..=32.
pub proof fn law_form_round_trip(a: ApSettingsView)
    requires
        a.conf.password.len() > 0,
        a.ip_conf matches Some(i) && 1 <= i.subnet.mask <= 32,
    ensures
        form_settings(form_of(a)) == Some(
            ApSettingsView {
                conf: ApConfView {
                    ssid: a.conf.ssid,
                    ssid_hidden: a.conf.ssid_hidden,
                    auth_method: a.conf.auth_method,
                    password: a.conf.password,
                    ..default_ap_conf()
                },
                ip_conf: a.ip_conf,
            },
        ),
{
    let i = a.ip_conf->0;
    law_subnet_text_round_trip(i.subnet);
    law_auth_text_round_trip(a.conf.auth_method);
    law_optional_ip_round_trip(i.dns);
    law_optional_ip_round_trip(i.secondary_dns);
    let f = form_of(a);
    assert(f.dns == optional_ip_text_of(i.dns));
    assert(f.secondary_dns == optional_ip_text_of(i.secondary_dns));
}

/// A form showing settings with an empty password describes no settings.
pub proof fn law_form_refuses_empty_password(a: ApSettingsView)
    requires
        a.conf.password.len() == 0,
    ensures
        form_settings(form_of(a)) is None,
{
}

/// A form showing settings without an IP configuration describes no settings, since
/// its empty subnet text does not read as a subnet.
pub proof fn law_form_without_ip_refused(a: ApSettingsView)
    requires
        a.ip_conf is None,
    ensures
        form_settings(form_of(a)) is None,
{
    lemma_no_slash_refused(Seq::<char>::empty());
}

} // verus!
