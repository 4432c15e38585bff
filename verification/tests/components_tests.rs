use edge_frame::api::wifi::WifiAsync;
use edge_frame::components::common::{Editable, Field, Loadable, Optional};
use edge_frame::components::layout::{cell_class_list, grid_class_list, push_u32, Align, CellLayout, VAlign};
use edge_frame::components::settings::{ApEdit, ApSettings, WifiSettings};
use edge_frame::components::wifi::{ApConfForm, WifiPage};
use edge_frame::components::wifi_ap::{
    ApIpStatus, ApStatus, ClientStatus, Command, Msg, WiFiAp, WifiStatus,
};
use edge_frame::edge::ipv4::RouterConfiguration;
use edge_frame::edge::wifi::{AccessPointConfiguration, AuthMethod, StaConfiguration};
use edge_frame::net::{Ipv4Addr, Subnet};

#[test]
fn loadable_keeps_data_over_a_failed_fetch() {
    let mut l: Loadable<u32> = Loadable::default();
    assert!(!l.is_loaded());
    assert!(!l.is_loading());
    l.loading();
    assert!(matches!(l, Loadable::Loading(None)));
    assert!(l.is_loading());
    l.loaded_result::<String>(Err("down".to_string()));
    assert!(matches!(l, Loadable::Loading(None)));
    l.loaded(5);
    assert!(l.is_loaded());
    l.loading();
    assert!(matches!(l, Loadable::Loading(Some(5))));
    assert!(l.is_loaded());
    assert_eq!(l.data_ref(), Some(&5));
    l.loaded_result::<String>(Err("down".to_string()));
    assert!(matches!(l, Loadable::Loaded(5)));
    l.loaded_result::<String>(Ok(7));
    assert!(matches!(l, Loadable::Loaded(7)));
}

#[test]
fn loadable_data_in_place() {
    let mut l: Loadable<u32> = Loadable::Loading(Some(1));
    if let Some(d) = l.try_data_mut() {
        *d = 2;
    }
    assert!(matches!(l, Loadable::Loading(Some(2))));
    *l.data_mut() = 3;
    assert!(matches!(l, Loadable::Loading(Some(3))));
    let mut n: Loadable<u32> = Loadable::Not;
    assert!(n.try_data_mut().is_none());
    assert!(n.data_ref().is_none());
}

#[test]
fn editable_marks_changes() {
    let mut e = Editable::new(3u32);
    assert!(!e.is_changed());
    assert_eq!(*e.as_ref(), 3);
    *e.as_mut() = 4;
    assert!(e.is_changed());
    assert_eq!(e.get(), 4);
}

#[test]
fn optional_parses_blank_as_none() {
    let parse = |s: &str| s.parse::<u32>();
    assert!(matches!(Optional::parse_with("   ", &parse), Ok(Optional(None))));
    assert!(matches!(Optional::parse_with(" 42 ", &parse), Ok(Optional(Some(42)))));
    assert!(Optional::parse_with("x", &parse).is_err());
    let show = |v: &u32| v.to_string();
    assert_eq!(Optional(Some(7u32)).to_text(&show), "7");
    assert_eq!(Optional::<u32>(None).to_text(&show), "");
    assert_eq!(Optional::new(Some(1u8)).into_option(), Some(1));
}

#[test]
fn field_reads_edits_and_reports_errors() {
    let mut f: Field<AuthMethod> = Field::default();
    assert_eq!(f.get_value_str(), "");
    assert!(f.is_valid());
    f.load(Some(AuthMethod::WEP));
    assert_eq!(f.get_value_str(), "wep");
    assert_eq!(f.get_value(), Some(AuthMethod::WEP));
    assert_eq!(f.update(" wpa "), Some(AuthMethod::WPA));
    assert_eq!(f.get_value_str(), "wpa");
    assert_eq!(f.update("wpa"), None);
    assert!(f.is_valid());
    assert_eq!(f.update("bogus"), None);
    assert!(!f.is_valid());
    assert_eq!(f.get_error(), Some("Invalid format".to_string()));
    assert_eq!(f.get_error_str(), "Invalid format");
    assert_eq!(f.get_value(), None);
    assert_eq!(f.update_value(), "bogus");
    f.load(None);
    assert_eq!(f.get_value_str(), "");
    assert!(f.is_valid());
    assert_eq!(f.get_error_str(), "");
}

#[test]
fn subnet_and_address_fields() {
    let mut s: Field<Subnet> = Field::default();
    assert_eq!(
        s.update(" 10.0.0.1/8 "),
        Some(Subnet { gateway: Ipv4Addr(10, 0, 0, 1), mask: 8 })
    );
    assert_eq!(s.update("10.0.0.1/40"), None);
    assert_eq!(s.get_error_str(), "Invalid format");
    let mut d: Field<Optional<Ipv4Addr>> = Field::default();
    d.load(Some(Optional(Some(Ipv4Addr(8, 8, 8, 8)))));
    assert_eq!(d.get_value_str(), "8.8.8.8");
    assert!(matches!(d.update("  "), Some(Optional(None))));
    assert_eq!(d.get_value_str(), "");
    assert!(matches!(d.get_value(), Some(Optional(None))));
    assert!(matches!(d.update("1.1.1.1"), Some(Optional(Some(Ipv4Addr(1, 1, 1, 1))))));
}

#[test]
fn auth_method_parse_text_is_strict() {
    assert_eq!(AuthMethod::parse_text("wep"), Some(AuthMethod::WEP));
    assert_eq!(AuthMethod::parse_text("none"), Some(AuthMethod::Open));
    assert_eq!(AuthMethod::parse_text("WEP"), None);
    assert_eq!(AuthMethod::parse_text(""), None);
}

#[test]
fn ap_settings_edits() {
    let mut a = ApSettings::default();
    a.ip_conf = None;
    a.apply(ApEdit::Ssid("lab".to_string()));
    a.apply(ApEdit::Dns(None));
    assert_eq!(a.conf.ssid, "lab");
    let ip = a.ip_conf.unwrap();
    assert_eq!(ip.dns, None);
    assert!(ip.dhcp_enabled);
    assert_eq!(ip.subnet, Subnet { gateway: Ipv4Addr(192, 168, 71, 1), mask: 24 });
}

fn ap_of(conf: &Loadable<Editable<WifiSettings>>) -> &ApSettings {
    match conf.data_ref().unwrap().as_ref() {
        WifiSettings::AccessPoint(a) => a,
        WifiSettings::Mixed(_, a) => a,
        _ => panic!("no access point"),
    }
}

#[test]
fn wifi_ap_screen_loads_and_edits() {
    let api = WifiAsync;
    let mut ap = WiFiAp::create();
    assert!(!ap.is_loaded());
    let o = ap.update(Msg::GetConfiguration);
    assert!(o.render);
    assert_eq!(o.command, Some(Command::FetchConfiguration));
    assert!(ap.conf.is_loading());
    let o = ap.update(Msg::GotConfiguration(Ok(api.get_configuration())));
    assert_eq!(o.command, None);
    assert_eq!(ap.fields.ssid.get_value_str(), "iot-device");
    assert_eq!(ap.fields.auth_method.get_value_str(), "none");
    assert_eq!(ap.fields.subnet.get_value_str(), "192.168.71.1/24");
    assert_eq!(ap.fields.dns.get_value_str(), "8.8.8.8");
    assert_eq!(ap.fields.secondary_dns.get_value_str(), "8.8.4.4");

    let screen = ap.screen();
    assert!(screen.disabled);
    assert_eq!(screen.status, "Waiting for status info...");
    assert!(!screen.show_password);
    assert!(screen.dhcp_checked);

    let o = ap.update(Msg::GetStatus);
    assert_eq!(o.command, Some(Command::FetchStatus));
    ap.update(Msg::GotStatus(Ok(api.get_status())));
    assert!(ap.is_loaded());
    assert_eq!(ap.screen().status, "Stopped");

    ap.update(Msg::SSIDChanged("  home  ".to_string()));
    assert!(ap.conf.data_ref().unwrap().is_changed());
    assert!(matches!(ap.conf.data_ref().unwrap().as_ref(), WifiSettings::AccessPoint(_)));
    assert_eq!(ap_of(&ap.conf).conf.ssid, "home");
    assert_eq!(ap.fields.ssid.get_value_str(), "home");

    ap.update(Msg::SubnetChanged("bad".to_string()));
    assert_eq!(ap.fields.subnet.get_error_str(), "Invalid format");
    assert_eq!(
        ap_of(&ap.conf).ip_conf.unwrap().subnet,
        Subnet { gateway: Ipv4Addr(192, 168, 71, 1), mask: 24 }
    );

    ap.update(Msg::AuthMethodChanged(AuthMethod::WEP));
    assert_eq!(ap_of(&ap.conf).conf.auth_method, AuthMethod::WEP);
    let screen = ap.screen();
    assert!(screen.show_password);
    assert_eq!(screen.password_label, "Key");
    assert_eq!(screen.confirm_label, "Confirm Key");

    ap.update(Msg::DHCPEnabledChanged(false));
    assert!(!ap_of(&ap.conf).ip_conf.unwrap().dhcp_enabled);
    ap.update(Msg::SSIDHiddenChanged(true));
    assert!(ap.screen().hidden_checked);
    ap.update(Msg::DnsChanged("".to_string()));
    assert_eq!(ap_of(&ap.conf).ip_conf.unwrap().dns, None);
    ap.update(Msg::PasswordConfirmedChanged("abc".to_string()));
    assert_eq!(ap.password_confirmed, "abc");
    assert!(!ap.update(Msg::Nothing).render);

    assert!(ap.change(true));
    assert!(matches!(ap.conf, Loadable::Not));
    assert_eq!(ap.fields.ssid.get_value_str(), "");
    assert_eq!(ap.fields.password_confirmed.get_value_str(), "abc");
    assert!(!ap.change(false));
}

#[test]
fn wifi_ap_status_lines() {
    let mut status: Loadable<WifiStatus> = Loadable::Not;
    assert_eq!(status.ap_status_str(), "Waiting for status info...");
    status.loaded(WifiStatus(ClientStatus::Stopped, ApStatus::Starting));
    assert_eq!(status.ap_status_str(), "Starting...");
    status.loaded(WifiStatus(ClientStatus::Stopped, ApStatus::Started(ApIpStatus::Waiting)));
    assert_eq!(status.ap_status_str(), "Waiting for IP...");
    status.loaded(WifiStatus(ClientStatus::Stopped, ApStatus::Started(ApIpStatus::Done)));
    assert_eq!(status.ap_status_str(), "Connected");
    status.loaded(WifiStatus(ClientStatus::Stopped, ApStatus::Started(ApIpStatus::Disabled)));
    assert_eq!(status.ap_status_str(), "Disabled");
}

fn sample_settings() -> ApSettings {
    let mut conf = AccessPointConfiguration::default();
    conf.ssid = "lab".to_string();
    conf.ssid_hidden = true;
    conf.auth_method = AuthMethod::WPA2Personal;
    conf.password = "secret".to_string();
    ApSettings {
        conf,
        ip_conf: Some(RouterConfiguration {
            subnet: Subnet { gateway: Ipv4Addr(10, 1, 2, 1), mask: 16 },
            dhcp_enabled: false,
            dns: Some(Ipv4Addr(1, 1, 1, 1)),
            secondary_dns: None,
        }),
    }
}

#[test]
fn ap_form_round_trip() {
    let a = sample_settings();
    let mut form = ApConfForm::new();
    form.reset(&a);
    assert_eq!(form.subnet.raw, "10.1.2.1/16");
    assert_eq!(form.dns.raw, "1.1.1.1");
    assert_eq!(form.secondary_dns.raw, "");
    assert_eq!(form.auth.raw, "wpa2personal");
    let back = form.get().unwrap();
    assert_eq!(back.conf.ssid, "lab");
    assert!(back.conf.ssid_hidden);
    assert_eq!(back.conf.auth_method, AuthMethod::WPA2Personal);
    assert_eq!(back.conf.password, "secret");
    assert_eq!(back.ip_conf, a.ip_conf);
}

#[test]
fn ap_form_refuses_errors() {
    let mut form = ApConfForm::new();
    form.reset(&ApSettings::default());
    assert!(form.password_has_errors());
    assert!(form.get().is_none());
    form.password.update("pw".to_string());
    assert!(form.confirm_has_errors());
    form.password_confirm.update("pw".to_string());
    assert!(!form.confirm_has_errors());
    assert!(form.get().is_some());
    form.dns.update("1.2.3".to_string());
    assert!(form.dns_has_errors());
    assert!(form.get().is_none());
    let mut without_ip = sample_settings();
    without_ip.ip_conf = None;
    form.reset(&without_ip);
    assert!(form.subnet_has_errors());
    assert!(form.get().is_none());
}

#[test]
fn ap_form_screen() {
    let mut form = ApConfForm::new();
    form.reset(&sample_settings());
    let s = form.screen(false);
    assert!(!s.disabled_ip);
    assert_eq!(s.hidden_style, "");
    assert!(s.show_password);
    assert_eq!(s.password_label, "Password");
    assert_eq!(s.confirm_label, "Password Confirmation");
    assert_eq!(s.selected_auth, AuthMethod::WPA2Personal);
    form.ip_conf_enabled.update(false);
    form.subnet.update("x".to_string());
    let s = form.screen(false);
    assert!(s.disabled_ip);
    assert_eq!(s.hidden_ip_style, "visibility: hidden;");
    assert!(!s.subnet_danger);
    form.ip_conf_enabled.update(true);
    assert!(form.screen(false).subnet_danger);
    assert!(!form.screen(true).subnet_danger);
    form.auth.update("wep".to_string());
    let s = form.screen(true);
    assert_eq!(s.password_label, "Key");
    assert_eq!(s.confirm_label, "Key Confirmation");
    assert_eq!(s.hidden_style, "visibility: hidden;");
    form.auth.update("none".to_string());
    assert!(!form.screen(false).show_password);
}

#[test]
fn wifi_page_fetch_edit_save() {
    let api = WifiAsync;
    let mut page = WifiPage::new();
    assert!(page.screen().forms_disabled);
    assert!(page.screen().save_disabled);
    page.ap_changed(Some(sample_settings()));
    assert!(page.conf.is_none());
    page.configuration_fetched(api.get_configuration());
    assert!(!page.screen().forms_disabled);
    assert_eq!(page.form.ssid.raw, "iot-device");
    assert_eq!(page.sta_conf().ssid, "foo");
    page.ap_changed(Some(sample_settings()));
    assert!(page.dirty);
    assert!(matches!(page.conf, Some(WifiSettings::AccessPoint(_))));
    page.configuration_fetched(api.get_configuration());
    assert!(matches!(page.conf, Some(WifiSettings::AccessPoint(_))));
    let saved = page.save().unwrap();
    assert!(!page.dirty);
    assert_eq!(page.form.ssid.raw, "lab");
    match saved {
        WifiSettings::AccessPoint(a) => assert_eq!(a.conf.ssid, "lab"),
        _ => panic!("expected an access point"),
    }
    assert!(page.save().is_none());
    let mut sta = StaConfiguration::default();
    sta.ssid = "home".to_string();
    page.sta_changed(sta, true);
    assert!(page.dirty);
    assert_eq!(page.errors, (false, true));
    assert_eq!(page.sta_conf().ssid, "home");
    page.ap_changed(None);
    assert!(!page.dirty);
}

#[test]
fn layout_classes() {
    let cell = CellLayout {
        valign: VAlign::Top,
        order: Some(3),
        span: Some(12),
        span_desktop: None,
        span_tablet: Some(8),
        span_phone: Some(4),
    };
    assert_eq!(
        cell_class_list(cell),
        vec![
            "mdc-layout-grid__cell".to_string(),
            "mdc-layout-grid__cell--span-12".to_string(),
            "mdc-layout-grid__cell--span-8-tablet".to_string(),
            "mdc-layout-grid__cell--span-4-phone".to_string(),
            "mdc-layout-grid__cell--align-top".to_string(),
            "mdc-layout-grid__cell--order-3".to_string(),
        ]
    );
    let plain = CellLayout {
        valign: VAlign::default(),
        order: None,
        span: None,
        span_desktop: Some(6),
        span_tablet: None,
        span_phone: None,
    };
    assert_eq!(
        cell_class_list(plain),
        vec!["mdc-layout-grid__cell".to_string(), "mdc-layout-grid__cell--span-6-desktop".to_string()]
    );
    assert_eq!(
        grid_class_list(false, Align::Left),
        vec!["mdc-layout-grid".to_string(), "mdc-layout-grid--align-left".to_string()]
    );
    assert_eq!(grid_class_list(false, Align::default()), vec!["mdc-layout-grid".to_string()]);
    assert!(grid_class_list(true, Align::Right).is_empty());
}

#[test]
fn decimal_text() {
    let mut s = String::new();
    push_u32(&mut s, 0);
    assert_eq!(s, "0");
    let mut s = String::from("n=");
    push_u32(&mut s, 4294967295);
    assert_eq!(s, "n=4294967295");
    let mut s = String::new();
    push_u32(&mut s, 1005);
    assert_eq!(s, "1005");
}

#[test]
fn auth_choices_mark_the_selected_method() {
    let choices = edge_frame::components::wifi_ap::auth_choices(Some(AuthMethod::WEP));
    assert_eq!(choices.len(), 9);
    assert_eq!(choices[0], (AuthMethod::Open, false));
    assert_eq!(choices[1], (AuthMethod::WEP, true));
    assert_eq!(choices.iter().filter(|c| c.1).count(), 1);
    assert!(edge_frame::components::wifi_ap::auth_choices(None).iter().all(|c| !c.1));
}
