use std::collections::HashMap;

use edge_frame::api::uri_utils::{with_path_segment, UriError};
use edge_frame::api::wifi::{SecondaryChannel, WifiAsync, WifiOp};
use edge_frame::components::settings::WifiSettings;
use edge_frame::components::wifi_ap;
use edge_frame::edge::dto::Role;
use edge_frame::edge::wifi::AuthMethod;
use edge_frame::exit;
use edge_frame::frame::{frame_props, group_navigation, shows_navigation, title_kind, TitleKind};
use edge_frame::plugin::{
    bool_props, role_allows, status_icon, APIEndpoint, Category, InsertionPoint, InsertionPoints,
    NavigationRender, PluginProps,
};

fn endpoint(uri: &str) -> APIEndpoint {
    let mut headers = HashMap::new();
    headers.insert("Authorization".to_string(), "token".to_string());
    APIEndpoint { uri: uri.to_string(), headers }
}

#[test]
fn with_path_segment_appends_a_segment() {
    assert_eq!(with_path_segment("http://device.local/api", "wifi"), Ok("http://device.local/api/wifi".to_string()));
    assert_eq!(with_path_segment("http://device.local/", "a b"), Ok("http://device.local/a%20b".to_string()));
    assert_eq!(with_path_segment("not a uri", "x"), Err(UriError::RelativeUrlWithoutBase));
    assert_eq!(with_path_segment("mailto:someone@example.com", "x"), Err(UriError::CannotBeABase));
}

#[test]
fn with_path_segment_reports_the_parse_error() {
    assert_eq!(with_path_segment("http://", "x"), Err(UriError::EmptyHost));
    assert_eq!(with_path_segment("http://device.local:99999/", "x"), Err(UriError::InvalidPort));
    assert_eq!(with_path_segment("http://[::1/", "x"), Err(UriError::InvalidIpv6Address));
    assert_eq!(with_path_segment("http://1.2.3.4.5/", "x"), Err(UriError::InvalidIpv4Address));
    assert_eq!(UriError::RelativeUrlWithoutBase.message(), "relative URL without a base");
    assert_eq!(UriError::InvalidPort.message(), "invalid port number");
    assert_eq!(UriError::CannotBeABase.message(), "url cannot be used as a base");
}

#[test]
fn plugin_props_map_route_and_endpoint() {
    let props = PluginProps { active_route: 1u32, active_role: Role::User, api_endpoint: Some(endpoint("http://device.local/api")) };
    let mapped = props.map(|r: &u32| *r + 1, "wifi");
    assert_eq!(mapped.active_route, 2);
    assert_eq!(mapped.active_role, Role::User);
    let e = mapped.api_endpoint.unwrap();
    assert_eq!(e.uri, "http://device.local/api/wifi");
    assert_eq!(e.headers.get("Authorization"), Some(&"token".to_string()));

    let demo = PluginProps { active_route: 1u32, active_role: Role::Admin, api_endpoint: None };
    let mapped = demo.map(|r: &u32| *r == 1, "wifi");
    assert!(mapped.active_route);
    assert!(mapped.api_endpoint.is_none());
}

#[test]
fn plugin_props_try_map_refuses_unusable_endpoints() {
    let props = PluginProps { active_route: 0u8, active_role: Role::Admin, api_endpoint: Some(endpoint("mailto:x@y")) };
    assert!(props.try_map(|r: &u8| *r, "wifi").is_none());
    let props = PluginProps { active_route: 0u8, active_role: Role::Admin, api_endpoint: Some(endpoint("http://h/")) };
    let mapped = props.try_map(|r: &u8| *r, "wifi").unwrap();
    assert_eq!(mapped.api_endpoint.unwrap().uri, "http://h/wifi");
}

#[test]
fn insertion_point_sets() {
    let both = InsertionPoints::only(InsertionPoint::Navigation).union(&InsertionPoints::only(InsertionPoint::Status));
    assert_eq!(both.iter(), vec![InsertionPoint::Navigation, InsertionPoint::Status]);
    assert!(both.contains(InsertionPoint::Status));
    let status = InsertionPoints::only(InsertionPoint::Status);
    assert!(!status.contains(InsertionPoint::Navigation));
    assert_eq!(status.iter(), vec![InsertionPoint::Status]);
}

#[test]
fn wifi_ap_plugin_entries_and_visibility() {
    let p = wifi_ap::plugin();
    assert_eq!(p.name, "WiFi Ap");
    assert_eq!(p.icon.as_deref(), Some("wifi"));
    assert_eq!(p.category, Category::Settings);
    let entries = p.iter();
    assert_eq!(entries.len(), 2);
    assert_eq!(entries[0].insertion_point, InsertionPoint::Navigation);
    assert!(entries[0].as_nav_item);
    assert_eq!(entries[1].insertion_point, InsertionPoint::Status);
    assert!(!entries[1].as_nav_item);
    assert_eq!(entries[1].category, Category::Settings);
    assert_eq!(entries[1].api_uri_prefix, "");

    let admin = PluginProps { active_route: true, active_role: Role::Admin, api_endpoint: None };
    let user = PluginProps { active_route: true, active_role: Role::User, api_endpoint: None };
    let elsewhere = PluginProps { active_route: false, active_role: Role::Admin, api_endpoint: None };
    assert!(p.content_visible(&admin));
    assert!(!p.content_visible(&user));
    assert!(!p.content_visible(&elsewhere));
    assert_eq!(p.navigation_render(true, &admin), NavigationRender::NavigationItem { active: true });
    assert_eq!(p.navigation_render(true, &elsewhere), NavigationRender::NavigationItem { active: false });
    assert_eq!(p.navigation_render(false, &admin), NavigationRender::StatusItem);
    assert_eq!(p.navigation_render(true, &user), NavigationRender::Hidden);
}

#[test]
fn mapped_plugin_keeps_metadata() {
    let p = exit::plugin();
    assert_eq!(p.min_role, Role::NoRole);
    assert_eq!(p.description.as_deref(), Some("Exits the app"));
    assert_eq!(p.iter().len(), 1);
    let m = p.map(7u32);
    assert_eq!(m.route, 7);
    assert_eq!(m.name, "Exit");
    assert_eq!(m.insertion_points, InsertionPoints { navigation: false, status: true });
    let props = PluginProps { active_route: 7u32, active_role: Role::NoRole, api_endpoint: None };
    assert!(m.content_visible(&props));
    let inner = bool_props(props, &7u32);
    assert!(inner.active_route);
    let other = bool_props(PluginProps { active_route: 8u32, active_role: Role::User, api_endpoint: None }, &7u32);
    assert!(!other.active_route);
    assert_eq!(other.active_role, Role::User);
}

#[test]
fn roles_and_icons() {
    assert!(role_allows(Role::User, Role::Admin));
    assert!(role_allows(Role::User, Role::User));
    assert!(!role_allows(Role::Admin, Role::User));
    assert_eq!(status_icon(&None), "???");
    assert_eq!(status_icon(&Some("wifi".to_string())), "wifi");
}

#[test]
fn frame_groups_iter() {
    let entries = vec![
        (InsertionPoint::Navigation, Category::Regular),
        (InsertionPoint::Status, Category::Regular),
        (InsertionPoint::Navigation, Category::Settings),
        (InsertionPoint::Navigation, Category::Header),
        (InsertionPoint::Status, Category::Settings),
    ];
    let g = group_navigation(&entries);
    assert_eq!(g.normal, vec![0, 3]);
    assert_eq!(g.settings, vec![2]);
    assert_eq!(g.status, vec![1, 4]);
    assert!(shows_navigation(&g));
    let only_status = group_navigation(&vec![(InsertionPoint::Status, Category::Regular)]);
    assert!(!shows_navigation(&only_status));
    let empty = group_navigation(&vec![]);
    assert!(empty.normal.is_empty() && empty.settings.is_empty() && empty.status.is_empty());
}

#[test]
fn frame_title_and_props() {
    assert_eq!(title_kind("", "http://x"), TitleKind::Hidden);
    assert_eq!(title_kind("EDGE FRAME", ""), TitleKind::Text);
    assert_eq!(title_kind("EDGE FRAME", "https://github.com/ivmarkov/edge-frame"), TitleKind::Link);
    let p = frame_props(3u8, Role::Admin, None);
    assert_eq!(p.active_route, 3);
    assert_eq!(p.active_role, Role::Admin);
}

#[test]
fn demo_wifi_api_answers() {
    let api = WifiAsync;
    let caps = api.get_capabilities();
    assert!(caps.client && caps.access_point && caps.mixed);
    let found = api.scan();
    assert_eq!(found.len(), 3);
    assert_eq!(found[0].ssid, "foo");
    assert_eq!(found[0].channel, 6);
    assert_eq!(found[0].auth_method, AuthMethod::WPA2Personal);
    assert!(found[0].protocols.p802d11lr);
    assert_eq!(found[1].ssid, "bar");
    assert_eq!(found[1].auth_method, AuthMethod::WEP);
    assert_eq!(found[2].ssid, "open");
    assert_eq!(found[2].auth_method, AuthMethod::Open);
    assert_eq!(found[2].secondary_channel, SecondaryChannel::Unused);
    match api.get_configuration() {
        WifiSettings::Mixed(c, a) => {
            assert_eq!(c.ssid, "foo");
            assert_eq!(c.password, "pass");
            assert_eq!(a.conf.ssid, "iot-device");
        },
        _ => panic!("expected a mixed configuration"),
    }
    assert_eq!(WifiAsync::delay_ms(WifiOp::Scan), 4000);
    assert_eq!(WifiAsync::delay_ms(WifiOp::SetConfiguration), 500);
}

#[test]
fn mapped_entries_keep_no_prefix() {
    let p = wifi_ap::plugin();
    let mut entry = p.iter().remove(0);
    entry.api_uri_prefix = "wifi".to_string();
    let mapped = entry.map();
    assert_eq!(mapped.api_uri_prefix, "");
    assert_eq!(mapped.insertion_point, entry.insertion_point);
    assert_eq!(mapped.category, Category::Settings);
    assert!(mapped.as_nav_item);
    let mut content = p.content_plugin();
    assert_eq!(content.api_uri_prefix, "");
    content.api_uri_prefix = "wifi".to_string();
    assert_eq!(content.map().api_uri_prefix, "");
}
