use std::io::Read;
use edge_frame::edge::assets::{empty_slots, is_served, AssetMetadata, AssetsError, MAX_ASSETS};
use edge_frame::edge::dto::Role;
use edge_frame::edge::ipv4::router::{RouterForm, RouterState};
use edge_frame::edge::ipv4::RouterConfiguration;
use edge_frame::edge::role::{
    auth_state_view, current_role, logged_in_message, login_failure_hidden, logout_role, role_view,
    AuthStateView, Credentials, RoleState, RoleStore, RoleView,
};
use edge_frame::edge::wifi::ap::{validate_password, validate_password_confirm, ApForm, ApState};
use edge_frame::edge::wifi::sta::StaState;
use edge_frame::edge::ipv4::client::ClientState;
use edge_frame::edge::wifi::{
    apply_change, ip_conf_enabled_initially, wifi_state, AccessPointConfiguration, AuthMethod,
    Change, Configuration, FormStates, WifiConfScope, WifiIpConfScope, WifiState,
};
use edge_frame::edge::wifi_setup::{save_enabled, to_save, WifiConfStore};
use edge_frame::lambda::{shared, Lambda};
use edge_frame::redust::{Reducible2, ValueAction, ValueState};
use edge_frame::util::if_true;
use edge_frame::text::fits_utf8;
use edge_frame::utils::callback2::Callback2;

#[test]
fn asset_metadata_of_a_compressed_index() {
    let m = AssetMetadata::derive("index.html.gz");
    assert_eq!(m.name, "");
    assert_eq!(m.cache_control, Some("no-store"));
    assert_eq!(m.content_encoding, Some("gzip"));
    assert_eq!(m.content_type, Some("text/html"));
    assert_eq!(m.uri(), "/");
    assert_eq!(
        m.headers(),
        vec![("Cache-Control", "no-store"), ("Content-Encoding", "gzip"), ("Content-Type", "text/html")]
    );
}

#[test]
fn asset_metadata_of_plain_files() {
    let m = AssetMetadata::derive("app.js");
    assert_eq!(m.name, "app.js");
    assert_eq!(m.cache_control, Some("public, max-age=31536000"));
    assert_eq!(m.content_encoding, None);
    assert_eq!(m.content_type, Some("text/javascript"));
    assert_eq!(m.uri(), "/app.js");
    let w = AssetMetadata::derive("app_bg.WASM.GZ");
    assert_eq!(w.name, "app_bg.WASM");
    assert_eq!(w.content_type, Some("application/wasm"));
    let other = AssetMetadata::derive("favicon.ico");
    assert_eq!(other.content_type, None);
    assert_eq!(other.headers(), vec![("Cache-Control", "public, max-age=31536000")]);
    assert_eq!(AssetMetadata::derive("style.css").content_type, Some("text/css"));
}

#[test]
fn asset_slots_and_serving() {
    assert_eq!(empty_slots(0), Ok(MAX_ASSETS));
    assert_eq!(empty_slots(MAX_ASSETS), Ok(0));
    assert_eq!(empty_slots(MAX_ASSETS + 1), Err(AssetsError::TooManyAssets));
    assert!(is_served("a", &[1]));
    assert!(!is_served("", &[1]));
    assert!(!is_served("a", &[]));
}

#[test]
fn roles_read_and_compare() {
    assert_eq!(Role::from_text("admin").unwrap(), Role::Admin);
    assert!(Role::from_text("Admin").is_err());
    assert_eq!(Role::try_from_primitive(1), Some(Role::User));
    assert_eq!(Role::try_from_primitive(3), None);
    assert!(Role::Admin.at_least(&Role::User));
    assert!(!Role::NoRole.at_least(&Role::User));
    assert_eq!(Role::User.as_str(), "user");
    assert_eq!(Role::Admin.message(), "Admin");
    assert_eq!(Role::default(), Role::NoRole);
}

fn creds(u: &str, p: &str) -> Credentials {
    Credentials { username: u.to_string(), password: p.to_string() }
}

#[test]
fn role_views() {
    assert!(matches!(role_view(&Some(RoleState::Role(Role::Admin)), Role::User, true), RoleView::Content));
    assert!(matches!(role_view(&None, Role::User, true), RoleView::Loading));
    assert!(matches!(role_view(&None, Role::User, false), RoleView::Hidden));
    match role_view(&Some(RoleState::Authenticating(creds("u", "p"))), Role::User, true) {
        RoleView::Login { credentials, authenticating, auth_failed } => {
            assert_eq!(credentials.username, "u");
            assert!(authenticating);
            assert!(!auth_failed);
        },
        _ => panic!("expected a login dialog"),
    }
    match role_view(&Some(RoleState::AuthenticationFailed(creds("u", "p"))), Role::User, true) {
        RoleView::Login { authenticating, auth_failed, .. } => assert!(!authenticating && auth_failed),
        _ => panic!("expected a login dialog"),
    }
    assert!(matches!(
        role_view(&Some(RoleState::Role(Role::NoRole)), Role::User, true),
        RoleView::Login { authenticating: false, auth_failed: false, .. }
    ));
    assert!(matches!(role_view(&Some(RoleState::Role(Role::User)), Role::Admin, true), RoleView::NoPermissions));
    assert!(matches!(role_view(&Some(RoleState::Role(Role::User)), Role::Admin, false), RoleView::Hidden));
    assert!(matches!(role_view(&Some(RoleState::LoggedOut), Role::User, true), RoleView::NoPermissions));
}

#[test]
fn role_status_and_store() {
    assert_eq!(logout_role(&Some(RoleState::Role(Role::User))), Some(Role::User));
    assert_eq!(current_role(&Some(RoleState::LoggedOut)), None);
    assert_eq!(auth_state_view(None), AuthStateView::Loading);
    assert_eq!(auth_state_view(Some(Role::NoRole)), AuthStateView::LoggedOut);
    assert_eq!(auth_state_view(Some(Role::Admin)), AuthStateView::LoggedIn(Role::Admin));
    assert_eq!(logged_in_message(Role::User), "You are logged in as user.");
    assert!(login_failure_hidden(false, false));
    assert!(login_failure_hidden(true, true));
    assert!(!login_failure_hidden(true, false));
    let store = RoleStore::default().apply(RoleState::Role(Role::Admin));
    assert!(matches!(store.0, Some(RoleState::Role(Role::Admin))));
}

#[test]
fn password_validators() {
    assert_eq!(validate_password("".to_string()), Err("Password cannot be empty".to_string()));
    assert_eq!(validate_password("x".to_string()), Ok("x".to_string()));
    assert_eq!(validate_password_confirm("x".to_string(), &"x".to_string()), Ok("x".to_string()));
    assert_eq!(
        validate_password_confirm("y".to_string(), &"x".to_string()),
        Err("Passwords do not match".to_string())
    );
}

#[test]
fn ap_form_reports_changes() {
    let conf = AccessPointConfiguration::default();
    let form = ApForm::new(&conf, None, None, None, None, None);
    assert!(matches!(form.state(false), ApState::Unchanged));
    let form = ApForm::new(&conf, Some("lab".to_string()), None, None, None, None);
    match form.state(false) {
        ApState::Conf(c) => {
            assert_eq!(c.ssid, "lab");
            assert_eq!(c.auth_method, AuthMethod::Open);
        },
        _ => panic!("expected settings"),
    }
    let form = ApForm::new(&conf, None, None, Some("wpa2personal".to_string()), None, None);
    assert!(matches!(form.state(false), ApState::Errors));
    assert!(!matches!(form.state(true), ApState::Errors));
}

#[test]
fn ap_form_limits_name_and_password() {
    assert!(fits_utf8("", 0));
    assert!(fits_utf8("abc", 3));
    assert!(!fits_utf8("abcd", 3));
    assert!(fits_utf8("é", 2));
    assert!(!fits_utf8("é", 1));
    assert!(!fits_utf8("日本", 5));
    assert!(fits_utf8("日本", 6));
    assert!(!fits_utf8("🦀", 3));
    let conf = AccessPointConfiguration::default();
    let name32 = "n".repeat(32);
    let form = ApForm::new(&conf, Some(name32.clone()), None, None, None, None);
    assert!(form.state_fits(false));
    match form.state(false) {
        ApState::Conf(c) => assert_eq!(c.ssid, name32),
        _ => panic!("expected settings"),
    }
    let form = ApForm::new(&conf, Some("n".repeat(33)), None, None, None, None);
    assert!(!form.state_fits(false));
    let form = ApForm::new(&conf, Some("é".repeat(17)), None, None, None, None);
    assert!(!form.state_fits(false));
    let long = "p".repeat(65);
    let form = ApForm::new(
        &conf,
        None,
        None,
        Some("wpa2personal".to_string()),
        Some(long.clone()),
        Some(long),
    );
    assert!(!form.state_fits(false));
    let fitting = "p".repeat(64);
    let form = ApForm::new(
        &conf,
        None,
        None,
        Some("wpa2personal".to_string()),
        Some(fitting.clone()),
        Some(fitting.clone()),
    );
    assert!(form.state_fits(false));
    match form.state(false) {
        ApState::Conf(c) => assert_eq!(c.password, fitting),
        _ => panic!("expected settings"),
    }
    // A form that reports no settings is accepted whatever its texts.
    let form = ApForm::new(&conf, Some("n".repeat(40)), None, Some("wpa2personal".to_string()), None, None);
    assert!(form.state_fits(false));
    assert!(matches!(form.state(false), ApState::Errors));
}

#[test]
fn router_form_reports_changes() {
    let conf = RouterConfiguration::default();
    let form = RouterForm::new(&conf, None, None, None, None);
    assert!(matches!(form.state(), RouterState::Unchanged));
    let form = RouterForm::new(&conf, None, Some("bad".to_string()), None, None);
    assert!(matches!(form.state(), RouterState::Errors));
}

#[test]
fn wifi_state_combines_forms() {
    let unchanged = FormStates {
        ap: ApState::Unchanged,
        sta: StaState::Unchanged,
        router: RouterState::Unchanged,
        client: ClientState::Unchanged,
    };
    let scope = WifiConfScope::ApSta(WifiIpConfScope::Optional, WifiIpConfScope::Disabled);
    assert!(matches!(wifi_state(scope, &unchanged, true, true), WifiState::Unchanged));
    let changed = apply_change(unchanged, Change::ApIp(RouterState::Conf(RouterConfiguration::default())));
    match wifi_state(scope, &changed, true, true) {
        WifiState::Conf(c) => {
            assert!(matches!(c.conf, Configuration::Mixed(_, _)));
            assert_eq!(c.ap_ip_conf, Some(RouterConfiguration::default()));
            assert_eq!(c.sta_ip_conf, None);
        },
        _ => panic!("expected a configuration"),
    }
    match wifi_state(scope, &changed, false, true) {
        WifiState::Conf(c) => assert_eq!(c.ap_ip_conf, None),
        _ => panic!("expected a configuration"),
    }
    let failed = apply_change(changed, Change::Ap(ApState::Errors));
    let state = wifi_state(scope, &failed, true, true);
    assert!(matches!(state, WifiState::Errors));
    assert!(!save_enabled(&state));
    assert!(to_save(&state).is_none());
    assert!(ip_conf_enabled_initially(WifiIpConfScope::Enabled, false));
    assert!(ip_conf_enabled_initially(WifiIpConfScope::Optional, true));
    assert!(!ip_conf_enabled_initially(WifiIpConfScope::Optional, false));
    assert!(!ip_conf_enabled_initially(WifiIpConfScope::Disabled, true));
}

#[test]
fn wifi_store_shows_what_was_stored() {
    let shown = WifiConfStore::default().shown();
    assert!(matches!(shown.conf, Configuration::Mixed(_, _)));
    let mut conf = shown.duplicate();
    conf.ap_ip_conf = None;
    let store = WifiConfStore::default().apply(conf);
    assert_eq!(store.shown().ap_ip_conf, None);
}

#[test]
fn lambdas_call_their_closures() {
    let double = shared(|x: u32| x * 2);
    assert_eq!(double.call(4), Some(8));
    assert_eq!(double.duplicate().call(5), Some(10));
    let once: Lambda<u32, u32, fn(u32) -> u32, _> = Lambda::once(move |x: u32| x + 1);
    let copy = once.duplicate();
    assert_eq!(once.call(1), Some(2));
    assert_eq!(copy.call(1), None);
    let shifted = double.reform(|s: &str| s.len() as u32, |n: u32| n + 1);
    assert_eq!(shifted.call("abc"), Some(Some(7)));
    let nothing: Lambda<u8, u32, fn(u8) -> u32, fn(u8) -> u32> = Lambda::from_fn(|_| 0);
    assert_eq!(nothing.call(3), Some(0));
}

#[test]
fn callbacks_call_their_closures() {
    let inc = edge_frame::utils::callback2::shared(|x: i32| x + 1);
    assert_eq!(inc.call(1), Some(2));
    let once: Callback2<i32, i32, fn(i32) -> i32, _> = Callback2::once(move |x: i32| x - 1);
    assert_eq!(once.call(1), Some(0));
    assert_eq!(once.call(1), None);
}

#[test]
fn value_state_update_replaces() {
    let s = ValueState::new(1u32);
    assert_eq!(*s.get(), 1);
    let s = s.reduce(ValueAction::Update(5));
    assert_eq!(s, ValueState(5));
    assert_eq!(if_true(true, "is-active"), "is-active");
    assert_eq!(if_true(false, "is-active"), "");
}

#[test]
fn asset_compression_and_build_lines() {
    let data = b"<html><body>hello hello hello</body></html>".to_vec();
    let gz = edge_frame::edge::assets::compress_asset(&data).unwrap();
    assert_eq!(&gz[..4], &[0x1f, 0x8b, 8, 0]);
    assert_eq!(gz[9], 255);
    let mut back = Vec::new();
    flate2::read::GzDecoder::new(&gz[..]).read_to_end(&mut back).unwrap();
    assert_eq!(back, data);
    assert_eq!(edge_frame::edge::assets::compressed_file_name("index.html"), "index.html.gz");
    assert_eq!(
        edge_frame::edge::assets::too_many_assets_message(),
        "Maximum number of supported assets is 10"
    );
    let (name, path) = edge_frame::edge::assets::asset_env_lines("web", 3, "app.js.gz", "/out/app.js.gz");
    assert_eq!(name, "cargo:rustc-env=web_EDGE_FRAME_ASSET_NAME_3=app.js.gz");
    assert_eq!(path, "cargo:rustc-env=web_EDGE_FRAME_ASSET_DATA_3=/out/app.js.gz");
}

#[test]
fn asset_lists_are_padded() {
    let files = vec!["a.gz".to_string(), "b.gz".to_string()];
    let padded = edge_frame::edge::assets::pad_assets(files, &"__empty__".to_string()).unwrap();
    assert_eq!(padded.len(), MAX_ASSETS);
    assert_eq!(padded[0], "a.gz");
    assert_eq!(padded[1], "b.gz");
    assert!(padded[2..].iter().all(|f| f == "__empty__"));
    let many: Vec<String> = (0..11).map(|i| format!("{i}.gz")).collect();
    assert_eq!(
        edge_frame::edge::assets::pad_assets(many, &"__empty__".to_string()),
        Err(AssetsError::TooManyAssets)
    );
}

#[test]
fn noop_and_reform_give_results() {
    let n = Lambda::<u8, u32, fn(u8) -> u32, fn(u8) -> u32>::noop();
    assert_eq!(n.call(7), Some(0));
    assert_eq!(n.call(8), Some(0));
    let c = Callback2::<u8, String, fn(u8) -> String, fn(u8) -> String>::noop();
    assert_eq!(c.call(1), Some(String::new()));
    let times_ten = shared(|x: i32| x * 10);
    let reformed = times_ten.reform(|a: i32| a + 1, |y: i32| y * 2);
    assert_eq!(reformed.call(3), Some(Some(80)));
    let cb = edge_frame::utils::callback2::shared(|x: i32| x * 10);
    assert_eq!(cb.reform(|a: i32| a + 1, |y: i32| y * 2).call(3), Some(Some(80)));
}

#[test]
fn value_state_defaults_and_large_asset_indices() {
    let s: ValueState<u32> = ValueState::default();
    assert_eq!(s, ValueState::new(0));
    let (name, _) = edge_frame::edge::assets::asset_env_lines("m", 12345678901, "a", "p");
    assert_eq!(name, "cargo:rustc-env=m_EDGE_FRAME_ASSET_NAME_12345678901=a");
}

#[test]
fn field_update_sets_both_values_and_reports() {
    let mut f: edge_frame::edge::field::Field<String> = edge_frame::edge::field::Field::text("a".to_string(), None);
    let count = std::cell::Cell::new(0);
    f.do_update("b".to_string(), &|_: ()| count.set(count.get() + 1));
    assert_eq!(f.raw_value(), "b");
    assert_eq!(f.value_state, Some("b".to_string()));
    assert_eq!(count.get(), 1);
}
