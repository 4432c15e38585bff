//! The wifi setup screen: the stored configuration it starts from and what its
//! save button stores.
use vstd::prelude::*;

use super::wifi::{WifiConf, WifiConfView, WifiState};

verus! {

/// The wifi configuration of the application, once it is known.
pub struct WifiConfStore(pub Option<WifiConf>);

/// The configuration the setup screen starts from: the stored one, else the default.
pub open spec fn store_shown(store: WifiConfStore) -> WifiConfView {
    match store.0 {
        Some(c) => c@,
        None => WifiConfView {
            conf: super::wifi::ConfigurationView::Mixed(
                super::wifi::default_sta_conf(),
                super::wifi::default_ap_conf(),
            ),
            ap_ip_conf: Some(super::ipv4::RouterConfiguration::spec_default()),
            sta_ip_conf: Some(super::ipv4::ClientConfiguration::DHCP),
        },
    }
}

/// The screen starts from the configuration last stored.
pub proof fn law_store_shows_stored(conf: WifiConf)
    ensures
        store_shown(WifiConfStore(Some(conf))) == conf@,
{
}

impl WifiConfStore {
    /// The store after a configuration is dispatched to it.
    pub fn apply(self, conf: WifiConf) -> (r: WifiConfStore)
        ensures
            r.0 == Some(conf),
    {
        WifiConfStore(Some(conf))
    }

    /// The configuration the setup screen starts from: the stored one, else the default.
    pub fn shown(&self) -> (r: WifiConf)
        ensures
            r@ == store_shown(*self),
    {
        match &self.0 {
            Some(c) => c.duplicate(),
            None => WifiConf::default(),
        }
    }
}

impl Default for WifiConfStore {
    fn default() -> (r: Self)
        ensures
            r.0 is None,
    {
        WifiConfStore(None)
    }
}

/// Whether the save button is enabled: the forms describe a configuration.
pub fn save_enabled(state: &WifiState) -> (r: bool)
    ensures
        r == (*state is Conf),
{
    matches!(state, WifiState::Conf(_))
}

/// What the save button stores: the configuration the forms describe, if they do.
pub fn to_save(state: &WifiState) -> (r: Option<WifiConf>)
    ensures
        match *state {
            WifiState::Conf(c) => r matches Some(x) && x@ == c@,
            _ => r is None,
        },
{
    match state {
        WifiState::Conf(c) => Some(c.duplicate()),
        _ => None,
    }
}

} // verus!
