//! The form of an access point's IP configuration: DHCP server, gateway/subnet
//! and name servers.
use vstd::prelude::*;

use super::{
    optional_ip_of_text, optional_ip_text, subnet_of_text, validate_optional_ip,
    validate_subnet, RouterConfiguration,
};
use crate::edge::field::{CheckedField, Field, TextField};
use crate::net::{format_subnet, ipv4_text, subnet_text};

verus! {

/// What the router form reports: nothing changed, some input is in error, or the
/// configuration it describes.
#[derive(Clone, Copy, Debug, PartialEq, Eq, Structural)]
pub enum RouterState {
    Unchanged,
    Errors,
    Conf(RouterConfiguration),
}

impl RouterState {
    pub fn conf(&self) -> (r: Option<&RouterConfiguration>)
        ensures
            match *self {
                RouterState::Conf(c) => r == Some(&c),
                _ => r is None,
            },
    {
        match self {
            RouterState::Conf(c) => Some(c),
            _ => None,
        }
    }
}

/// The inputs of the router form.
pub struct RouterForm {
    pub dhcp_server_enabled: CheckedField,
    pub subnet: TextField,
    pub dns: TextField,
    pub secondary_dns: TextField,
}

pub open spec fn optional_text(a: Option<crate::net::Ipv4Addr>) -> Seq<char> {
    match a {
        Some(x) => ipv4_text(x),
        None => Seq::empty(),
    }
}

impl RouterForm {
    /// The form for `conf`, with the values the UI state holds for its inputs.
    pub fn new(
        conf: &RouterConfiguration,
        dhcp_state: Option<bool>,
        subnet_state: Option<String>,
        dns_state: Option<String>,
        secondary_dns_state: Option<String>,
    ) -> (f: Self)
        ensures
            f.dhcp_server_enabled.initial_value == Some(conf.dhcp_enabled),
            f.subnet.initial_value matches Some(x) && x@ == subnet_text(conf.subnet),
            f.dns.initial_value matches Some(x) && x@ == optional_text(conf.dns),
            f.secondary_dns.initial_value matches Some(x) && x@ == optional_text(
                conf.secondary_dns,
            ),
            f.dhcp_server_enabled.value_state == dhcp_state,
            f.subnet.value_state == subnet_state,
            f.dns.value_state == dns_state,
            f.secondary_dns.value_state == secondary_dns_state,
            f.dhcp_server_enabled.raw_value is None,
            f.subnet.raw_value is None,
            f.dns.raw_value is None,
            f.secondary_dns.raw_value is None,
    {
        RouterForm {
            dhcp_server_enabled: Field::checked(conf.dhcp_enabled, dhcp_state),
            subnet: Field::text(format_subnet(conf.subnet), subnet_state),
            dns: Field::text(optional_ip_text(conf.dns), dns_state),
            secondary_dns: Field::text(optional_ip_text(conf.secondary_dns), secondary_dns_state),
        }
    }

    pub open spec fn spec_errors(&self) -> bool {
        ||| subnet_of_text(self.subnet.spec_raw()) is None
        ||| optional_ip_of_text(self.dns.spec_raw()) is None
        ||| optional_ip_of_text(self.secondary_dns.spec_raw()) is None
    }

    pub open spec fn spec_dirty(&self) -> bool {
        ||| self.dhcp_server_enabled.spec_dirty(false)
        ||| self.subnet.spec_dirty(subnet_of_text(self.subnet.spec_raw()) is None)
        ||| self.dns.spec_dirty(optional_ip_of_text(self.dns.spec_raw()) is None)
        ||| self.secondary_dns.spec_dirty(
            optional_ip_of_text(self.secondary_dns.spec_raw()) is None,
        )
    }

    /// What the form reports.
    pub open spec fn spec_state(&self) -> RouterState {
        if self.spec_errors() {
            RouterState::Errors
        } else if !self.spec_dirty() {
            RouterState::Unchanged
        } else {
            RouterState::Conf(
                RouterConfiguration {
                    dhcp_enabled: self.dhcp_server_enabled.spec_raw(),
                    subnet: subnet_of_text(self.subnet.spec_raw())->0,
                    dns: optional_ip_of_text(self.dns.spec_raw())->0,
                    secondary_dns: optional_ip_of_text(self.secondary_dns.spec_raw())->0,
                },
            )
        }
    }

    /// What the form reports.
    pub fn state(&self) -> (r: RouterState)
        ensures
            r == self.spec_state(),
    {
        let dhcp = self.dhcp_server_enabled.raw_value();
        let subnet = validate_subnet(self.subnet.raw_value());
        let dns = validate_optional_ip(self.dns.raw_value());
        let sdns = validate_optional_ip(self.secondary_dns.raw_value());
        if subnet.is_err() || dns.is_err() || sdns.is_err() {
            return RouterState::Errors;
        }
        let dirty = self.dhcp_server_enabled.dirty_given(false) || self.subnet.dirty_given(false)
            || self.dns.dirty_given(false) || self.secondary_dns.dirty_given(false);
        if !dirty {
            RouterState::Unchanged
        } else {
            RouterState::Conf(
                RouterConfiguration {
                    dhcp_enabled: dhcp,
                    subnet: subnet.unwrap(),
                    dns: dns.unwrap(),
                    secondary_dns: sdns.unwrap(),
                },
            )
        }
    }
}

/// A form whose inputs read as a subnet (with a mask in 1..=32) and two optional
/// name servers, and one of whose inputs differs from what it started with, reports
/// exactly those: the DHCP switch as it shows, the subnet, the name server from the
/// name server input and the secondary one from the secondary input.
pub proof fn law_router_form_reports_its_inputs(
    f: RouterForm,
    subnet: crate::net::Subnet,
    dns: Option<crate::net::Ipv4Addr>,
    secondary_dns: Option<crate::net::Ipv4Addr>,
)
    requires
        1 <= subnet.mask <= 32,
        f.subnet.spec_raw() == subnet_text(subnet),
        f.dns.spec_raw() == optional_text(dns),
        f.secondary_dns.spec_raw() == optional_text(secondary_dns),
        f.dhcp_server_enabled.spec_dirty(false) || f.subnet.spec_dirty(false)
            || f.dns.spec_dirty(false) || f.secondary_dns.spec_dirty(false),
    ensures
        f.spec_state() == RouterState::Conf(
            RouterConfiguration {
                dhcp_enabled: f.dhcp_server_enabled.spec_raw(),
                subnet,
                dns,
                secondary_dns,
            },
        ),
{
    crate::net::law_subnet_text_round_trip(subnet);
    super::law_optional_ip_round_trip(dns);
    super::law_optional_ip_round_trip(secondary_dns);
}

/// A form whose inputs all read as values and none of which differs from what it
/// started with reports no change.
pub proof fn law_router_form_untouched_is_unchanged(f: RouterForm)
    requires
        subnet_of_text(f.subnet.spec_raw()) is Some,
        optional_ip_of_text(f.dns.spec_raw()) is Some,
        optional_ip_of_text(f.secondary_dns.spec_raw()) is Some,
        !f.dhcp_server_enabled.spec_dirty(false),
        !f.subnet.spec_dirty(false),
        !f.dns.spec_dirty(false),
        !f.secondary_dns.spec_dirty(false),
    ensures
        f.spec_state() == RouterState::Unchanged,
{
}

/// A form with an input that does not read as its value reports errors, whatever
/// else it holds.
pub proof fn law_router_form_bad_input_is_error(f: RouterForm)
    requires
        subnet_of_text(f.subnet.spec_raw()) is None
            || optional_ip_of_text(f.dns.spec_raw()) is None
            || optional_ip_of_text(f.secondary_dns.spec_raw()) is None,
    ensures
        f.spec_state() == RouterState::Errors,
{
}

} // verus!
