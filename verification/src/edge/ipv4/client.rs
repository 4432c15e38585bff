//! The form of a client interface's IP configuration: DHCP, or a fixed
//! address, gateway/subnet and name servers.
use vstd::prelude::*;

use super::{
    ip_of_text, optional_ip_of_text, optional_ip_text, subnet_of_text, validate_ip,
    validate_optional_ip, validate_subnet, ClientConfiguration, ClientSettings,
};
use crate::edge::field::{CheckedField, Field, TextField};
use crate::net::{format_ipv4, format_subnet, ipv4_text, subnet_text};

verus! {

/// What the client form reports: nothing changed, some input is in error, or the
/// configuration it describes.
#[derive(Clone, Copy, Debug, PartialEq, Eq, Structural)]
pub enum ClientState {
    Unchanged,
    Errors,
    Conf(ClientConfiguration),
}

impl ClientState {
    pub fn conf(&self) -> (r: Option<&ClientConfiguration>)
        ensures
            match *self {
                ClientState::Conf(c) => r == Some(&c),
                _ => r is None,
            },
    {
        match self {
            ClientState::Conf(c) => Some(c),
            _ => None,
        }
    }
}

/// The inputs of the client form.
pub struct ClientForm {
    pub dhcp_enabled: CheckedField,
    pub subnet: TextField,
    pub ip: TextField,
    pub dns: TextField,
    pub secondary_dns: TextField,
}

/// The texts the inputs of the client form start with, for a configuration.
pub open spec fn client_initial_texts(conf: ClientConfiguration) -> (
    bool,
    Seq<char>,
    Seq<char>,
    Seq<char>,
    Seq<char>,
) {
    match conf {
        ClientConfiguration::DHCP => (true, Seq::empty(), Seq::empty(), Seq::empty(), Seq::empty()),
        ClientConfiguration::Fixed(s) => (
            false,
            subnet_text(s.subnet),
            ipv4_text(s.ip),
            match s.dns {
                Some(a) => ipv4_text(a),
                None => Seq::empty(),
            },
            match s.secondary_dns {
                Some(a) => ipv4_text(a),
                None => Seq::empty(),
            },
        ),
    }
}

impl ClientForm {
    /// The form for `conf`, with the values the UI state holds for its inputs.
    pub fn new(
        conf: &ClientConfiguration,
        dhcp_state: Option<bool>,
        subnet_state: Option<String>,
        ip_state: Option<String>,
        dns_state: Option<String>,
        secondary_dns_state: Option<String>,
    ) -> (f: Self)
        ensures
            ({
                let (d, s, i, n, n2) = client_initial_texts(*conf);
                &&& f.dhcp_enabled.initial_value == Some(d)
                &&& f.subnet.initial_value matches Some(x) && x@ == s
                &&& f.ip.initial_value matches Some(x) && x@ == i
                &&& f.dns.initial_value matches Some(x) && x@ == n
                &&& f.secondary_dns.initial_value matches Some(x) && x@ == n2
            }),
            f.dhcp_enabled.value_state == dhcp_state,
            f.subnet.value_state == subnet_state,
            f.ip.value_state == ip_state,
            f.dns.value_state == dns_state,
            f.secondary_dns.value_state == secondary_dns_state,
            f.dhcp_enabled.raw_value is None,
            f.subnet.raw_value is None,
            f.ip.raw_value is None,
            f.dns.raw_value is None,
            f.secondary_dns.raw_value is None,
    {
        let fixed = conf.as_fixed_settings_ref();
        let (subnet, ip, dns, sdns) = match fixed {
            Some(s) => (
                format_subnet(s.subnet),
                format_ipv4(s.ip),
                optional_ip_text(s.dns),
                optional_ip_text(s.secondary_dns),
            ),
            None => (String::new(), String::new(), String::new(), String::new()),
        };
        ClientForm {
            dhcp_enabled: Field::checked(fixed.is_none(), dhcp_state),
            subnet: Field::text(subnet, subnet_state),
            ip: Field::text(ip, ip_state),
            dns: Field::text(dns, dns_state),
            secondary_dns: Field::text(sdns, secondary_dns_state),
        }
    }

    /// Some input of the fixed settings is in error.
    pub open spec fn fixed_errors(&self) -> bool {
        ||| subnet_of_text(self.subnet.spec_raw()) is None
        ||| ip_of_text(self.ip.spec_raw()) is None
        ||| optional_ip_of_text(self.dns.spec_raw()) is None
        ||| optional_ip_of_text(self.secondary_dns.spec_raw()) is None
    }

    /// Some input of the fixed settings differs from what it started with.
    pub open spec fn fixed_dirty(&self) -> bool {
        ||| self.subnet.spec_dirty(subnet_of_text(self.subnet.spec_raw()) is None)
        ||| self.ip.spec_dirty(ip_of_text(self.ip.spec_raw()) is None)
        ||| self.dns.spec_dirty(optional_ip_of_text(self.dns.spec_raw()) is None)
        ||| self.secondary_dns.spec_dirty(
            optional_ip_of_text(self.secondary_dns.spec_raw()) is None,
        )
    }

    /// What the form reports. Errors only count while it is enabled, and the fixed
    /// settings only count while DHCP is off.
    pub open spec fn spec_state(&self, disabled: bool) -> ClientState {
        let dhcp = self.dhcp_enabled.spec_raw();
        if !disabled && !dhcp && self.fixed_errors() {
            ClientState::Errors
        } else if !(self.dhcp_enabled.spec_dirty(false) || !dhcp && self.fixed_dirty()) {
            ClientState::Unchanged
        } else if dhcp {
            ClientState::Conf(ClientConfiguration::DHCP)
        } else {
            ClientState::Conf(
                ClientConfiguration::Fixed(
                    ClientSettings {
                        subnet: subnet_of_text(self.subnet.spec_raw())->0,
                        ip: ip_of_text(self.ip.spec_raw())->0,
                        dns: optional_ip_of_text(self.dns.spec_raw())->0,
                        secondary_dns: optional_ip_of_text(self.secondary_dns.spec_raw())->0,
                    },
                ),
            )
        }
    }

    /// What the form reports. A disabled form whose fixed settings are in error while
    /// DHCP is off has no configuration to report.
    pub fn state(&self, disabled: bool) -> (r: ClientState)
        requires
            !(disabled && !self.dhcp_enabled.spec_raw() && self.fixed_errors()),
        ensures
            r == self.spec_state(disabled),
    {
        let dhcp = self.dhcp_enabled.raw_value();
        let subnet = validate_subnet(self.subnet.raw_value());
        let ip = validate_ip(self.ip.raw_value());
        let dns = validate_optional_ip(self.dns.raw_value());
        let sdns = validate_optional_ip(self.secondary_dns.raw_value());
        let errors = subnet.is_err() || ip.is_err() || dns.is_err() || sdns.is_err();
        if !disabled && !dhcp && errors {
            return ClientState::Errors;
        }
        let dirty = self.dhcp_enabled.dirty_given(false) || !dhcp && (self.subnet.dirty_given(
            subnet.is_err(),
        ) || self.ip.dirty_given(ip.is_err()) || self.dns.dirty_given(dns.is_err())
            || self.secondary_dns.dirty_given(sdns.is_err()));
        if !dirty {
            ClientState::Unchanged
        } else if dhcp {
            ClientState::Conf(ClientConfiguration::DHCP)
        } else {
            ClientState::Conf(
                ClientConfiguration::Fixed(
                    ClientSettings {
                        subnet: subnet.unwrap(),
                        ip: ip.unwrap(),
                        dns: dns.unwrap(),
                        secondary_dns: sdns.unwrap(),
                    },
                ),
            )
        }
    }
}

/// A form with DHCP off whose inputs read as a subnet (with a mask in 1..=32), an
/// address and two optional name servers, and one of whose inputs differs from what
/// it started with, reports fixed settings of exactly those: the address from the
/// address input, the subnet from the subnet input, the name servers from theirs.
pub proof fn law_client_form_reports_fixed_inputs(
    f: ClientForm,
    disabled: bool,
    subnet: crate::net::Subnet,
    ip: crate::net::Ipv4Addr,
    dns: Option<crate::net::Ipv4Addr>,
    secondary_dns: Option<crate::net::Ipv4Addr>,
)
    requires
        1 <= subnet.mask <= 32,
        !f.dhcp_enabled.spec_raw(),
        f.subnet.spec_raw() == subnet_text(subnet),
        f.ip.spec_raw() == ipv4_text(ip),
        f.dns.spec_raw() == super::router::optional_text(dns),
        f.secondary_dns.spec_raw() == super::router::optional_text(secondary_dns),
        f.dhcp_enabled.spec_dirty(false) || f.subnet.spec_dirty(false) || f.ip.spec_dirty(
            false,
        ) || f.dns.spec_dirty(false) || f.secondary_dns.spec_dirty(false),
    ensures
        f.spec_state(disabled) == ClientState::Conf(
            ClientConfiguration::Fixed(ClientSettings { ip, subnet, dns, secondary_dns }),
        ),
{
    crate::net::law_subnet_text_round_trip(subnet);
    super::law_optional_ip_round_trip(Some(ip));
    super::law_optional_ip_round_trip(dns);
    super::law_optional_ip_round_trip(secondary_dns);
    assert(ip_of_text(ipv4_text(ip)) == Some(ip));
}

/// A form whose DHCP switch is on and was switched reports DHCP, whatever its other
/// inputs hold and whether or not it is enabled.
pub proof fn law_client_form_switched_to_dhcp(f: ClientForm, disabled: bool)
    requires
        f.dhcp_enabled.spec_raw(),
        f.dhcp_enabled.spec_dirty(false),
    ensures
        f.spec_state(disabled) == ClientState::Conf(ClientConfiguration::DHCP),
{
}

/// An enabled form with DHCP off and an input of the fixed settings that does not
/// read as its value reports errors.
pub proof fn law_client_form_bad_fixed_input_is_error(f: ClientForm)
    requires
        !f.dhcp_enabled.spec_raw(),
        subnet_of_text(f.subnet.spec_raw()) is None || ip_of_text(f.ip.spec_raw()) is None
            || optional_ip_of_text(f.dns.spec_raw()) is None || optional_ip_of_text(
            f.secondary_dns.spec_raw(),
        ) is None,
    ensures
        f.spec_state(false) == ClientState::Errors,
{
}

/// A form none of whose inputs differs from what it started with, and whose fixed
/// inputs read as values where DHCP is off, reports no change.
pub proof fn law_client_form_untouched_is_unchanged(f: ClientForm, disabled: bool)
    requires
        !f.dhcp_enabled.spec_dirty(false),
        !f.subnet.spec_dirty(false),
        !f.ip.spec_dirty(false),
        !f.dns.spec_dirty(false),
        !f.secondary_dns.spec_dirty(false),
        !f.dhcp_enabled.spec_raw() ==> {
            &&& subnet_of_text(f.subnet.spec_raw()) is Some
            &&& ip_of_text(f.ip.spec_raw()) is Some
            &&& optional_ip_of_text(f.dns.spec_raw()) is Some
            &&& optional_ip_of_text(f.secondary_dns.spec_raw()) is Some
        },
    ensures
        f.spec_state(disabled) == ClientState::Unchanged,
{
}

} // verus!
