//! IP configuration of the station (client) and access point (router)
//! interfaces, and the validators of their form inputs.
use vstd::prelude::*;
use vstd::string::*;

use crate::net::{
    dec3, format_ipv4, ipv4_text, law_ipv4_text_injective, parse_ipv4, parse_subnet, subnet_err,
    subnet_from_str, Ipv4Addr, Subnet,
};
use crate::text::{is_blank, is_blank_exec};

pub mod client;
pub mod router;

verus! {

/// Fixed IP settings of a client interface.
#[derive(Clone, Copy, Debug, PartialEq, Eq, Structural)]
pub struct ClientSettings {
    pub ip: Ipv4Addr,
    pub subnet: Subnet,
    pub dns: Option<Ipv4Addr>,
    pub secondary_dns: Option<Ipv4Addr>,
}

/// The IP configuration of a client interface: by DHCP (without a host name), or fixed.
#[derive(Clone, Copy, Debug, PartialEq, Eq, Structural)]
pub enum ClientConfiguration {
    DHCP,
    Fixed(ClientSettings),
}

/// The IP configuration of an access point interface.
#[derive(Clone, Copy, Debug, PartialEq, Eq, Structural)]
pub struct RouterConfiguration {
    pub subnet: Subnet,
    pub dhcp_enabled: bool,
    pub dns: Option<Ipv4Addr>,
    pub secondary_dns: Option<Ipv4Addr>,
}

pub open spec fn default_gateway() -> Subnet {
    Subnet { gateway: Ipv4Addr(192, 168, 71, 1), mask: 24 }
}

impl ClientSettings {
    pub open spec fn spec_default() -> ClientSettings {
        ClientSettings {
            ip: Ipv4Addr(192, 168, 71, 200),
            subnet: default_gateway(),
            dns: Some(Ipv4Addr(8, 8, 8, 8)),
            secondary_dns: Some(Ipv4Addr(8, 8, 4, 4)),
        }
    }
}

impl Default for ClientSettings {
    fn default() -> (r: Self)
        ensures
            r == ClientSettings::spec_default(),
    {
        ClientSettings {
            ip: Ipv4Addr(192, 168, 71, 200),
            subnet: Subnet { gateway: Ipv4Addr(192, 168, 71, 1), mask: 24 },
            dns: Some(Ipv4Addr(8, 8, 8, 8)),
            secondary_dns: Some(Ipv4Addr(8, 8, 4, 4)),
        }
    }
}

impl Default for ClientConfiguration {
    fn default() -> (r: Self)
        ensures
            r == ClientConfiguration::DHCP,
    {
        ClientConfiguration::DHCP
    }
}

impl ClientConfiguration {
    pub fn as_fixed_settings_ref(&self) -> (r: Option<&ClientSettings>)
        ensures
            match *self {
                ClientConfiguration::Fixed(s) => r == Some(&s),
                ClientConfiguration::DHCP => r is None,
            },
    {
        match self {
            ClientConfiguration::Fixed(s) => Some(s),
            ClientConfiguration::DHCP => None,
        }
    }
}

impl RouterConfiguration {
    pub open spec fn spec_default() -> RouterConfiguration {
        RouterConfiguration {
            subnet: default_gateway(),
            dhcp_enabled: true,
            dns: Some(Ipv4Addr(8, 8, 8, 8)),
            secondary_dns: Some(Ipv4Addr(8, 8, 4, 4)),
        }
    }
}

impl Default for RouterConfiguration {
    fn default() -> (r: Self)
        ensures
            r == RouterConfiguration::spec_default(),
    {
        RouterConfiguration {
            subnet: Subnet { gateway: Ipv4Addr(192, 168, 71, 1), mask: 24 },
            dhcp_enabled: true,
            dns: Some(Ipv4Addr(8, 8, 8, 8)),
            secondary_dns: Some(Ipv4Addr(8, 8, 4, 4)),
        }
    }
}

/// The message shown for a text that is not an IPv4 address.
pub open spec fn ip_error_text() -> Seq<char> {
    "Invalid IP address format, expected XXX.XXX.XXX.XXX"@
}

/// The address whose dotted-quad text `s` is, if there is one.
pub open spec fn ip_of_text(s: Seq<char>) -> Option<Ipv4Addr> {
    if exists|a: Ipv4Addr| ipv4_text(a) == s {
        Some(choose|a: Ipv4Addr| ipv4_text(a) == s)
    } else {
        None
    }
}

/// The subnet that `embedded_svc` reads from `s`, if it reads one.
pub open spec fn subnet_of_text(s: Seq<char>) -> Option<Subnet> {
    match subnet_from_str(s) {
        Ok((a, b, c, d, m)) => Some(Subnet { gateway: Ipv4Addr(a, b, c, d), mask: m }),
        Err(_) => None,
    }
}

/// What an optional address input accepts: blank text for no address, else the
/// text of an address.
pub open spec fn optional_ip_of_text(s: Seq<char>) -> Option<Option<Ipv4Addr>> {
    if is_blank(s) {
        Some(None)
    } else {
        match ip_of_text(s) {
            Some(a) => Some(Some(a)),
            None => None,
        }
    }
}

/// The text of an address reads back as that address, in an optional address
/// input too; blank text there reads as no address.
pub proof fn law_optional_ip_round_trip(a: Option<Ipv4Addr>)
    ensures
        optional_ip_of_text(
            match a {
                Some(x) => ipv4_text(x),
                None => Seq::<char>::empty(),
            },
        ) == Some(a),
{
    match a {
        Some(x) => {
            let t = ipv4_text(x);
            reveal(ipv4_text);
            assert(t[0] == dec3(x.0 as int)[0]);
            assert(!is_blank(t)) by {
                assert(!crate::text::is_whitespace(t[0]));
            }
            assert forall|b: Ipv4Addr| ipv4_text(b) == t implies b == x by {
                law_ipv4_text_injective(x, b);
            }
            assert(ipv4_text(x) == t);
        },
        None => {},
    }
}

pub fn ip_error() -> (r: String)
    ensures
        r@ == ip_error_text(),
{
    proof { reveal_strlit("Invalid IP address format, expected XXX.XXX.XXX.XXX"); }
    String::from_str("Invalid IP address format, expected XXX.XXX.XXX.XXX")
}

/// Validates the text of an address input.
pub fn validate_ip(raw: String) -> (r: Result<Ipv4Addr, String>)
    ensures
        r matches Ok(a) ==> ip_of_text(raw@) == Some(a),
        r matches Err(e) ==> ip_of_text(raw@) is None && e@ == ip_error_text(),
{
    match parse_ipv4(raw.as_str()) {
        Some(a) => {
            proof {
                assert forall|b: Ipv4Addr| ipv4_text(b) == raw@ implies b == a by {
                    law_ipv4_text_injective(a, b);
                }
            }
            Ok(a)
        },
        None => Err(ip_error()),
    }
}

/// Validates the text of an optional address input: blank text means no address.
pub fn validate_optional_ip(raw: String) -> (r: Result<Option<Ipv4Addr>, String>)
    ensures
        r matches Ok(a) ==> optional_ip_of_text(raw@) == Some(a),
        r matches Err(e) ==> optional_ip_of_text(raw@) is None && e@ == ip_error_text(),
{
    if is_blank_exec(raw.as_str()) {
        Ok(None)
    } else {
        match validate_ip(raw) {
            Ok(a) => Ok(Some(a)),
            Err(e) => Err(e),
        }
    }
}

/// Validates the text of a subnet input.
pub fn validate_subnet(raw: String) -> (r: Result<Subnet, String>)
    ensures
        r matches Ok(s) ==> subnet_of_text(raw@) == Some(s),
        r matches Err(e) ==> subnet_of_text(raw@) is None && subnet_from_str(raw@) == subnet_err(
            e@,
        ),
{
    parse_subnet(raw.as_str())
}

/// The text shown for an optional address: the address, or nothing.
pub fn optional_ip_text(a: Option<Ipv4Addr>) -> (r: String)
    ensures
        a matches Some(x) ==> r@ == ipv4_text(x),
        a is None ==> r@ == Seq::<char>::empty(),
{
    match a {
        Some(x) => format_ipv4(x),
        None => String::new(),
    }
}

} // verus!
