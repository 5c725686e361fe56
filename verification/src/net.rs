//! The network interfaces of the machine, as they are listed.

use vstd::prelude::*;

verus! {

/// The family of an address.
#[derive(Clone, Copy, Debug, PartialEq, Eq, Structural)]
pub enum AddressFamily {
    /// IPv4.
    Inet,
    /// IPv6.
    Inet6,
    /// Any other family.
    Other,
}

/// A network interface, as it is listed.
#[derive(Debug)]
pub struct NetworkInterface {
    /// The kind of the interface: `Loopback`, `Up` or `Down`.
    pub ty_: String,
    /// The flags of the interface, by name.
    pub flags: Vec<String>,
    /// The name of the interface.
    pub name: String,
    /// The address of the interface.
    pub address: Option<String>,
    /// The mask of the address.
    pub netmask: Option<String>,
    /// The family of the address: `IPv4` or `IPv6`.
    pub family: Option<String>,
}

/// The kind of an interface: a loopback interface is `Loopback` whether it
/// is up or not, any other is `Up` or `Down`.
pub open spec fn spec_interface_kind(loopback: bool, up: bool) -> Seq<char> {
    if loopback {
        "Loopback"@
    } else if up {
        "Up"@
    } else {
        "Down"@
    }
}

/// The family of an address in words; none for an interface without an
/// address or with an address of another family.
pub open spec fn spec_family_name(family: Option<AddressFamily>) -> Option<Seq<char>> {
    match family {
        Some(AddressFamily::Inet) => Some("IPv4"@),
        Some(AddressFamily::Inet6) => Some("IPv6"@),
        _ => None,
    }
}

impl NetworkInterface {
    /// The interface as it is listed, from what the system says of it:
    /// whether it is a loopback interface and whether it is up, the names of
    /// its flags, its name, the family of its address, and the address and
    /// its mask in words. An address of a family other than IPv4 and IPv6 is
    /// not listed.
    pub fn from_parts(
        loopback: bool,
        up: bool,
        flags: Vec<String>,
        name: String,
        family: Option<AddressFamily>,
        address: Option<String>,
        netmask: Option<String>,
    ) -> (r: NetworkInterface)
        ensures
            r.ty_@ == spec_interface_kind(loopback, up),
            r.flags == flags,
            r.name == name,
            r.family.deep_view() == spec_family_name(family),
            r.address == (if spec_family_name(family).is_some() {
                address
            } else {
                None
            }),
            r.netmask == netmask,
    {
        let ty_ = if loopback {
            String::from_str("Loopback")
        } else if up {
            String::from_str("Up")
        } else {
            String::from_str("Down")
        };
        let (family, address) = match family {
            Some(AddressFamily::Inet) => (Some(String::from_str("IPv4")), address),
            Some(AddressFamily::Inet6) => (Some(String::from_str("IPv6")), address),
            _ => (None, None),
        };
        NetworkInterface { ty_, flags, name, address, netmask, family }
    }

    /// Whether the interface is listed: it has an address or a family.
    pub fn is_listed(&self) -> (r: bool)
        ensures
            r == (self.family.is_some() || self.address.is_some()),
    {
        self.family.is_some() || self.address.is_some()
    }
}

} // verus!
