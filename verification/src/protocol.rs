//! The classifier of well-known local protocols: a table from transport,
//! ports and destination address to a protocol tag.

use vstd::prelude::*;
use crate::address::{classify, is_private};
use crate::flow::FlowEvent;
use crate::text::str_eq;

verus! {

/// A well-known protocol of the local network.
#[derive(Debug, Clone, Copy, PartialEq, Eq, Structural)]
pub enum LocalProtocol {
    MDNS,
    LLMNR,
    NBNS,
    NBDatagam,
    NBSession,
    SSDP,
    DHCP,
    DNS,
    SMB,
    RDP,
    LDAP,
    LDAPS,
    Kerberos,
    WINS,
}

/// The classifier. It has no state.
pub struct ProtocolDetector;

/// Whether `port` is on either side of a flow.
pub open spec fn either_port(src_port: u16, dst_port: u16, port: u16) -> bool {
    src_port == port || dst_port == port
}

/// The tag of a UDP flow.
pub open spec fn udp_protocol(src_port: u16, dst_port: u16, dst_ip: Seq<char>) -> Option<
    LocalProtocol,
> {
    if either_port(src_port, dst_port, 5353) && (dst_ip == "224.0.0.251"@ || dst_ip == "ff02::fb"@) {
        Some(LocalProtocol::MDNS)
    } else if either_port(src_port, dst_port, 5355) && (dst_ip == "224.0.0.252"@ || dst_ip
        == "ff02::1:3"@) {
        Some(LocalProtocol::LLMNR)
    } else if either_port(src_port, dst_port, 137) {
        Some(LocalProtocol::NBNS)
    } else if either_port(src_port, dst_port, 138) {
        Some(LocalProtocol::NBDatagam)
    } else if either_port(src_port, dst_port, 1900) && (dst_ip == "239.255.255.250"@ || dst_ip
        == "ff02::c"@) {
        Some(LocalProtocol::SSDP)
    } else if (src_port == 68 && dst_port == 67) || (src_port == 67 && dst_port == 68) {
        Some(LocalProtocol::DHCP)
    } else if either_port(src_port, dst_port, 53) {
        Some(LocalProtocol::DNS)
    } else if either_port(src_port, dst_port, 88) {
        Some(LocalProtocol::Kerberos)
    } else if either_port(src_port, dst_port, 42) {
        Some(LocalProtocol::WINS)
    } else {
        None
    }
}

/// The tag of a TCP flow.
pub open spec fn tcp_protocol(src_port: u16, dst_port: u16) -> Option<LocalProtocol> {
    if either_port(src_port, dst_port, 445) {
        Some(LocalProtocol::SMB)
    } else if either_port(src_port, dst_port, 139) {
        Some(LocalProtocol::NBSession)
    } else if either_port(src_port, dst_port, 3389) {
        Some(LocalProtocol::RDP)
    } else if either_port(src_port, dst_port, 53) {
        Some(LocalProtocol::DNS)
    } else if either_port(src_port, dst_port, 389) {
        Some(LocalProtocol::LDAP)
    } else if either_port(src_port, dst_port, 636) {
        Some(LocalProtocol::LDAPS)
    } else if either_port(src_port, dst_port, 88) {
        Some(LocalProtocol::Kerberos)
    } else if either_port(src_port, dst_port, 42) {
        Some(LocalProtocol::WINS)
    } else {
        None
    }
}

/// The tag of a flow, told by its transport, its two ports and its destination
/// address. A multicast protocol needs its port and its group; a single-port
/// protocol needs its port on either side. An earlier line of the table wins
/// over a later one.
pub open spec fn protocol_of(
    proto: Seq<char>,
    src_port: u16,
    dst_port: u16,
    dst_ip: Seq<char>,
) -> Option<LocalProtocol> {
    if proto == "UDP"@ {
        udp_protocol(src_port, dst_port, dst_ip)
    } else if proto == "TCP"@ {
        tcp_protocol(src_port, dst_port)
    } else {
        None
    }
}

/// A multicast protocol is never told by its port alone: a flow tagged mDNS,
/// LLMNR or SSDP is a UDP flow with the protocol's port on one side and one of
/// the protocol's two groups as its destination.
pub proof fn lemma_multicast_needs_port_and_group(
    proto: Seq<char>,
    src_port: u16,
    dst_port: u16,
    dst_ip: Seq<char>,
)
    ensures
        protocol_of(proto, src_port, dst_port, dst_ip) == Some(LocalProtocol::MDNS) ==> proto
            == "UDP"@ && either_port(src_port, dst_port, 5353) && (dst_ip == "224.0.0.251"@
            || dst_ip == "ff02::fb"@),
        protocol_of(proto, src_port, dst_port, dst_ip) == Some(LocalProtocol::LLMNR) ==> proto
            == "UDP"@ && either_port(src_port, dst_port, 5355) && (dst_ip == "224.0.0.252"@
            || dst_ip == "ff02::1:3"@),
        protocol_of(proto, src_port, dst_port, dst_ip) == Some(LocalProtocol::SSDP) ==> proto
            == "UDP"@ && either_port(src_port, dst_port, 1900) && (dst_ip == "239.255.255.250"@
            || dst_ip == "ff02::c"@),
{
}

/// Whether a flow has a DNS-family port: 53 on either side, or 5353 or 5355 as
/// destination.
pub open spec fn dns_ports(src_port: u16, dst_port: u16) -> bool {
    src_port == 53 || dst_port == 53 || dst_port == 5353 || dst_port == 5355
}

/// The short name of a protocol.
pub open spec fn protocol_name(p: LocalProtocol) -> Seq<char> {
    match p {
        LocalProtocol::MDNS => "mDNS"@,
        LocalProtocol::LLMNR => "LLMNR"@,
        LocalProtocol::NBNS => "NBNS"@,
        LocalProtocol::NBDatagam => "NB-DGRAM"@,
        LocalProtocol::NBSession => "NB-SESSION"@,
        LocalProtocol::SSDP => "SSDP"@,
        LocalProtocol::DHCP => "DHCP"@,
        LocalProtocol::DNS => "DNS"@,
        LocalProtocol::SMB => "SMB"@,
        LocalProtocol::RDP => "RDP"@,
        LocalProtocol::LDAP => "LDAP"@,
        LocalProtocol::LDAPS => "LDAPS"@,
        LocalProtocol::Kerberos => "Kerberos"@,
        LocalProtocol::WINS => "WINS"@,
    }
}

/// The one-line description of a protocol.
pub open spec fn protocol_summary(p: LocalProtocol) -> Seq<char> {
    match p {
        LocalProtocol::MDNS => "Multicast DNS (mDNS) - Local service discovery"@,
        LocalProtocol::LLMNR => "Link-Local Multicast Name Resolution - Windows name resolution"@,
        LocalProtocol::NBNS => "NetBIOS Name Service - Legacy Windows naming"@,
        LocalProtocol::NBDatagam => "NetBIOS Datagram Service"@,
        LocalProtocol::NBSession => "NetBIOS Session Service"@,
        LocalProtocol::SSDP => "Simple Service Discovery Protocol (UPnP)"@,
        LocalProtocol::DHCP => "Dynamic Host Configuration Protocol"@,
        LocalProtocol::DNS => "Domain Name System"@,
        LocalProtocol::SMB => "Server Message Block - File sharing"@,
        LocalProtocol::RDP => "Remote Desktop Protocol"@,
        LocalProtocol::LDAP => "Lightweight Directory Access Protocol"@,
        LocalProtocol::LDAPS => "LDAP over SSL/TLS"@,
        LocalProtocol::Kerberos => "Kerberos authentication"@,
        LocalProtocol::WINS => "Windows Internet Name Service"@,
    }
}

impl ProtocolDetector {
    pub const MDNS_PORT: u16 = 5353;

    pub const LLMNR_PORT: u16 = 5355;

    pub const NBNS_PORT: u16 = 137;

    pub const NBDGM_PORT: u16 = 138;

    pub const NBSSN_PORT: u16 = 139;

    pub const SSDP_PORT: u16 = 1900;

    pub const DHCP_CLIENT_PORT: u16 = 68;

    pub const DHCP_SERVER_PORT: u16 = 67;

    pub const DNS_PORT: u16 = 53;

    pub const SMB_PORT: u16 = 445;

    pub const RDP_PORT: u16 = 3389;

    pub const WINS_PORT: u16 = 42;

    pub const KERBEROS_PORT: u16 = 88;

    pub const LDAP_PORT: u16 = 389;

    pub const LDAPS_PORT: u16 = 636;

    /// The tag of a flow, if it is one of the well-known local protocols.
    pub fn detect_protocol(flow: &FlowEvent) -> (r: Option<LocalProtocol>)
        ensures
            r == protocol_of(flow.proto@, flow.src_port, flow.dst_port, flow.dst_ip@),
    {
        let src_port = flow.src_port;
        let dst_port = flow.dst_port;
        let dst_ip = flow.dst_ip.as_str();
        if str_eq(flow.proto.as_str(), "UDP") {
            if (src_port == Self::MDNS_PORT || dst_port == Self::MDNS_PORT) && (str_eq(
                dst_ip,
                "224.0.0.251",
            ) || str_eq(dst_ip, "ff02::fb")) {
                return Some(LocalProtocol::MDNS);
            }
            if (src_port == Self::LLMNR_PORT || dst_port == Self::LLMNR_PORT) && (str_eq(
                dst_ip,
                "224.0.0.252",
            ) || str_eq(dst_ip, "ff02::1:3")) {
                return Some(LocalProtocol::LLMNR);
            }
            if src_port == Self::NBNS_PORT || dst_port == Self::NBNS_PORT {
                return Some(LocalProtocol::NBNS);
            }
            if src_port == Self::NBDGM_PORT || dst_port == Self::NBDGM_PORT {
                return Some(LocalProtocol::NBDatagam);
            }
            if (src_port == Self::SSDP_PORT || dst_port == Self::SSDP_PORT) && (str_eq(
                dst_ip,
                "239.255.255.250",
            ) || str_eq(dst_ip, "ff02::c")) {
                return Some(LocalProtocol::SSDP);
            }
            if (src_port == Self::DHCP_CLIENT_PORT && dst_port == Self::DHCP_SERVER_PORT) || (
            src_port == Self::DHCP_SERVER_PORT && dst_port == Self::DHCP_CLIENT_PORT) {
                return Some(LocalProtocol::DHCP);
            }
            if src_port == Self::DNS_PORT || dst_port == Self::DNS_PORT {
                return Some(LocalProtocol::DNS);
            }
            if src_port == Self::KERBEROS_PORT || dst_port == Self::KERBEROS_PORT {
                return Some(LocalProtocol::Kerberos);
            }
            if src_port == Self::WINS_PORT || dst_port == Self::WINS_PORT {
                return Some(LocalProtocol::WINS);
            }
            None
        } else if str_eq(flow.proto.as_str(), "TCP") {
            if src_port == Self::SMB_PORT || dst_port == Self::SMB_PORT {
                return Some(LocalProtocol::SMB);
            }
            if src_port == Self::NBSSN_PORT || dst_port == Self::NBSSN_PORT {
                return Some(LocalProtocol::NBSession);
            }
            if src_port == Self::RDP_PORT || dst_port == Self::RDP_PORT {
                return Some(LocalProtocol::RDP);
            }
            if src_port == Self::DNS_PORT || dst_port == Self::DNS_PORT {
                return Some(LocalProtocol::DNS);
            }
            if src_port == Self::LDAP_PORT || dst_port == Self::LDAP_PORT {
                return Some(LocalProtocol::LDAP);
            }
            if src_port == Self::LDAPS_PORT || dst_port == Self::LDAPS_PORT {
                return Some(LocalProtocol::LDAPS);
            }
            if src_port == Self::KERBEROS_PORT || dst_port == Self::KERBEROS_PORT {
                return Some(LocalProtocol::Kerberos);
            }
            if src_port == Self::WINS_PORT || dst_port == Self::WINS_PORT {
                return Some(LocalProtocol::WINS);
            }
            None
        } else {
            None
        }
    }

    /// Whether a flow runs over a DNS-family port.
    pub fn is_dns_flow(flow: &FlowEvent) -> (r: bool)
        ensures
            r == dns_ports(flow.src_port, flow.dst_port),
    {
        flow.src_port == Self::DNS_PORT || flow.dst_port == Self::DNS_PORT || flow.dst_port
            == Self::MDNS_PORT || flow.dst_port == Self::LLMNR_PORT
    }

    /// Whether a flow belongs to local service discovery: mDNS, LLMNR, NBNS or
    /// SSDP.
    pub fn is_local_discovery(flow: &FlowEvent) -> (r: bool)
        ensures
            r == (match protocol_of(flow.proto@, flow.src_port, flow.dst_port, flow.dst_ip@) {
                Some(LocalProtocol::MDNS) | Some(LocalProtocol::LLMNR) | Some(LocalProtocol::NBNS)
                | Some(LocalProtocol::SSDP) => true,
                _ => false,
            }),
    {
        match Self::detect_protocol(flow) {
            Some(LocalProtocol::MDNS) | Some(LocalProtocol::LLMNR) | Some(LocalProtocol::NBNS)
            | Some(LocalProtocol::SSDP) => true,
            _ => false,
        }
    }

    /// Whether a text is an address of private, link-local or loopback space.
    pub fn is_private_network(ip: &str) -> (r: bool)
        ensures
            r == is_private(ip@),
    {
        classify(ip).is_some()
    }

    /// The one-line description of a protocol.
    pub fn protocol_description(proto: LocalProtocol) -> (r: &'static str)
        ensures
            r@ == protocol_summary(proto),
    {
        match proto {
            LocalProtocol::MDNS => "Multicast DNS (mDNS) - Local service discovery",
            LocalProtocol::LLMNR => "Link-Local Multicast Name Resolution - Windows name resolution",
            LocalProtocol::NBNS => "NetBIOS Name Service - Legacy Windows naming",
            LocalProtocol::NBDatagam => "NetBIOS Datagram Service",
            LocalProtocol::NBSession => "NetBIOS Session Service",
            LocalProtocol::SSDP => "Simple Service Discovery Protocol (UPnP)",
            LocalProtocol::DHCP => "Dynamic Host Configuration Protocol",
            LocalProtocol::DNS => "Domain Name System",
            LocalProtocol::SMB => "Server Message Block - File sharing",
            LocalProtocol::RDP => "Remote Desktop Protocol",
            LocalProtocol::LDAP => "Lightweight Directory Access Protocol",
            LocalProtocol::LDAPS => "LDAP over SSL/TLS",
            LocalProtocol::Kerberos => "Kerberos authentication",
            LocalProtocol::WINS => "Windows Internet Name Service",
        }
    }
}

impl LocalProtocol {
    /// The short name of the protocol.
    pub fn as_str(&self) -> (r: &'static str)
        ensures
            r@ == protocol_name(*self),
    {
        match self {
            LocalProtocol::MDNS => "mDNS",
            LocalProtocol::LLMNR => "LLMNR",
            LocalProtocol::NBNS => "NBNS",
            LocalProtocol::NBDatagam => "NB-DGRAM",
            LocalProtocol::NBSession => "NB-SESSION",
            LocalProtocol::SSDP => "SSDP",
            LocalProtocol::DHCP => "DHCP",
            LocalProtocol::DNS => "DNS",
            LocalProtocol::SMB => "SMB",
            LocalProtocol::RDP => "RDP",
            LocalProtocol::LDAP => "LDAP",
            LocalProtocol::LDAPS => "LDAPS",
            LocalProtocol::Kerberos => "Kerberos",
            LocalProtocol::WINS => "WINS",
        }
    }
}

} // verus!
