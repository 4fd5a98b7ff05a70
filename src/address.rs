//! Network addresses as a sequence of protocol components, the choice of a
//! local non-loopback IP among the host's interfaces, and the address that
//! pairs a fixed IP with a reserved TCP port.

use crate::port::in_port_range;
use vstd::prelude::*;

verus! {

/// An IP address, as its octets (IPv4) or its 16-bit segments (IPv6).
#[derive(Clone, Copy, Debug, PartialEq, Eq)]
pub enum IpAddress {
    V4([u8; 4]),
    V6([u16; 8]),
}

/// One component of a network address.
#[derive(Clone, Copy, Debug, PartialEq, Eq)]
pub enum Protocol {
    Ip4([u8; 4]),
    Ip6([u16; 8]),
    Tcp(u16),
}

/// A network address: its protocol components, in order.
#[derive(Clone, Debug, PartialEq, Eq)]
pub struct NetworkAddress {
    pub protocols: Vec<Protocol>,
}

/// One local network interface: its IP and whether it is a loopback one.
#[derive(Clone, Copy, Debug, PartialEq, Eq)]
pub struct InterfaceRecord {
    pub ip: IpAddress,
    pub is_loopback: bool,
}

impl View for NetworkAddress {
    type V = Seq<Protocol>;

    open spec fn view(&self) -> Seq<Protocol> {
        self.protocols@
    }
}

/// The IP component that stands for `ip`: `Ip4` for an IPv4 address, `Ip6`
/// for an IPv6 one.
pub open spec fn ip_component(ip: IpAddress) -> Protocol {
    match ip {
        IpAddress::V4(o) => Protocol::Ip4(o),
        IpAddress::V6(s) => Protocol::Ip6(s),
    }
}

/// The unspecified IPv4 address, `0.0.0.0`.
pub open spec fn ipv4_any() -> [u8; 4] {
    [0u8, 0u8, 0u8, 0u8]
}

/// The IPv6 loopback address, `::1`.
pub open spec fn ipv6_loopback() -> [u16; 8] {
    [0u16, 0u16, 0u16, 0u16, 0u16, 0u16, 0u16, 1u16]
}

impl Protocol {
    /// The IP component that stands for `ip`.
    pub fn from_ip(ip: IpAddress) -> (r: Protocol)
        ensures
            r == ip_component(ip),
    {
        match ip {
            IpAddress::V4(o) => Protocol::Ip4(o),
            IpAddress::V6(s) => Protocol::Ip6(s),
        }
    }
}

impl NetworkAddress {
    /// The address made of the single component `p`.
    pub fn from_protocol(p: Protocol) -> (r: NetworkAddress)
        ensures
            r@ == seq![p],
    {
        NetworkAddress { protocols: vec![p] }
    }
}

/// Whether `k` is the position of the first non-loopback interface of `ifs`.
pub open spec fn is_first_non_loopback(ifs: Seq<InterfaceRecord>, k: int) -> bool {
    &&& 0 <= k < ifs.len()
    &&& !ifs[k].is_loopback
    &&& forall|i: int| 0 <= i < k ==> #[trigger] ifs[i].is_loopback
}

/// The first non-loopback interface of a list is one interface: two positions
/// that are both first are the same.
pub proof fn lemma_first_non_loopback_unique(ifs: Seq<InterfaceRecord>, j: int, k: int)
    requires
        is_first_non_loopback(ifs, j),
        is_first_non_loopback(ifs, k),
    ensures
        j == k,
{
    if j < k {
        assert(ifs[j].is_loopback);
    } else if k < j {
        assert(ifs[k].is_loopback);
    }
}

/// Picks the IP of the first non-loopback interface among `interfaces`, in
/// the order in which they were enumerated, as a one-component address.
/// There is none when every interface is a loopback one, or there are none.
pub fn get_local_ip(interfaces: &Vec<InterfaceRecord>) -> (r: Option<NetworkAddress>)
    ensures
        r is None <==> forall|i: int|
            0 <= i < interfaces@.len() ==> #[trigger] interfaces@[i].is_loopback,
        r matches Some(a) ==> exists|k: int|
            is_first_non_loopback(interfaces@, k) && a@ == seq![
                ip_component(#[trigger] interfaces@[k].ip),
            ],
{
    let mut j: usize = 0;
    while j < interfaces.len()
        invariant
            0 <= j <= interfaces@.len(),
            forall|i: int| 0 <= i < j ==> #[trigger] interfaces@[i].is_loopback,
        decreases interfaces@.len() - j,
    {
        if !interfaces[j].is_loopback {
            let a = NetworkAddress::from_protocol(Protocol::from_ip(interfaces[j].ip));
            assert(is_first_non_loopback(interfaces@, j as int));
            return Some(a);
        }
        j = j + 1;
    }
    None
}

/// The address that listens on `port` over TCP: on `0.0.0.0` when `is_ipv4`,
/// else on `::1`.
pub fn get_available_port_in_multiaddr(is_ipv4: bool, port: u16) -> (r: NetworkAddress)
    requires
        in_port_range(port as int),
    ensures
        is_ipv4 ==> r@ == seq![Protocol::Ip4(ipv4_any()), Protocol::Tcp(port)],
        !is_ipv4 ==> r@ == seq![Protocol::Ip6(ipv6_loopback()), Protocol::Tcp(port)],
        r@[1] matches Protocol::Tcp(p) && in_port_range(p as int),
{
    let ip_proto = if is_ipv4 {
        Protocol::Ip4([0u8, 0u8, 0u8, 0u8])
    } else {
        Protocol::Ip6([0u16, 0u16, 0u16, 0u16, 0u16, 0u16, 0u16, 1u16])
    };
    let r = NetworkAddress { protocols: vec![ip_proto, Protocol::Tcp(port)] };
    assert(r@ =~= seq![ip_proto, Protocol::Tcp(port)]);
    r
}

} // verus!
