//! Network addresses of a game server and the identity of a client.
//!
//! Addresses are plain values: an IPv4 address is its 32-bit number and an
//! IPv6 address its 128-bit number, most significant octet first, as
//! `u32::from(Ipv4Addr)` and `u128::from(Ipv6Addr)` give them.
use std::collections::BTreeSet;

use vstd::prelude::*;

use crate::ids::{ClientId, UserId};
use crate::text::{seq_contains, seq_starts_with, str_contains, str_starts_with};

verus! {

/// An IP address.
#[derive(Debug, Clone, Copy, PartialEq, Eq, Structural)]
pub enum IpAddress {
    V4(u32),
    V6(u128),
}

/// An IP address and a port.
#[derive(Debug, Clone, Copy, PartialEq, Eq, Structural)]
pub struct SocketAddress {
    pub ip: IpAddress,
    pub port: u16,
}

/// `0.0.0.0` or `::`: the "any address" a server may listen on.
pub open spec fn spec_is_unspecified(ip: IpAddress) -> bool {
    match ip {
        IpAddress::V4(a) => a == 0,
        IpAddress::V6(a) => a == 0,
    }
}

/// `127.0.0.0/8`.
pub open spec fn spec_v4_is_loopback(a: u32) -> bool {
    a / 0x0100_0000 == 127
}

/// `169.254.0.0/16`.
pub open spec fn spec_v4_is_link_local(a: u32) -> bool {
    a / 0x1_0000 == 0xA9FE
}

/// `::1`.
pub open spec fn spec_v6_is_loopback(a: u128) -> bool {
    a == 1
}

/// The IPv4 addresses a server advertises: neither loopback nor
/// link-local.
pub open spec fn v4_advertised(a: u32) -> bool {
    !spec_v4_is_loopback(a) && !spec_v4_is_link_local(a)
}

/// The IPv6 addresses a server advertises: all but loopback.
pub open spec fn v6_advertised(a: u128) -> bool {
    !spec_v6_is_loopback(a)
}

impl IpAddress {
    pub fn is_unspecified(&self) -> (b: bool)
        ensures
            b == spec_is_unspecified(*self),
    {
        match self {
            IpAddress::V4(a) => *a == 0,
            IpAddress::V6(a) => *a == 0,
        }
    }
}

pub fn v4_is_loopback(a: u32) -> (b: bool)
    ensures
        b == spec_v4_is_loopback(a),
{
    a / 0x0100_0000 == 127
}

pub fn v4_is_link_local(a: u32) -> (b: bool)
    ensures
        b == spec_v4_is_link_local(a),
{
    a / 0x1_0000 == 0xA9FE
}

pub fn v6_is_loopback(a: u128) -> (b: bool)
    ensures
        b == spec_v6_is_loopback(a),
{
    a == 1
}

/// A network interface of the host and its addresses.
#[derive(Debug)]
pub struct NetworkInterfaceInfo {
    pub name: String,
    pub addrs: Vec<IpAddress>,
}

/// Interfaces left out: container bridges (`docker…` anywhere in the name,
/// or a name starting `br-`).
pub open spec fn interface_ignored(name: Seq<char>) -> bool {
    seq_contains(name, "docker"@) || seq_starts_with(name, "br-"@)
}

pub fn is_ignored_interface(name: &str) -> (b: bool)
    ensures
        b == interface_ignored(name@),
{
    str_contains(name, "docker") || str_starts_with(name, "br-")
}

/// Whether an advertised address of the family is on an interface that
/// is not ignored.
pub open spec fn listed_v4(ifaces: Seq<NetworkInterfaceInfo>, a: u32) -> bool {
    exists|i: int, j: int|
        0 <= i < ifaces.len() && !interface_ignored(ifaces[i].name@) && 0 <= j < ifaces[i].addrs@.len()
            && #[trigger] ifaces[i].addrs@[j] == IpAddress::V4(a) && v4_advertised(a)
}

pub open spec fn listed_v6(ifaces: Seq<NetworkInterfaceInfo>, a: u128) -> bool {
    exists|i: int, j: int|
        0 <= i < ifaces.len() && !interface_ignored(ifaces[i].name@) && 0 <= j < ifaces[i].addrs@.len()
            && #[trigger] ifaces[i].addrs@[j] == IpAddress::V6(a) && v6_advertised(a)
}

/// The addresses a game server advertises for its clients, and its port.
#[derive(Debug)]
pub struct ConnectionInfo {
    pub v4addrs: BTreeSet<u32>,
    pub v6addrs: BTreeSet<u128>,
    pub port: u16,
}

impl Default for ConnectionInfo {
    fn default() -> (c: Self)
        ensures
            c.v4addrs@ == Set::<u32>::empty(),
            c.v6addrs@ == Set::<u128>::empty(),
            c.port == 0,
    {
        ConnectionInfo { v4addrs: BTreeSet::new(), v6addrs: BTreeSet::new(), port: 0 }
    }
}

/// The sets after one address is considered for advertising.
pub open spec fn with_v4(s: Set<u32>, ip: IpAddress) -> Set<u32> {
    match ip {
        IpAddress::V4(a) => if v4_advertised(a) { s.insert(a) } else { s },
        IpAddress::V6(_) => s,
    }
}

pub open spec fn with_v6(s: Set<u128>, ip: IpAddress) -> Set<u128> {
    match ip {
        IpAddress::V4(_) => s,
        IpAddress::V6(a) => if v6_advertised(a) { s.insert(a) } else { s },
    }
}

impl ConnectionInfo {
    fn add_address(&mut self, ip: IpAddress)
        ensures
            final(self).v4addrs@ == with_v4(old(self).v4addrs@, ip),
            final(self).v6addrs@ == with_v6(old(self).v6addrs@, ip),
            final(self).port == old(self).port,
    {
        match ip {
            IpAddress::V4(a) => {
                if !v4_is_loopback(a) && !v4_is_link_local(a) {
                    self.v4addrs.insert(a);
                }
            },
            IpAddress::V6(a) => {
                if !v6_is_loopback(a) {
                    self.v6addrs.insert(a);
                }
            },
        }
    }

    /// Records the address the server listens on. A specific address is
    /// added to what is advertised; for the unspecified address, what is
    /// advertised becomes the addresses of the host's interfaces
    /// (`interfaces`, which are consulted for that case alone). Loopback
    /// and IPv4 link-local addresses are never advertised.
    pub fn update(&mut self, addr: SocketAddress, interfaces: &[NetworkInterfaceInfo])
        ensures
            final(self).port == addr.port,
            spec_is_unspecified(addr.ip) ==> {
                &&& final(self).v4addrs@ == Set::new(|a: u32| listed_v4(interfaces@, a))
                &&& final(self).v6addrs@ == Set::new(|a: u128| listed_v6(interfaces@, a))
            },
            !spec_is_unspecified(addr.ip) ==> {
                &&& final(self).v4addrs@ == with_v4(old(self).v4addrs@, addr.ip)
                &&& final(self).v6addrs@ == with_v6(old(self).v6addrs@, addr.ip)
            },
    {
        if addr.ip.is_unspecified() {
            self.v4addrs.clear();
            self.v6addrs.clear();
            let mut i: usize = 0;
            while i < interfaces.len()
                invariant
                    i <= interfaces@.len(),
                    self.v4addrs@ == Set::new(|a: u32| listed_v4(interfaces@.take(i as int), a)),
                    self.v6addrs@ == Set::new(|a: u128| listed_v6(interfaces@.take(i as int), a)),
                decreases interfaces.len() - i,
            {
                let iface = &interfaces[i];
                let ghost before = interfaces@.take(i as int);
                let ghost after = interfaces@.take(i + 1);
                assert(after == before.push(*iface));
                if !is_ignored_interface(iface.name.as_str()) {
                    let mut j: usize = 0;
                    while j < iface.addrs.len()
                        invariant
                            j <= iface.addrs@.len(),
                            !interface_ignored(iface.name@),
                            after == before.push(*iface),
                            self.v4addrs@ == Set::new(
                                |a: u32|
                                    listed_v4(before, a) || exists|k: int|
                                        0 <= k < j && #[trigger] iface.addrs@[k] == IpAddress::V4(a)
                                            && v4_advertised(a),
                            ),
                            self.v6addrs@ == Set::new(
                                |a: u128|
                                    listed_v6(before, a) || exists|k: int|
                                        0 <= k < j && #[trigger] iface.addrs@[k] == IpAddress::V6(a)
                                            && v6_advertised(a),
                            ),
                        decreases iface.addrs.len() - j,
                    {
                        let ghost v4_before = self.v4addrs@;
                        let ghost v6_before = self.v6addrs@;
                        self.add_address(iface.addrs[j]);
                        assert(self.v4addrs@ =~= Set::new(
                            |a: u32|
                                listed_v4(before, a) || exists|k: int|
                                    0 <= k < j + 1 && #[trigger] iface.addrs@[k] == IpAddress::V4(a)
                                        && v4_advertised(a),
                        )) by {
                            assert forall|a: u32| #[trigger] self.v4addrs@.contains(a) implies (listed_v4(before, a)
                                || exists|k: int|
                                0 <= k < j + 1 && #[trigger] iface.addrs@[k] == IpAddress::V4(a)
                                    && v4_advertised(a)) by {
                                if !v4_before.contains(a) {
                                    assert(iface.addrs@[j as int] == IpAddress::V4(a));
                                }
                            }
                        }
                        assert(self.v6addrs@ =~= Set::new(
                            |a: u128|
                                listed_v6(before, a) || exists|k: int|
                                    0 <= k < j + 1 && #[trigger] iface.addrs@[k] == IpAddress::V6(a)
                                        && v6_advertised(a),
                        )) by {
                            assert forall|a: u128| #[trigger] self.v6addrs@.contains(a) implies (listed_v6(before, a)
                                || exists|k: int|
                                0 <= k < j + 1 && #[trigger] iface.addrs@[k] == IpAddress::V6(a)
                                    && v6_advertised(a)) by {
                                if !v6_before.contains(a) {
                                    assert(iface.addrs@[j as int] == IpAddress::V6(a));
                                }
                            }
                        }
                        j = j + 1;
                    }
                    assert(self.v4addrs@ =~= Set::new(|a: u32| listed_v4(after, a))) by {
                        assert forall|a: u32| listed_v4(after, a) implies #[trigger] self.v4addrs@.contains(a) by {
                            let (ii, jj) = choose|ii: int, jj: int|
                                0 <= ii < after.len() && !interface_ignored(after[ii].name@) && 0 <= jj
                                    < after[ii].addrs@.len() && #[trigger] after[ii].addrs@[jj] == IpAddress::V4(a)
                                    && v4_advertised(a);
                            if ii < before.len() {
                                assert(before[ii] == after[ii]);
                            } else {
                                assert(iface.addrs@[jj] == IpAddress::V4(a));
                            }
                        }
                        assert forall|a: u32| #[trigger] self.v4addrs@.contains(a) implies listed_v4(after, a) by {
                            if listed_v4(before, a) {
                                let (ii, jj) = choose|ii: int, jj: int|
                                    0 <= ii < before.len() && !interface_ignored(before[ii].name@) && 0 <= jj
                                        < before[ii].addrs@.len() && #[trigger] before[ii].addrs@[jj]
                                        == IpAddress::V4(a) && v4_advertised(a);
                                assert(after[ii] == before[ii]);
                                assert(after[ii].addrs@[jj] == IpAddress::V4(a));
                            } else {
                                let k = choose|k: int|
                                    0 <= k < iface.addrs@.len() && #[trigger] iface.addrs@[k] == IpAddress::V4(a)
                                        && v4_advertised(a);
                                assert(after[i as int] == *iface);
                                assert(after[i as int].addrs@[k] == IpAddress::V4(a));
                            }
                        }
                    }
                    assert(self.v6addrs@ =~= Set::new(|a: u128| listed_v6(after, a))) by {
                        assert forall|a: u128| listed_v6(after, a) implies #[trigger] self.v6addrs@.contains(a) by {
                            let (ii, jj) = choose|ii: int, jj: int|
                                0 <= ii < after.len() && !interface_ignored(after[ii].name@) && 0 <= jj
                                    < after[ii].addrs@.len() && #[trigger] after[ii].addrs@[jj] == IpAddress::V6(a)
                                    && v6_advertised(a);
                            if ii < before.len() {
                                assert(before[ii] == after[ii]);
                            } else {
                                assert(iface.addrs@[jj] == IpAddress::V6(a));
                            }
                        }
                        assert forall|a: u128| #[trigger] self.v6addrs@.contains(a) implies listed_v6(after, a) by {
                            if listed_v6(before, a) {
                                let (ii, jj) = choose|ii: int, jj: int|
                                    0 <= ii < before.len() && !interface_ignored(before[ii].name@) && 0 <= jj
                                        < before[ii].addrs@.len() && #[trigger] before[ii].addrs@[jj]
                                        == IpAddress::V6(a) && v6_advertised(a);
                                assert(after[ii] == before[ii]);
                                assert(after[ii].addrs@[jj] == IpAddress::V6(a));
                            } else {
                                let k = choose|k: int|
                                    0 <= k < iface.addrs@.len() && #[trigger] iface.addrs@[k] == IpAddress::V6(a)
                                        && v6_advertised(a);
                                assert(after[i as int] == *iface);
                                assert(after[i as int].addrs@[k] == IpAddress::V6(a));
                            }
                        }
                    }
                } else {
                    assert(self.v4addrs@ =~= Set::new(|a: u32| listed_v4(after, a))) by {
                        assert forall|a: u32| listed_v4(after, a) implies #[trigger] self.v4addrs@.contains(a) by {
                            let (ii, jj) = choose|ii: int, jj: int|
                                0 <= ii < after.len() && !interface_ignored(after[ii].name@) && 0 <= jj
                                    < after[ii].addrs@.len() && #[trigger] after[ii].addrs@[jj] == IpAddress::V4(a)
                                    && v4_advertised(a);
                            assert(before[ii] == after[ii]);
                        }
                        assert forall|a: u32| #[trigger] self.v4addrs@.contains(a) implies listed_v4(after, a) by {
                            let (ii, jj) = choose|ii: int, jj: int|
                                0 <= ii < before.len() && !interface_ignored(before[ii].name@) && 0 <= jj
                                    < before[ii].addrs@.len() && #[trigger] before[ii].addrs@[jj]
                                    == IpAddress::V4(a) && v4_advertised(a);
                            assert(after[ii] == before[ii]);
                            assert(after[ii].addrs@[jj] == IpAddress::V4(a));
                        }
                    }
                    assert(self.v6addrs@ =~= Set::new(|a: u128| listed_v6(after, a))) by {
                        assert forall|a: u128| listed_v6(after, a) implies #[trigger] self.v6addrs@.contains(a) by {
                            let (ii, jj) = choose|ii: int, jj: int|
                                0 <= ii < after.len() && !interface_ignored(after[ii].name@) && 0 <= jj
                                    < after[ii].addrs@.len() && #[trigger] after[ii].addrs@[jj] == IpAddress::V6(a)
                                    && v6_advertised(a);
                            assert(before[ii] == after[ii]);
                        }
                        assert forall|a: u128| #[trigger] self.v6addrs@.contains(a) implies listed_v6(after, a) by {
                            let (ii, jj) = choose|ii: int, jj: int|
                                0 <= ii < before.len() && !interface_ignored(before[ii].name@) && 0 <= jj
                                    < before[ii].addrs@.len() && #[trigger] before[ii].addrs@[jj]
                                    == IpAddress::V6(a) && v6_advertised(a);
                            assert(after[ii] == before[ii]);
                            assert(after[ii].addrs@[jj] == IpAddress::V6(a));
                        }
                    }
                }
                i = i + 1;
            }
            assert(interfaces@.take(interfaces@.len() as int) == interfaces@);
        } else {
            self.add_address(addr.ip);
        }
        self.port = addr.port;
    }
}

/// The client identifier the replication layer gives the server itself
/// (`ClientId::SERVER`), which a player has in a local game.
pub const SERVER_CLIENT_ID: ClientId = 0;

/// The local player's network client.
#[derive(Debug, Clone, Copy, PartialEq, Eq, Structural)]
pub struct PlayerClientId(pub ClientId);

impl PlayerClientId {
    pub fn new(client_id: ClientId) -> (p: PlayerClientId)
        ensures
            p.0 == client_id,
    {
        PlayerClientId(client_id)
    }

    pub fn get_client_id(&self) -> (c: ClientId)
        ensures
            c == self.0,
    {
        self.0
    }

    /// Whether the player plays a local game, hosted in its own process.
    pub fn is_local(&self) -> (b: bool)
        ensures
            b == (self.0 == SERVER_CLIENT_ID),
    {
        self.0 == SERVER_CLIENT_ID
    }
}

/// A client tells the server which player it is.
#[derive(Debug, Clone, Copy, PartialEq, Eq, Structural)]
pub struct ConnectEvent(pub UserId);

/// A client's player jumps.
#[derive(Debug, Clone, Copy, PartialEq, Eq, Structural)]
pub struct PlayerJumpEvent;

} // verus!
