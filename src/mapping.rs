use vstd::prelude::*;

use crate::addr::SocketAddrV4;
use crate::endpoints::{candidates, collect_endpoints, merged, MappedSocketAddr};

verus! {

/// Declares `igd::Gateway`, a UPnP gateway found on the local network. The
/// library only carries it; nothing is assumed of its contents.
#[verifier::external_type_specification]
#[verifier::external_body]
pub struct ExGateway(igd::Gateway);

/// Declares `net2::TcpBuilder`, a TCP socket that is configured but neither
/// listening nor connected. The library only carries it; nothing is assumed
/// of its contents.
#[verifier::external_type_specification]
#[verifier::external_body]
pub struct ExTcpBuilder(net2::TcpBuilder);

/// The address of a server that can be used to obtain an external address.
pub enum HolePunchServerAddr {
    /// A server which speaks the simple reflection protocol.
    Simple(SocketAddrV4),
    /// An Internet Gateway Device that can be used for UPnP port mapping.
    IgdGateway(igd::Gateway),
}

/// The servers and gateways known to this process. Entries are added and
/// never removed.
pub struct MappingContext {
    servers: Vec<HolePunchServerAddr>,
}

impl MappingContext {
    /// The servers known to the context, oldest first.
    pub closed spec fn known(&self) -> Seq<HolePunchServerAddr> {
        self.servers@
    }

    /// A context that knows no server yet.
    pub fn new() -> (r: MappingContext)
        ensures
            r.known() == Seq::<HolePunchServerAddr>::empty(),
    {
        MappingContext { servers: Vec::new() }
    }

    /// Inform the context about more hole punching servers or gateways.
    pub fn add_servers(&mut self, servers: Vec<HolePunchServerAddr>)
        ensures
            final(self).known() == old(self).known() + servers@,
    {
        let mut servers = servers;
        self.servers.append(&mut servers);
    }

    /// The servers known to the context, oldest first.
    pub fn servers(&self) -> (r: &Vec<HolePunchServerAddr>)
        ensures
            r@ == self.known(),
    {
        &self.servers
    }
}

/// A bound UDP socket for which we know our external endpoints.
pub struct MappedUdpSocket<S> {
    /// The socket.
    pub socket: S,
    /// The known endpoints of this socket.
    pub endpoints: Vec<MappedSocketAddr>,
}

/// A TCP socket for which we know our external endpoints.
pub struct MappedTcpSocket {
    /// A bound socket, neither listening nor connected, with its address
    /// and port made reusable.
    pub socket: net2::TcpBuilder,
    /// The known endpoints of this socket.
    pub endpoints: Vec<MappedSocketAddr>,
}

impl<S> MappedUdpSocket<S> {
    /// Pair a socket bound at `local` with its endpoints: `forwarded` holds
    /// the addresses that gateways forward to it, `reflected` those that
    /// reflection servers saw it send from.
    pub fn map(
        socket: S,
        local: SocketAddrV4,
        forwarded: &Vec<SocketAddrV4>,
        reflected: &Vec<SocketAddrV4>,
    ) -> (r: MappedUdpSocket<S>)
        ensures
            r.socket == socket,
            merged(candidates(local, forwarded@, reflected@), r.endpoints@),
            forall|i: int|
                0 <= i < r.endpoints@.len() ==> (r.endpoints@[i].nat_restricted
                    <==> !forwarded@.contains(r.endpoints@[i].addr)),
    {
        let endpoints = collect_endpoints(local, forwarded, reflected);
        MappedUdpSocket { socket, endpoints }
    }
}

impl MappedTcpSocket {
    /// Pair a reusable socket bound at `local` with its endpoints:
    /// `forwarded` holds the addresses that gateways forward to it,
    /// `reflected` those that reflection servers saw it connect from.
    pub fn map(
        socket: net2::TcpBuilder,
        local: SocketAddrV4,
        forwarded: &Vec<SocketAddrV4>,
        reflected: &Vec<SocketAddrV4>,
    ) -> (r: MappedTcpSocket)
        ensures
            merged(candidates(local, forwarded@, reflected@), r.endpoints@),
            forall|i: int|
                0 <= i < r.endpoints@.len() ==> (r.endpoints@[i].nat_restricted
                    <==> !forwarded@.contains(r.endpoints@[i].addr)),
    {
        let endpoints = collect_endpoints(local, forwarded, reflected);
        MappedTcpSocket { socket, endpoints }
    }
}

} // verus!
