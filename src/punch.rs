use vstd::prelude::*;

use crate::addr::SocketAddrV4;
use crate::endpoints::MappedSocketAddr;
use crate::rendezvous::RendezvousInfo;

verus! {

/// Why a punch attempt ended without a connection.
#[derive(Clone, Copy, Debug, PartialEq, Eq, Structural)]
pub enum PunchError {
    /// The peer's rendezvous info lists no endpoint.
    InvalidRendezvousInfo,
    /// No valid match or connection came before the deadline.
    PunchTimeout,
}

/// The addresses of the endpoints `eps`, in order.
pub open spec fn endpoint_addrs(eps: Seq<MappedSocketAddr>) -> Seq<SocketAddrV4> {
    eps.map_values(|e: MappedSocketAddr| e.addr)
}

/// A probe datagram accepted by a puncher that expects the peer's secret
/// `expected` carries that secret and nothing else.
pub open spec fn accepts(expected: Seq<u8>, payload: Seq<u8>) -> bool {
    payload == expected
}

/// The addresses of the endpoints `eps`, in order.
fn addrs_of(eps: &Vec<MappedSocketAddr>) -> (r: Vec<SocketAddrV4>)
    ensures
        r@ == endpoint_addrs(eps@),
{
    let mut out: Vec<SocketAddrV4> = Vec::new();
    let mut i: usize = 0;
    while i < eps.len()
        invariant
            i <= eps@.len(),
            out@ == endpoint_addrs(eps@.take(i as int)),
        decreases eps@.len() - i,
    {
        out.push(eps[i].addr);
        proof {
            assert(endpoint_addrs(eps@.take(i + 1)) =~= endpoint_addrs(eps@.take(i as int)).push(
                eps@[i as int].addr,
            ));
        }
        i += 1;
    }
    proof {
        assert(eps@.take(i as int) =~= eps@);
    }
    out
}

/// Test whether `payload` is a probe carrying `secret`.
pub fn probe_matches(payload: &Vec<u8>, secret: &[u8; 4]) -> (r: bool)
    ensures
        r == accepts(secret@, payload@),
{
    if payload.len() != 4 {
        return false;
    }
    let same = payload[0] == secret[0] && payload[1] == secret[1] && payload[2] == secret[2]
        && payload[3] == secret[3];
    if same {
        assert(payload@ =~= secret@);
    } else {
        assert(payload@ != secret@);
    }
    same
}

/// Where a UDP punch attempt stands.
#[derive(Clone, Copy, Debug, PartialEq, Eq, Structural)]
pub enum UdpPunchState {
    /// Probes go out and incoming datagrams are checked.
    Probing,
    /// A probe with the peer's secret came from this address.
    Connected(SocketAddrV4),
    /// The probing rounds ran out.
    Failed,
}

/// What the caller does next for a UDP punch attempt.
#[derive(Clone, Copy, Debug, PartialEq, Eq, Structural)]
pub enum UdpAction {
    /// Send a datagram holding our secret to every target.
    SendProbes,
    /// Stop probing and connect the socket to this address.
    Connect(SocketAddrV4),
    /// Nothing to do.
    Ignore,
    /// Stop probing and report the error.
    GiveUp(PunchError),
}

/// The decisions of a UDP hole punch. The caller sends, receives and
/// waits, and hands each outcome to this state machine.
pub struct UdpPuncher {
    /// The peer's candidate addresses.
    pub targets: Vec<SocketAddrV4>,
    /// The secret that the peer's probes carry.
    pub their_secret: [u8; 4],
    /// The secret that our probes carry.
    pub our_secret: [u8; 4],
    /// Probing rounds sent so far.
    pub rounds_sent: u32,
    /// Probing rounds to send before giving up.
    pub max_rounds: u32,
    /// Where the attempt stands.
    pub state: UdpPunchState,
}

impl UdpPuncher {
    /// Begin a punch towards the peer described by `their_info`. An info
    /// with no endpoint is refused before anything is sent.
    pub fn start(their_info: &RendezvousInfo, our_secret: [u8; 4], max_rounds: u32) -> (r: Result<
        UdpPuncher,
        PunchError,
    >)
        ensures
            their_info.endpoints@.len() == 0 ==> r == Err::<UdpPuncher, PunchError>(
                PunchError::InvalidRendezvousInfo,
            ),
            their_info.endpoints@.len() > 0 ==> r is Ok && r->Ok_0.targets@ == endpoint_addrs(
                their_info.endpoints@,
            ) && r->Ok_0.their_secret@ == their_info.secret@ && r->Ok_0.our_secret@ == our_secret@
                && r->Ok_0.rounds_sent == 0 && r->Ok_0.max_rounds == max_rounds && r->Ok_0.state
                == UdpPunchState::Probing,
    {
        if their_info.endpoints.len() == 0 {
            return Err(PunchError::InvalidRendezvousInfo);
        }
        let targets = addrs_of(&their_info.endpoints);
        Ok(
            UdpPuncher {
                targets,
                their_secret: their_info.secret,
                our_secret,
                rounds_sent: 0,
                max_rounds,
                state: UdpPunchState::Probing,
            },
        )
    }

    /// The retransmission timer fired: send another round of probes, or
    /// give up once all rounds are spent.
    pub fn on_tick(&mut self) -> (a: UdpAction)
        ensures
            final(self).targets == old(self).targets,
            final(self).their_secret == old(self).their_secret,
            final(self).our_secret == old(self).our_secret,
            final(self).max_rounds == old(self).max_rounds,
            old(self).state == UdpPunchState::Probing && old(self).rounds_sent < old(self).max_rounds
                ==> a == UdpAction::SendProbes && final(self).rounds_sent == old(self).rounds_sent + 1
                && final(self).state == UdpPunchState::Probing,
            old(self).state == UdpPunchState::Probing && old(self).rounds_sent >= old(self).max_rounds
                ==> a == UdpAction::GiveUp(PunchError::PunchTimeout) && final(self).rounds_sent == old(
                self,
            ).rounds_sent && final(self).state == UdpPunchState::Failed,
            old(self).state != UdpPunchState::Probing ==> a == UdpAction::Ignore && final(self).rounds_sent
                == old(self).rounds_sent && final(self).state == old(self).state,
    {
        match self.state {
            UdpPunchState::Probing => {
                if self.rounds_sent < self.max_rounds {
                    self.rounds_sent = self.rounds_sent + 1;
                    UdpAction::SendProbes
                } else {
                    self.state = UdpPunchState::Failed;
                    UdpAction::GiveUp(PunchError::PunchTimeout)
                }
            },
            _ => UdpAction::Ignore,
        }
    }

    /// A datagram `payload` arrived from `from`. The first one that carries
    /// the peer's secret, from whatever address, completes the punch; every
    /// other datagram is ignored.
    pub fn on_datagram(&mut self, from: SocketAddrV4, payload: &Vec<u8>) -> (a: UdpAction)
        ensures
            old(self).state == UdpPunchState::Probing && accepts(old(self).their_secret@, payload@)
                ==> a == UdpAction::Connect(from) && final(self).state == UdpPunchState::Connected(from)
                && final(self).targets == old(self).targets && final(self).their_secret == old(
                self,
            ).their_secret && final(self).our_secret == old(self).our_secret && final(self).rounds_sent
                == old(self).rounds_sent && final(self).max_rounds == old(self).max_rounds,
            !(old(self).state == UdpPunchState::Probing && accepts(old(self).their_secret@, payload@))
                ==> a == UdpAction::Ignore && *final(self) == *old(self),
    {
        if self.state == UdpPunchState::Probing && probe_matches(payload, &self.their_secret) {
            self.state = UdpPunchState::Connected(from);
            UdpAction::Connect(from)
        } else {
            UdpAction::Ignore
        }
    }
}

/// A probe carrying a secret other than the one a puncher expects leaves
/// that puncher as it was.
pub proof fn lemma_foreign_probe_rejected(expected: Seq<u8>, carried: Seq<u8>)
    requires
        expected != carried,
    ensures
        !accepts(expected, carried),
{
}

/// One connection attempt of a TCP punch.
#[derive(Clone, Copy, Debug, PartialEq, Eq, Structural)]
pub enum Attempt {
    /// The outbound connect to the target at this index.
    Outbound(usize),
    /// A connection the peer opened to us.
    Inbound,
}

/// Where a TCP punch attempt stands.
#[derive(Clone, Copy, Debug, PartialEq, Eq, Structural)]
pub enum TcpPunchState {
    /// Connects and the accept are in flight.
    Racing,
    /// This attempt completed first and is the result.
    Won(Attempt),
    /// The deadline passed with no attempt completed.
    Failed,
}

/// What the caller does with a TCP connection attempt.
#[derive(Clone, Copy, Debug, PartialEq, Eq, Structural)]
pub enum TcpAction {
    /// Keep this connection: it is the result.
    Keep,
    /// Close this connection at once.
    Discard,
    /// Nothing to do.
    Ignore,
    /// Abort every attempt and report the error.
    GiveUp(PunchError),
}

/// The decisions of a TCP simultaneous open: the first attempt to complete
/// wins and every later one is discarded.
pub struct TcpPuncher {
    /// The peer's candidate addresses, one outbound connect each.
    pub targets: Vec<SocketAddrV4>,
    /// Where the attempt stands.
    pub state: TcpPunchState,
}

impl TcpPuncher {
    /// Begin a punch towards the peer described by `their_info`. An info
    /// with no endpoint is refused before anything is sent.
    pub fn start(their_info: &RendezvousInfo) -> (r: Result<TcpPuncher, PunchError>)
        ensures
            their_info.endpoints@.len() == 0 ==> r == Err::<TcpPuncher, PunchError>(
                PunchError::InvalidRendezvousInfo,
            ),
            their_info.endpoints@.len() > 0 ==> r is Ok && r->Ok_0.targets@ == endpoint_addrs(
                their_info.endpoints@,
            ) && r->Ok_0.state == TcpPunchState::Racing,
    {
        if their_info.endpoints.len() == 0 {
            return Err(PunchError::InvalidRendezvousInfo);
        }
        let targets = addrs_of(&their_info.endpoints);
        Ok(TcpPuncher { targets, state: TcpPunchState::Racing })
    }

    /// The attempt `attempt` completed its handshake.
    pub fn on_established(&mut self, attempt: Attempt) -> (a: TcpAction)
        ensures
            final(self).targets == old(self).targets,
            old(self).state == TcpPunchState::Racing ==> a == TcpAction::Keep && final(self).state
                == TcpPunchState::Won(attempt),
            old(self).state != TcpPunchState::Racing ==> a == TcpAction::Discard && final(self).state
                == old(self).state,
    {
        if self.state == TcpPunchState::Racing {
            self.state = TcpPunchState::Won(attempt);
            TcpAction::Keep
        } else {
            TcpAction::Discard
        }
    }

    /// The deadline passed.
    pub fn on_timeout(&mut self) -> (a: TcpAction)
        ensures
            final(self).targets == old(self).targets,
            old(self).state == TcpPunchState::Racing ==> a == TcpAction::GiveUp(
                PunchError::PunchTimeout,
            ) && final(self).state == TcpPunchState::Failed,
            old(self).state != TcpPunchState::Racing ==> a == TcpAction::Ignore && final(self).state
                == old(self).state,
    {
        if self.state == TcpPunchState::Racing {
            self.state = TcpPunchState::Failed;
            TcpAction::GiveUp(PunchError::PunchTimeout)
        } else {
            TcpAction::Ignore
        }
    }
}

} // verus!
