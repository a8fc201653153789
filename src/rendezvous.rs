//! The rendezvous acceptor: a well-known endpoint where handshakes arrive,
//! and a fresh private channel for each session it accepts.
use vstd::prelude::*;

use crate::channel::{Endpoint, TransportError, Udp};
use crate::codec::{ACK, Role};
use crate::stream::{Recver, Sender};

verus! {

/// The acceptor, by the address it listens on.
#[derive(Clone, Copy, Debug, PartialEq, Eq, Structural)]
pub struct Server {
    pub bind_addr: Endpoint,
}

/// What one accepted hello yields.
#[derive(Clone, Copy, Debug, PartialEq, Eq, Structural)]
pub enum StreamType {
    /// The peer sends: this side receives on the private channel.
    InStream(Recver),
    /// The peer receives: this side sends on the private channel.
    OutStream(Sender),
    /// The hello was not a role: no session, and no reply.
    NoSession,
}

/// The session that a hello from `from` yields: its channel is fixed to
/// `from`, and its role is the complement of the one the hello declares.
pub open spec fn session_for(hello: u8, from: Endpoint) -> StreamType {
    match Role::acceptor_role_spec(hello) {
        Some(Role::Receive) => StreamType::InStream(Recver { udp: Udp { peer: Some(from) } }),
        Some(Role::Send) => StreamType::OutStream(Sender { udp: Udp { peer: Some(from) } }),
        None => StreamType::NoSession,
    }
}

impl StreamType {
    /// The acknowledgment that completes the handshake, and where it goes:
    /// none where no session came of the hello.
    pub fn reply(&self) -> (r: Option<(u8, Endpoint)>)
        ensures
            r == self.reply_spec(),
    {
        match self {
            StreamType::InStream(s) => match s.udp.peer {
                Some(p) => Some((ACK, p)),
                None => None,
            },
            StreamType::OutStream(s) => match s.udp.peer {
                Some(p) => Some((ACK, p)),
                None => None,
            },
            StreamType::NoSession => None,
        }
    }

    pub open spec fn reply_spec(self) -> Option<(u8, Endpoint)> {
        match self {
            StreamType::InStream(s) => match s.udp.peer {
                Some(p) => Some((ACK, p)),
                None => None,
            },
            StreamType::OutStream(s) => match s.udp.peer {
                Some(p) => Some((ACK, p)),
                None => None,
            },
            StreamType::NoSession => None,
        }
    }
}

impl Server {
    /// An acceptor on the first address that the listen address resolved
    /// to, or `AddressUnavailable` where it resolved to none.
    pub fn listen(la: &[Endpoint]) -> (r: Result<Server, TransportError>)
        ensures
            la@.len() == 0 ==> r == Err::<Server, TransportError>(
                TransportError::AddressUnavailable,
            ),
            la@.len() > 0 ==> r == Ok::<Server, TransportError>(Server { bind_addr: la@[0] }),
    {
        if la.len() == 0 {
            Err(TransportError::AddressUnavailable)
        } else {
            Ok(Server { bind_addr: la[0] })
        }
    }

    /// Where each session's private channel is bound: the listening host,
    /// with a port that the system picks.
    pub fn session_addr(&self) -> (r: Endpoint)
        ensures
            r == (Endpoint { port: 0, ..self.bind_addr }),
    {
        self.bind_addr.with_port(0)
    }

    /// Decides on one hello that came from `from`, once the private channel
    /// is bound.
    pub fn accept(&self, hello: u8, from: Endpoint) -> (r: StreamType)
        ensures
            r == session_for(hello, from),
    {
        match Role::for_acceptor(hello) {
            Some(Role::Receive) => StreamType::InStream(Recver::attach(Udp::attach(Some(from)))),
            Some(Role::Send) => StreamType::OutStream(Sender::attach(Udp::attach(Some(from)))),
            None => StreamType::NoSession,
        }
    }
}

/// Hellos from two different sources yield sessions fixed to different
/// peers, and each acknowledgment goes back to the source of its own hello;
/// both private channels are bound with a port left to the system, apart
/// from the rendezvous endpoint whenever that has a port of its own.
pub proof fn lemma_sessions_stay_apart(srv: Server, h1: u8, c1: Endpoint, h2: u8, c2: Endpoint)
    requires
        c1 != c2,
        Role::acceptor_role_spec(h1) is Some,
        Role::acceptor_role_spec(h2) is Some,
    ensures
        session_for(h1, c1).reply_spec() == Some((ACK, c1)),
        session_for(h2, c2).reply_spec() == Some((ACK, c2)),
        session_for(h1, c1) != session_for(h2, c2),
        srv.bind_addr.port != 0 ==> (Endpoint { port: 0, ..srv.bind_addr }) != srv.bind_addr,
{
}

/// An acceptor takes on the complement of the role whose hello it receives.
pub proof fn lemma_acceptor_takes_complement(role: Role)
    ensures
        Role::acceptor_role_spec(role.hello_spec()) == Some(role.complement_spec()),
{
}

} // verus!
