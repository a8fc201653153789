//! The datagram channel: its addressing, and the handshake that fixes its peer.
use vstd::prelude::*;

use crate::codec::ACK;

verus! {

/// A socket address as plain values: the host's address bits (an IPv4
/// address in the low 32 bits when `v6` is false) and a port.
#[derive(Clone, Copy, Debug, PartialEq, Eq, Structural)]
pub struct Endpoint {
    pub ip: u128,
    pub v6: bool,
    pub port: u16,
}

impl Endpoint {
    /// The same host with another port.
    pub fn with_port(&self, port: u16) -> (r: Endpoint)
        ensures
            r == (Endpoint { port, ..*self }),
    {
        Endpoint { ip: self.ip, v6: self.v6, port }
    }
}

/// What goes wrong in this layer.
#[derive(Clone, Copy, Debug, PartialEq, Eq, Structural)]
pub enum TransportError {
    /// An address could not be resolved or bound.
    AddressUnavailable,
    /// The handshake's attempts ran out with no acknowledgment.
    HandshakeFailed,
    /// A reply byte came that is not the acknowledgment.
    ProtocolMismatch,
    /// A fragment's attempts ran out with no acknowledgment.
    DeliveryFailed,
}

/// What one attempt of a handshake brought back.
#[derive(Clone, Copy, Debug, PartialEq, Eq, Structural)]
pub enum HelloReply {
    /// Sending the hello or waiting for the reply failed (a timeout included).
    Lost,
    /// One reply byte, and the address it came from.
    Byte(u8, Endpoint),
}

/// What a driver of a handshake does next.
#[derive(Clone, Copy, Debug, PartialEq, Eq, Structural)]
pub enum HandshakeAction {
    /// Send `hello` to `to`, then wait up to a second for one reply byte.
    SendHello { hello: u8, to: Endpoint },
    /// Done: fix the channel's peer to `peer`; `sent` bytes of hello went out.
    Fixed { sent: usize, peer: Endpoint },
    /// Done, with this error.
    Failed(TransportError),
}

/// Where a handshake stands.
#[derive(Clone, Copy, Debug, PartialEq, Eq, Structural)]
pub enum HandshakeOutcome {
    Pending,
    Established(Endpoint),
    Refused(TransportError),
}

/// A handshake in progress: the hello, where it goes, the attempts left, and
/// the outcome once there is one.
#[derive(Clone, Copy, Debug, PartialEq, Eq, Structural)]
pub struct Handshake {
    pub hello: u8,
    pub remote: Endpoint,
    pub left: u8,
    pub outcome: HandshakeOutcome,
}

impl Handshake {
    /// A handshake that has not begun.
    pub open spec fn start_spec(hello: u8, remote: Endpoint, retry: u8) -> Handshake {
        Handshake { hello, remote, left: retry, outcome: HandshakeOutcome::Pending }
    }

    pub open spec fn action_spec(self) -> HandshakeAction {
        match self.outcome {
            HandshakeOutcome::Established(peer) => HandshakeAction::Fixed { sent: 1, peer },
            HandshakeOutcome::Refused(e) => HandshakeAction::Failed(e),
            HandshakeOutcome::Pending => if self.left == 0 {
                HandshakeAction::Failed(TransportError::HandshakeFailed)
            } else {
                HandshakeAction::SendHello { hello: self.hello, to: self.remote }
            },
        }
    }

    /// Whether the driver is to send the hello now.
    pub open spec fn sending(self) -> bool {
        self.action_spec() is SendHello
    }

    /// The state after one attempt; a finished handshake stays as it is.
    pub open spec fn step(self, reply: HelloReply) -> Handshake {
        if !self.sending() {
            self
        } else {
            match reply {
                HelloReply::Lost => Handshake { left: (self.left - 1) as u8, ..self },
                HelloReply::Byte(b, from) => if b == ACK {
                    Handshake { outcome: HandshakeOutcome::Established(from), ..self }
                } else {
                    Handshake { outcome: HandshakeOutcome::Refused(TransportError::ProtocolMismatch), ..self }
                },
            }
        }
    }

    /// The state after a run of attempts.
    pub open spec fn after(self, replies: Seq<HelloReply>) -> Handshake
        decreases replies.len(),
    {
        if replies.len() == 0 {
            self
        } else {
            self.step(replies[0]).after(replies.drop_first())
        }
    }

    /// How many hellos a run of attempts sends.
    pub open spec fn hellos(self, replies: Seq<HelloReply>) -> nat
        decreases replies.len(),
    {
        if replies.len() == 0 {
            0
        } else {
            (if self.sending() { 1nat } else { 0nat }) + self.step(replies[0]).hellos(
                replies.drop_first(),
            )
        }
    }

    /// What to do now.
    pub fn action(&self) -> (r: HandshakeAction)
        ensures
            r == self.action_spec(),
    {
        match self.outcome {
            HandshakeOutcome::Established(peer) => HandshakeAction::Fixed { sent: 1, peer },
            HandshakeOutcome::Refused(e) => HandshakeAction::Failed(e),
            HandshakeOutcome::Pending => if self.left == 0 {
                HandshakeAction::Failed(TransportError::HandshakeFailed)
            } else {
                HandshakeAction::SendHello { hello: self.hello, to: self.remote }
            },
        }
    }

    /// Takes in what the last attempt brought back.
    pub fn observe(&mut self, reply: HelloReply)
        ensures
            *final(self) == old(self).step(reply),
    {
        if let HandshakeAction::SendHello { .. } = self.action() {
            match reply {
                HelloReply::Lost => {
                    self.left = self.left - 1;
                },
                HelloReply::Byte(b, from) => {
                    if b == ACK {
                        self.outcome = HandshakeOutcome::Established(from);
                    } else {
                        self.outcome = HandshakeOutcome::Refused(TransportError::ProtocolMismatch);
                    }
                },
            }
        }
    }
}

/// The addressing state of one datagram channel: unfixed, or fixed to a peer.
#[derive(Clone, Copy, Debug, PartialEq, Eq, Structural)]
pub struct Udp {
    pub peer: Option<Endpoint>,
}

/// What a receiving channel hands back for one datagram.
#[derive(Clone, Debug)]
pub struct Delivery {
    /// The bytes that fit the caller's buffer.
    pub data: Vec<u8>,
    /// The byte to send back, and where to.
    pub ack: u8,
    pub ack_to: Endpoint,
}

/// The part of a datagram that a buffer of `cap` bytes holds.
pub open spec fn delivered(datagram: Seq<u8>, cap: nat) -> Seq<u8> {
    if datagram.len() <= cap {
        datagram
    } else {
        datagram.take(cap as int)
    }
}

impl Udp {
    /// A channel around an endpoint that is already bound, with its peer
    /// fixed or not.
    pub fn attach(peer: Option<Endpoint>) -> (r: Udp)
        ensures
            r.peer == peer,
    {
        Udp { peer }
    }

    /// Starts the handshake: `hello` to `ra`, with `retry` attempts.
    pub fn connect_to(&self, hello: u8, ra: Endpoint, retry: u8) -> (r: Handshake)
        ensures
            r == Handshake::start_spec(hello, ra, retry),
    {
        Handshake { hello, remote: ra, left: retry, outcome: HandshakeOutcome::Pending }
    }

    /// The channel once a handshake has fixed its peer.
    pub fn fixed_to(&self, peer: Endpoint) -> (r: Udp)
        ensures
            r.peer == Some(peer),
    {
        Udp { peer: Some(peer) }
    }

    /// One datagram has come from `from`: the caller gets what fits in
    /// `cap` bytes, and the acknowledgment goes back to `from`, whatever
    /// the fixed peer.
    pub fn recv(&self, datagram: &[u8], cap: usize, from: Endpoint) -> (r: Delivery)
        ensures
            r.data@ == delivered(datagram@, cap as nat),
            r.ack == ACK,
            r.ack_to == from,
    {
        let n: usize = if datagram.len() <= cap { datagram.len() } else { cap };
        let mut data: Vec<u8> = Vec::with_capacity(n);
        let mut i: usize = 0;
        while i < n
            invariant
                n <= datagram@.len(),
                i <= n,
                data@ == datagram@.take(i as int),
            decreases n - i,
        {
            data.push(datagram[i]);
            i = i + 1;
            assert(data@ =~= datagram@.take(i as int));
        }
        assert(datagram@.take(datagram@.len() as int) =~= datagram@);
        Delivery { data, ack: ACK, ack_to: from }
    }
}

} // verus!
