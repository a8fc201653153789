//! The reliable stream: fragmentation and stop-and-wait acknowledgment on
//! the send side, per-datagram acknowledgment on the receive side.
use vstd::prelude::*;

use crate::channel::{Delivery, Endpoint, Handshake, TransportError, Udp, delivered};
use crate::codec::{ACK, MTU, ROLE_RECV, ROLE_SEND, Role};

verus! {

/// Attempts that `connect` allows the handshake.
pub const CONNECT_ATTEMPTS: u8 = 3;

/// What one attempt at a fragment brought back.
#[derive(Clone, Copy, Debug, PartialEq, Eq, Structural)]
pub enum Reply {
    /// Sending the fragment or waiting for its acknowledgment failed.
    Lost,
    /// One reply byte.
    Byte(u8),
}

/// What a driver of a send does next.
#[derive(Clone, Copy, Debug, PartialEq, Eq, Structural)]
pub enum SendAction {
    /// Send the payload's bytes `start..end` as one datagram, then wait for
    /// one acknowledgment byte.
    Transmit { start: usize, end: usize },
    /// Every fragment is acknowledged: the send returns this many bytes.
    Finished(usize),
    /// The send fails with this error.
    Failed(TransportError),
}

/// Where a fragment that starts at `done` ends, in a payload of `total` bytes.
pub open spec fn fragment_end(done: int, total: int) -> int {
    if total - done > MTU {
        done + MTU
    } else {
        total
    }
}

/// A send in progress over a payload of `total` bytes: how many are
/// acknowledged, the attempts that each fragment gets, those left for the
/// current one, and the error once there is one.
#[derive(Clone, Copy, Debug, PartialEq, Eq, Structural)]
pub struct SendRun {
    pub total: usize,
    pub done: usize,
    pub retry: u8,
    pub left: u8,
    pub error: Option<TransportError>,
}

impl SendRun {
    pub open spec fn wf(self) -> bool {
        self.done <= self.total
    }

    /// A send that has not begun.
    pub open spec fn start(total: usize, retry: u8) -> SendRun {
        SendRun { total, done: 0, retry, left: retry, error: None }
    }

    pub open spec fn action_spec(self) -> SendAction {
        match self.error {
            Some(e) => SendAction::Failed(e),
            None => if self.done >= self.total {
                SendAction::Finished(self.total)
            } else if self.left == 0 {
                SendAction::Failed(TransportError::DeliveryFailed)
            } else {
                SendAction::Transmit {
                    start: self.done,
                    end: fragment_end(self.done as int, self.total as int) as usize,
                }
            },
        }
    }

    /// Whether the driver is to transmit a fragment now.
    pub open spec fn sending(self) -> bool {
        self.action_spec() is Transmit
    }

    /// The state after one attempt; a finished send stays as it is.
    pub open spec fn step(self, reply: Reply) -> SendRun {
        if !self.sending() {
            self
        } else {
            match reply {
                Reply::Lost => SendRun { left: (self.left - 1) as u8, ..self },
                Reply::Byte(b) => if b == ACK {
                    SendRun {
                        done: fragment_end(self.done as int, self.total as int) as usize,
                        left: self.retry,
                        ..self
                    }
                } else {
                    SendRun { error: Some(TransportError::ProtocolMismatch), ..self }
                },
            }
        }
    }

    /// The state after a run of attempts.
    pub open spec fn after(self, replies: Seq<Reply>) -> SendRun
        decreases replies.len(),
    {
        if replies.len() == 0 {
            self
        } else {
            self.step(replies[0]).after(replies.drop_first())
        }
    }

    /// The fragments, as byte ranges of the payload, that a run of attempts
    /// transmits, in order.
    pub open spec fn fragments(self, replies: Seq<Reply>) -> Seq<(int, int)>
        decreases replies.len(),
    {
        if replies.len() == 0 {
            Seq::empty()
        } else {
            let rest = self.step(replies[0]).fragments(replies.drop_first());
            if self.sending() {
                seq![(self.done as int, fragment_end(self.done as int, self.total as int))]
                    + rest
            } else {
                rest
            }
        }
    }

    /// A send of `total` bytes that has not begun.
    pub fn start_at(total: usize, retry: u8) -> (r: SendRun)
        ensures
            r == SendRun::start(total, retry),
            r.wf(),
    {
        SendRun { total, done: 0, retry, left: retry, error: None }
    }

    /// What to do now.
    pub fn action(&self) -> (r: SendAction)
        ensures
            r == self.action_spec(),
    {
        match self.error {
            Some(e) => SendAction::Failed(e),
            None => if self.done >= self.total {
                SendAction::Finished(self.total)
            } else if self.left == 0 {
                SendAction::Failed(TransportError::DeliveryFailed)
            } else {
                let rest = self.total - self.done;
                let end = if rest > MTU { self.done + MTU } else { self.total };
                SendAction::Transmit { start: self.done, end }
            },
        }
    }

    /// Takes in what the last attempt brought back.
    pub fn observe(&mut self, reply: Reply)
        ensures
            old(self).wf() ==> final(self).wf(),
            *final(self) == old(self).step(reply),
    {
        if let SendAction::Transmit { start, end } = self.action() {
            match reply {
                Reply::Lost => {
                    self.left = self.left - 1;
                },
                Reply::Byte(b) => {
                    if b == ACK {
                        self.done = end;
                        self.left = self.retry;
                    } else {
                        self.error = Some(TransportError::ProtocolMismatch);
                    }
                },
            }
        }
    }
}

/// The send side of a session.
#[derive(Clone, Copy, Debug, PartialEq, Eq, Structural)]
pub struct Sender {
    pub udp: Udp,
}

/// The receive side of a session.
#[derive(Clone, Copy, Debug, PartialEq, Eq, Structural)]
pub struct Recver {
    pub udp: Udp,
}

/// The handshake of an originator: the role hello to the first address that
/// `ra` resolved to, or `AddressUnavailable` where it resolved to none.
pub open spec fn originator_handshake(hello: u8, ra: Seq<Endpoint>) -> Result<
    Handshake,
    TransportError,
> {
    if ra.len() == 0 {
        Err(TransportError::AddressUnavailable)
    } else {
        Ok(Handshake::start_spec(hello, ra[0], CONNECT_ATTEMPTS))
    }
}

fn first_handshake(hello: u8, ra: &[Endpoint]) -> (r: Result<Handshake, TransportError>)
    ensures
        r == originator_handshake(hello, ra@),
{
    if ra.len() == 0 {
        Err(TransportError::AddressUnavailable)
    } else {
        Ok(Udp::attach(None).connect_to(hello, ra[0], CONNECT_ATTEMPTS))
    }
}

impl Recver {
    /// The handshake of an originator that will receive, given what the
    /// remote address resolved to; `attach` takes the channel it fixes.
    pub fn connect(ra: &[Endpoint]) -> (r: Result<Handshake, TransportError>)
        ensures
            r == originator_handshake(ROLE_RECV, ra@),
    {
        first_handshake(Role::Receive.hello(), ra)
    }

    pub fn attach(udp: Udp) -> (r: Recver)
        ensures
            r.udp == udp,
    {
        Recver { udp }
    }

    /// One datagram has come from `from` into a buffer of `cap` bytes.
    pub fn recv(&self, datagram: &[u8], cap: usize, from: Endpoint) -> (r: Delivery)
        ensures
            r.data@ == delivered(datagram@, cap as nat),
            r.ack == ACK,
            r.ack_to == from,
    {
        self.udp.recv(datagram, cap, from)
    }
}

impl Sender {
    /// The handshake of an originator that will send, given what the remote
    /// address resolved to; `attach` takes the channel it fixes.
    pub fn connect(ra: &[Endpoint]) -> (r: Result<Handshake, TransportError>)
        ensures
            r == originator_handshake(ROLE_SEND, ra@),
    {
        first_handshake(Role::Send.hello(), ra)
    }

    pub fn attach(udp: Udp) -> (r: Sender)
        ensures
            r.udp == udp,
    {
        Sender { udp }
    }

    /// Closing has nothing to tell the peer.
    pub fn close() -> (r: Result<u32, TransportError>)
        ensures
            r == Ok::<u32, TransportError>(0),
    {
        Ok(0)
    }

    /// Starts sending a payload of `len` bytes, each fragment with `retry`
    /// attempts.
    pub fn send(&self, len: usize, retry: u8) -> (r: SendRun)
        ensures
            r == SendRun::start(len, retry),
            r.wf(),
    {
        SendRun::start_at(len, retry)
    }
}

} // verus!
