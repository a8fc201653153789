//! The single-byte control codes exchanged during the handshake.
use vstd::prelude::*;

verus! {

/// The acknowledgment byte: "received".
pub const ACK: u8 = 1;

/// Largest number of payload bytes carried by one fragment.
pub const MTU: usize = 1320;

/// Hello of an originator that will push data.
pub const ROLE_SEND: u8 = 1;

/// Hello of an originator that will pull data.
pub const ROLE_RECV: u8 = 2;

/// Reserved: an in-band ping frame.
pub const PING: u8 = 3;

/// Reserved: a keepalive reply.
pub const PONG: u8 = 4;

/// Reserved: another payload framing.
pub const RTP: u8 = 0x80;

/// A decoded role hello.
#[derive(Clone, Copy, Debug, PartialEq, Eq, Structural)]
pub enum FrameType {
    /// The peer will send data.
    OriginatorSend,
    /// The peer will receive data.
    OriginatorReceive,
    /// Any other byte: no session comes of it.
    Unrecognized,
}

/// The frame that a byte decodes to.
pub open spec fn frame_of(t: u8) -> FrameType {
    if t == ROLE_SEND {
        FrameType::OriginatorSend
    } else if t == ROLE_RECV {
        FrameType::OriginatorReceive
    } else {
        FrameType::Unrecognized
    }
}

impl FrameType {
    /// The role that the originator declared, if any.
    pub open spec fn role_spec(self) -> Option<Role> {
        match self {
            FrameType::OriginatorSend => Some(Role::Send),
            FrameType::OriginatorReceive => Some(Role::Receive),
            FrameType::Unrecognized => None,
        }
    }

    pub fn role(&self) -> (r: Option<Role>)
        ensures
            r == self.role_spec(),
    {
        match self {
            FrameType::OriginatorSend => Some(Role::Send),
            FrameType::OriginatorReceive => Some(Role::Receive),
            FrameType::Unrecognized => None,
        }
    }

    /// Decodes a role hello; total, unknown bytes give `Unrecognized`.
    pub fn new(t: u8) -> (r: FrameType)
        ensures
            r == frame_of(t),
    {
        if t == ROLE_SEND {
            FrameType::OriginatorSend
        } else if t == ROLE_RECV {
            FrameType::OriginatorReceive
        } else {
            FrameType::Unrecognized
        }
    }
}

/// Which side of a session moves the data.
#[derive(Clone, Copy, Debug, PartialEq, Eq, Structural)]
pub enum Role {
    Send,
    Receive,
}

impl Role {
    /// The hello byte that an originator in this role sends.
    pub open spec fn hello_spec(self) -> u8 {
        match self {
            Role::Send => ROLE_SEND,
            Role::Receive => ROLE_RECV,
        }
    }

    /// The role of the other end of the session.
    pub open spec fn complement_spec(self) -> Role {
        match self {
            Role::Send => Role::Receive,
            Role::Receive => Role::Send,
        }
    }

    pub fn hello(&self) -> (r: u8)
        ensures
            r == self.hello_spec(),
    {
        match self {
            Role::Send => ROLE_SEND,
            Role::Receive => ROLE_RECV,
        }
    }

    pub fn complement(&self) -> (r: Role)
        ensures
            r == self.complement_spec(),
    {
        match self {
            Role::Send => Role::Receive,
            Role::Receive => Role::Send,
        }
    }

    /// The role that an acceptor takes on for a hello, if any.
    pub open spec fn acceptor_role_spec(t: u8) -> Option<Role> {
        match frame_of(t) {
            FrameType::OriginatorSend => Some(Role::Receive),
            FrameType::OriginatorReceive => Some(Role::Send),
            FrameType::Unrecognized => None,
        }
    }

    pub fn for_acceptor(t: u8) -> (r: Option<Role>)
        ensures
            r == Self::acceptor_role_spec(t),
    {
        match FrameType::new(t).role() {
            Some(role) => Some(role.complement()),
            None => None,
        }
    }
}

} // verus!
