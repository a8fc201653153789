use udp_session::channel::{
    Endpoint, Handshake, HandshakeAction, HandshakeOutcome, HelloReply, TransportError, Udp,
};
use udp_session::codec::{FrameType, Role, ACK, MTU, PING, PONG, ROLE_RECV, ROLE_SEND, RTP};
use udp_session::rendezvous::{Server, StreamType};
use udp_session::stream::{Recver, Reply, SendAction, SendRun, Sender};

fn host(port: u16) -> Endpoint {
    Endpoint { ip: 0x7f00_0001, v6: false, port }
}

/// Runs a send to its end, answering the n-th transmission with `answer(n)`;
/// returns the transmitted ranges and the final action.
fn drive(mut run: SendRun, answer: impl Fn(usize) -> Reply) -> (Vec<(usize, usize)>, SendAction) {
    let mut sent = Vec::new();
    loop {
        match run.action() {
            SendAction::Transmit { start, end } => {
                let reply = answer(sent.len());
                sent.push((start, end));
                run.observe(reply);
            }
            done => return (sent, done),
        }
    }
}

/// Runs a handshake to its end, answering the n-th hello with `answer(n)`.
fn shake(mut h: Handshake, answer: impl Fn(usize) -> HelloReply) -> (usize, HandshakeAction) {
    let mut hellos = 0;
    loop {
        match h.action() {
            HandshakeAction::SendHello { .. } => {
                let reply = answer(hellos);
                hellos += 1;
                h.observe(reply);
            }
            done => return (hellos, done),
        }
    }
}

#[test]
fn role_bytes_decode() {
    assert_eq!(FrameType::new(ROLE_SEND), FrameType::OriginatorSend);
    assert_eq!(FrameType::new(ROLE_RECV), FrameType::OriginatorReceive);
    for b in [0u8, PING, PONG, RTP, 255] {
        assert_eq!(FrameType::new(b), FrameType::Unrecognized);
    }
}

#[test]
fn roles_are_complementary() {
    assert_eq!(Role::Send.hello(), 1);
    assert_eq!(Role::Receive.hello(), 2);
    assert_eq!(Role::Send.complement(), Role::Receive);
    assert_eq!(Role::Receive.complement(), Role::Send);
    assert_eq!(Role::for_acceptor(1), Some(Role::Receive));
    assert_eq!(Role::for_acceptor(2), Some(Role::Send));
    assert_eq!(Role::for_acceptor(3), None);
}

#[test]
fn handshake_fixes_peer_to_reply_source() {
    let h = Udp::attach(None).connect_to(ROLE_SEND, host(9000), 3);
    assert_eq!(
        h.action(),
        HandshakeAction::SendHello { hello: ROLE_SEND, to: host(9000) }
    );
    let (hellos, end) = shake(h, |_| HelloReply::Byte(ACK, host(40001)));
    assert_eq!(hellos, 1);
    assert_eq!(end, HandshakeAction::Fixed { sent: 1, peer: host(40001) });
    assert_eq!(Udp::attach(None).fixed_to(host(40001)).peer, Some(host(40001)));
}

#[test]
fn handshake_retries_after_silence() {
    let h = Udp::attach(None).connect_to(ROLE_RECV, host(9000), 3);
    let (hellos, end) = shake(h, |n| {
        if n < 2 { HelloReply::Lost } else { HelloReply::Byte(ACK, host(40002)) }
    });
    assert_eq!(hellos, 3);
    assert_eq!(end, HandshakeAction::Fixed { sent: 1, peer: host(40002) });
}

#[test]
fn handshake_bad_ack_fails_without_retry() {
    for b in [0u8, 2, 3, 0x80, 255] {
        let mut h = Udp::attach(None).connect_to(ROLE_SEND, host(9000), 3);
        h.observe(HelloReply::Lost);
        h.observe(HelloReply::Byte(b, host(40003)));
        assert_eq!(h.left, 2);
        assert_eq!(h.outcome, HandshakeOutcome::Refused(TransportError::ProtocolMismatch));
        assert_eq!(h.action(), HandshakeAction::Failed(TransportError::ProtocolMismatch));
    }
}

#[test]
fn handshake_silence_exhausts_attempts() {
    for retry in [0u8, 1, 3, 7] {
        let h = Udp::attach(None).connect_to(ROLE_SEND, host(9000), retry);
        let (hellos, end) = shake(h, |_| HelloReply::Lost);
        assert_eq!(hellos, retry as usize);
        assert_eq!(end, HandshakeAction::Failed(TransportError::HandshakeFailed));
    }
}

#[test]
fn connect_starts_role_handshake() {
    let h = Sender::connect(&[host(9000), host(9001)]).unwrap();
    assert_eq!(h, Handshake { hello: 1, remote: host(9000), left: 3, outcome: HandshakeOutcome::Pending });
    let h = Recver::connect(&[host(9000)]).unwrap();
    assert_eq!(h.hello, 2);
    assert_eq!(h.left, 3);
    assert_eq!(Sender::connect(&[]), Err(TransportError::AddressUnavailable));
    assert_eq!(Recver::connect(&[]), Err(TransportError::AddressUnavailable));
}

#[test]
fn close_reports_zero() {
    assert_eq!(Sender::close(), Ok(0));
}

#[test]
fn small_payload_arrives_whole() {
    let payload: Vec<u8> = (0..100u8).collect();
    let s = Sender::attach(Udp::attach(Some(host(40004))));
    let (sent, end) = drive(s.send(payload.len(), 3), |_| Reply::Byte(ACK));
    assert_eq!(sent, vec![(0, 100)]);
    assert_eq!(end, SendAction::Finished(100));
    let r = Recver::attach(Udp::attach(Some(host(40005))));
    let d = r.recv(&payload[sent[0].0..sent[0].1], MTU, host(40005));
    assert_eq!(d.data, payload);
    assert_eq!(d.ack, 1);
    assert_eq!(d.ack_to, host(40005));
}

#[test]
fn full_mtu_payload_is_one_fragment() {
    let (sent, end) = drive(SendRun::start_at(MTU, 1), |_| Reply::Byte(ACK));
    assert_eq!(sent, vec![(0, 1320)]);
    assert_eq!(end, SendAction::Finished(1320));
}

#[test]
fn large_payload_is_fragmented_in_order() {
    let s = Sender::attach(Udp::attach(Some(host(40006))));
    let (sent, end) = drive(s.send(MTU + 120, 3), |_| Reply::Byte(ACK));
    assert_eq!(sent, vec![(0, 1320), (1320, 1440)]);
    assert_eq!(end, SendAction::Finished(1440));
    let (sent, _) = drive(s.send(3 * MTU, 3), |_| Reply::Byte(ACK));
    assert_eq!(sent.len(), 3);
    let total: usize = sent.iter().map(|(a, b)| b - a).sum();
    assert_eq!(total, 3 * MTU);
}

#[test]
fn empty_payload_sends_nothing() {
    let s = Sender::attach(Udp::attach(Some(host(40007))));
    let (sent, end) = drive(s.send(0, 3), |_| Reply::Lost);
    assert!(sent.is_empty());
    assert_eq!(end, SendAction::Finished(0));
}

#[test]
fn zero_retry_fails_without_transmitting() {
    let s = Sender::attach(Udp::attach(Some(host(40008))));
    let (sent, end) = drive(s.send(10, 0), |_| Reply::Byte(ACK));
    assert!(sent.is_empty());
    assert_eq!(end, SendAction::Failed(TransportError::DeliveryFailed));
}

#[test]
fn send_bad_ack_fails_at_once() {
    for b in [0u8, 2, 4, 0x80, 255] {
        let s = Sender::attach(Udp::attach(Some(host(40009))));
        let (sent, end) = drive(s.send(3000, 3), |n| {
            if n == 0 { Reply::Byte(ACK) } else if n == 1 { Reply::Lost } else { Reply::Byte(b) }
        });
        assert_eq!(sent, vec![(0, 1320), (1320, 2640), (1320, 2640)]);
        assert_eq!(end, SendAction::Failed(TransportError::ProtocolMismatch));
    }
    let mut run = SendRun::start_at(50, 3);
    run.observe(Reply::Byte(7));
    assert_eq!(run.left, 3);
    assert_eq!(run.error, Some(TransportError::ProtocolMismatch));
}

#[test]
fn send_silence_exhausts_retries() {
    for retry in [1u8, 3, 5] {
        let s = Sender::attach(Udp::attach(Some(host(40010))));
        let (sent, end) = drive(s.send(2000, retry), |_| Reply::Lost);
        assert_eq!(sent.len(), retry as usize);
        assert!(sent.iter().all(|&r| r == (0, 1320)));
        assert_eq!(end, SendAction::Failed(TransportError::DeliveryFailed));
    }
}

#[test]
fn retry_budget_is_per_fragment() {
    let s = Sender::attach(Udp::attach(Some(host(40011))));
    // Each fragment loses twice, then is acknowledged: three attempts each suffice.
    let (sent, end) = drive(s.send(2 * MTU + 1, 3), |n| {
        if n % 3 == 2 { Reply::Byte(ACK) } else { Reply::Lost }
    });
    assert_eq!(sent.len(), 9);
    assert_eq!(end, SendAction::Finished(2 * MTU + 1));
}

#[test]
fn recv_truncates_to_buffer() {
    let r = Recver::attach(Udp::attach(Some(host(40012))));
    let datagram: Vec<u8> = (0..50u8).collect();
    let d = r.recv(&datagram, 20, host(50000));
    assert_eq!(d.data, datagram[..20].to_vec());
    assert_eq!(d.ack_to, host(50000));
    let d = r.recv(&datagram, 50, host(40012));
    assert_eq!(d.data, datagram);
    let d = Udp::attach(None).recv(&[], 10, host(1));
    assert!(d.data.is_empty());
    assert_eq!(d.ack, ACK);
}

#[test]
fn listen_takes_first_address() {
    assert_eq!(Server::listen(&[]), Err(TransportError::AddressUnavailable));
    let s = Server::listen(&[host(9000), host(9001)]).unwrap();
    assert_eq!(s.bind_addr, host(9000));
    assert_eq!(s.session_addr(), host(0));
}

#[test]
fn accept_maps_role_to_complement() {
    let s = Server::listen(&[host(9000)]).unwrap();
    let client = host(51000);
    let a = s.accept(ROLE_SEND, client);
    assert_eq!(a, StreamType::InStream(Recver::attach(Udp::attach(Some(client)))));
    assert_eq!(a.reply(), Some((1, client)));
    let b = s.accept(ROLE_RECV, client);
    assert_eq!(b, StreamType::OutStream(Sender::attach(Udp::attach(Some(client)))));
    assert_eq!(b.reply(), Some((1, client)));
    for t in [0u8, PING, PONG, RTP] {
        let c = s.accept(t, client);
        assert_eq!(c, StreamType::NoSession);
        assert_eq!(c.reply(), None);
    }
}

#[test]
fn two_clients_get_their_own_sessions() {
    let s = Server::listen(&[host(9000)]).unwrap();
    let (c1, c2) = (host(51001), host(51002));
    let a = s.accept(ROLE_SEND, c1);
    let b = s.accept(ROLE_SEND, c2);
    assert_eq!(a.reply(), Some((ACK, c1)));
    assert_eq!(b.reply(), Some((ACK, c2)));
    assert_ne!(a, b);
    // Each session's channel is bound afresh, never on the rendezvous port.
    assert_ne!(s.session_addr(), s.bind_addr);
    assert_eq!(s.session_addr().port, 0);
}

#[test]
fn rendezvous_then_fragmented_send() {
    // Acceptor on host:9000; the client declares it will send.
    let server = Server::listen(&[host(9000)]).unwrap();
    let client = host(52000);
    let h = Sender::connect(&[host(9000)]).unwrap();
    assert_eq!(h.action(), HandshakeAction::SendHello { hello: 1, to: host(9000) });
    let accepted = server.accept(1, client);
    assert!(matches!(accepted, StreamType::InStream(_)));
    let private = Endpoint { port: 47000, ..server.session_addr() };
    assert_eq!(accepted.reply(), Some((ACK, client)));
    // The ack comes from the private channel: the client re-fixes its peer there.
    let (_, end) = shake(h, |_| HelloReply::Byte(ACK, private));
    assert_eq!(end, HandshakeAction::Fixed { sent: 1, peer: private });
    let sender = Sender::attach(Udp::attach(None).fixed_to(private));
    assert_eq!(sender.udp.peer, Some(private));
    let (sent, end) = drive(sender.send(4000, 3), |_| Reply::Byte(ACK));
    assert_eq!(sent, vec![(0, 1320), (1320, 2640), (2640, 3960), (3960, 4000)]);
    assert_eq!(end, SendAction::Finished(4000));
}
