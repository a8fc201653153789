//! What holds of whole runs of the send and handshake machines.
use vstd::prelude::*;

use crate::channel::{Endpoint, Handshake, HandshakeAction, HelloReply, TransportError, delivered};
use crate::codec::{ACK, MTU};
use crate::stream::{Reply, SendAction, SendRun, fragment_end};

verus! {

/// `n` attempts in a row that each bring back an acknowledgment.
pub open spec fn acks(n: nat) -> Seq<Reply> {
    Seq::new(n, |_i: int| Reply::Byte(ACK))
}

/// `n` attempts in a row that each bring back nothing.
pub open spec fn silence(n: nat) -> Seq<Reply> {
    Seq::new(n, |_i: int| Reply::Lost)
}

/// `n` handshake attempts in a row that each bring back nothing.
pub open spec fn hello_silence(n: nat) -> Seq<HelloReply> {
    Seq::new(n, |_i: int| HelloReply::Lost)
}

/// How many fragments a payload of `len` bytes is cut into.
pub open spec fn fragment_count(len: int) -> nat {
    ((len + MTU - 1) / (MTU as int)) as nat
}

/// The `i`-th fragment of the bytes `from..total`.
pub open spec fn nth_fragment(from: int, total: int, i: int) -> (int, int) {
    (from + i * MTU, if total < from + (i + 1) * MTU { total } else { from + (i + 1) * MTU })
}

/// The number of bytes that a list of fragments covers.
pub open spec fn covered(frags: Seq<(int, int)>) -> int
    decreases frags.len(),
{
    if frags.len() == 0 {
        0
    } else {
        (frags[0].1 - frags[0].0) + covered(frags.drop_first())
    }
}

proof fn lemma_acks_from(s: SendRun)
    requires
        s.wf(),
        s.error is None,
        s.left > 0,
        s.retry > 0,
    ensures
        s.fragments(acks(fragment_count(s.total - s.done))) == Seq::new(
            fragment_count(s.total - s.done),
            |i: int| nth_fragment(s.done as int, s.total as int, i),
        ),
        covered(s.fragments(acks(fragment_count(s.total - s.done)))) == s.total - s.done,
        s.after(acks(fragment_count(s.total - s.done))).action_spec() == SendAction::Finished(
            s.total,
        ),
    decreases s.total - s.done,
{
    let k = fragment_count(s.total - s.done);
    let want = Seq::new(k, |i: int| nth_fragment(s.done as int, s.total as int, i));
    if s.done == s.total {
        assert(k == 0);
        assert(s.fragments(acks(k)) =~= want);
    } else {
        let rest = s.total - s.done;
        let t = s.step(Reply::Byte(ACK));
        assert(t.done == fragment_end(s.done as int, s.total as int));
        assert(k >= 1 && fragment_count(t.total - t.done) == k - 1) by {
            if rest > MTU {
                assert(t.total - t.done == rest - MTU);
            } else {
                assert(t.total - t.done == 0);
            }
        }
        lemma_acks_from(t);
        assert(acks(k).drop_first() =~= acks((k - 1) as nat));
        let tail = t.fragments(acks((k - 1) as nat));
        assert(s.fragments(acks(k)) == seq![
            (s.done as int, fragment_end(s.done as int, s.total as int)),
        ] + tail);
        assert(s.fragments(acks(k)) =~= want) by {
            assert forall|i: int| 0 <= i < k implies #[trigger] s.fragments(acks(k))[i]
                == want[i] by {
                if i > 0 {
                    assert(tail[i - 1] == nth_fragment(t.done as int, t.total as int, i - 1));
                    assert((i - 1) * MTU + MTU == i * MTU) by (nonlinear_arith);
                    assert(i * MTU + MTU == (i + 1) * MTU) by (nonlinear_arith);
                    assert(t.done == s.done + MTU);
                }
            }
        }
        assert((seq![(s.done as int, fragment_end(s.done as int, s.total as int))]
            + tail).drop_first() =~= tail);
    }
}

/// With every fragment acknowledged at once, a send of `len` bytes transmits
/// the fragments `0..MTU`, `MTU..2*MTU`, ... in order, as many as MTU goes
/// into `len` rounded up; together they cover the `len` bytes, and the send
/// returns `len`.
pub proof fn lemma_fragments_cover_payload(len: usize, retry: u8)
    requires
        retry > 0,
    ensures
        SendRun::start(len, retry).fragments(acks(fragment_count(len as int))) == Seq::new(
            fragment_count(len as int),
            |i: int| nth_fragment(0, len as int, i),
        ),
        covered(SendRun::start(len, retry).fragments(acks(fragment_count(len as int)))) == len,
        SendRun::start(len, retry).after(acks(fragment_count(len as int))).action_spec()
            == SendAction::Finished(len),
{
    lemma_acks_from(SendRun::start(len, retry));
}

/// A payload of at most MTU bytes goes out as one datagram holding all of
/// it; a receiver whose buffer holds that many bytes gets the payload back
/// exactly, and the send returns its length.
pub proof fn lemma_small_payload_arrives_whole(p: Seq<u8>, retry: u8, cap: nat)
    requires
        0 < p.len() <= MTU,
        retry > 0,
        cap >= p.len(),
    ensures
        SendRun::start(p.len() as usize, retry).fragments(acks(1)) == seq![(0int, p.len() as int)],
        SendRun::start(p.len() as usize, retry).after(acks(1)).action_spec()
            == SendAction::Finished(p.len() as usize),
        delivered(p.subrange(0, p.len() as int), cap) == p,
{
    let len = p.len() as usize;
    assert(fragment_count(len as int) == 1);
    lemma_fragments_cover_payload(len, retry);
    assert(Seq::new(1, |i: int| nth_fragment(0, len as int, i)) =~= seq![(0int, p.len() as int)]);
    assert(p.subrange(0, p.len() as int) =~= p);
}

/// A reply byte other than the acknowledgment ends a send at once with
/// `ProtocolMismatch`: the attempts left are untouched and nothing more is
/// transmitted, whatever comes after.
pub proof fn lemma_bad_ack_fails_send(s: SendRun, b: u8, rest: Seq<Reply>)
    requires
        s.wf(),
        s.sending(),
        b != ACK,
    ensures
        s.step(Reply::Byte(b)).action_spec() == SendAction::Failed(TransportError::ProtocolMismatch),
        s.step(Reply::Byte(b)).left == s.left,
        s.step(Reply::Byte(b)).after(rest) == s.step(Reply::Byte(b)),
        s.step(Reply::Byte(b)).fragments(rest) == Seq::<(int, int)>::empty(),
{
    lemma_finished_send_stays(s.step(Reply::Byte(b)), rest);
}

proof fn lemma_finished_send_stays(s: SendRun, rest: Seq<Reply>)
    requires
        !s.sending(),
    ensures
        s.after(rest) == s,
        s.fragments(rest) == Seq::<(int, int)>::empty(),
    decreases rest.len(),
{
    if rest.len() > 0 {
        lemma_finished_send_stays(s, rest.drop_first());
    }
}

/// A reply byte other than the acknowledgment ends a handshake at once with
/// `ProtocolMismatch`: the attempts left are untouched and no more hellos
/// go out, whatever comes after.
pub proof fn lemma_bad_ack_fails_handshake(h: Handshake, b: u8, from: Endpoint, rest: Seq<HelloReply>)
    requires
        h.sending(),
        b != ACK,
    ensures
        h.step(HelloReply::Byte(b, from)).action_spec() == HandshakeAction::Failed(
            TransportError::ProtocolMismatch,
        ),
        h.step(HelloReply::Byte(b, from)).left == h.left,
        h.step(HelloReply::Byte(b, from)).after(rest) == h.step(HelloReply::Byte(b, from)),
        h.step(HelloReply::Byte(b, from)).hellos(rest) == 0,
{
    lemma_finished_handshake_stays(h.step(HelloReply::Byte(b, from)), rest);
}

proof fn lemma_finished_handshake_stays(h: Handshake, rest: Seq<HelloReply>)
    requires
        !h.sending(),
    ensures
        h.after(rest) == h,
        h.hellos(rest) == 0,
    decreases rest.len(),
{
    if rest.len() > 0 {
        lemma_finished_handshake_stays(h, rest.drop_first());
    }
}

proof fn lemma_silence_from(s: SendRun, n: nat)
    requires
        s.wf(),
        s.error is None,
        s.done < s.total,
        n >= s.left,
    ensures
        s.fragments(silence(n)) == Seq::new(
            s.left as nat,
            |_i: int| (s.done as int, fragment_end(s.done as int, s.total as int)),
        ),
        s.after(silence(n)).action_spec() == SendAction::Failed(TransportError::DeliveryFailed),
    decreases n,
{
    let frag = (s.done as int, fragment_end(s.done as int, s.total as int));
    if s.left == 0 {
        lemma_finished_send_stays(s, silence(n));
        assert(s.fragments(silence(n)) =~= Seq::new(0, |_i: int| frag));
    } else {
        let t = s.step(Reply::Lost);
        assert(silence(n).drop_first() =~= silence((n - 1) as nat));
        lemma_silence_from(t, (n - 1) as nat);
        assert(s.fragments(silence(n)) =~= Seq::new(s.left as nat, |_i: int| frag));
    }
}

/// When no reply ever comes, a send of a non-empty payload transmits its
/// first fragment exactly `retry` times, however many attempts are offered,
/// and fails with `DeliveryFailed`.
pub proof fn lemma_silence_exhausts_send(len: usize, retry: u8, n: nat)
    requires
        len > 0,
        n >= retry,
    ensures
        SendRun::start(len, retry).fragments(silence(n)) == Seq::new(
            retry as nat,
            |_i: int| (0int, fragment_end(0, len as int)),
        ),
        SendRun::start(len, retry).fragments(silence(n)).len() == retry,
        SendRun::start(len, retry).after(silence(n)).action_spec() == SendAction::Failed(
            TransportError::DeliveryFailed,
        ),
{
    lemma_silence_from(SendRun::start(len, retry), n);
}

proof fn lemma_hello_silence_from(h: Handshake, n: nat)
    requires
        h.outcome is Pending,
        n >= h.left,
    ensures
        h.hellos(hello_silence(n)) == h.left,
        h.after(hello_silence(n)).action_spec() == HandshakeAction::Failed(
            TransportError::HandshakeFailed,
        ),
    decreases n,
{
    if h.left == 0 {
        lemma_finished_handshake_stays(h, hello_silence(n));
    } else {
        assert(hello_silence(n).drop_first() =~= hello_silence((n - 1) as nat));
        lemma_hello_silence_from(h.step(HelloReply::Lost), (n - 1) as nat);
    }
}

/// When no reply ever comes, a handshake sends its hello exactly `retry`
/// times, however many attempts are offered, and fails with
/// `HandshakeFailed`.
pub proof fn lemma_silence_exhausts_handshake(hello: u8, remote: Endpoint, retry: u8, n: nat)
    requires
        n >= retry,
    ensures
        Handshake::start_spec(hello, remote, retry).hellos(hello_silence(n)) == retry,
        Handshake::start_spec(hello, remote, retry).after(hello_silence(n)).action_spec()
            == HandshakeAction::Failed(TransportError::HandshakeFailed),
{
    lemma_hello_silence_from(Handshake::start_spec(hello, remote, retry), n);
}

} // verus!
