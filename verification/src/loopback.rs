use vstd::prelude::*;

use crate::transport::{Sender, TransportError};

verus! {

/// The queue after a send: the sent bytes go behind whatever was pending.
pub open spec fn sent_queue(pending: Seq<u8>, msg: Seq<u8>) -> Seq<u8> {
    pending + msg
}

/// How many bytes one receive takes from a pending queue into a buffer of
/// the given capacity: everything pending, up to that capacity.
pub open spec fn deliverable(pending: Seq<u8>, cap: nat) -> nat {
    if pending.len() <= cap {
        pending.len()
    } else {
        cap
    }
}

/// An in-memory transport endpoint: one side of a loopback association
/// whose peer echoes at once, so every byte sent is immediately pending
/// for receipt. It implements [`Sender`] exactly, which makes the contract
/// of the capability set inhabited and gives the busy-read driver a
/// verified endpoint to run against.
///
/// The channel never suspends: a receive with nothing pending reports
/// transient-unavailable in either discipline, where an OS endpoint in
/// blocking mode would park the thread instead.
pub struct LoopbackChannel {
    pending: Vec<u8>,
    busy: bool,
    peer_open: bool,
}

impl LoopbackChannel {
    /// The bytes sent but not yet received, oldest first.
    pub closed spec fn pending_bytes(&self) -> Seq<u8> {
        self.pending@
    }

    /// Whether the endpoint is in busy-polling mode.
    pub closed spec fn is_busy(&self) -> bool {
        self.busy
    }

    /// Whether the echoing peer is still there.
    pub closed spec fn peer_is_open(&self) -> bool {
        self.peer_open
    }

    /// A fresh association: nothing pending, blocking discipline, peer up.
    pub fn new() -> (c: LoopbackChannel)
        ensures
            c.pending_bytes() == Seq::<u8>::empty(),
            !c.is_busy(),
            c.peer_is_open(),
    {
        LoopbackChannel { pending: Vec::new(), busy: false, peer_open: true }
    }

    /// The peer terminates the association. Bytes it already echoed stay
    /// receivable; after they are drained, receives report the closure.
    pub fn close_peer(&mut self)
        ensures
            !final(self).peer_is_open(),
            final(self).pending_bytes() == old(self).pending_bytes(),
            final(self).is_busy() == old(self).is_busy(),
    {
        self.peer_open = false;
    }
}

impl Sender for LoopbackChannel {
    /// Sends the whole buffer atomically: the echoed bytes join the
    /// pending queue. With the peer gone the send fails fatally, as a
    /// write on a broken association does.
    fn send_data(&mut self, buf: &Vec<u8>) -> (r: Result<usize, TransportError>)
        ensures
            old(self).peer_is_open() ==> (r matches Ok(n) && n == buf@.len()
                && final(self).pending_bytes() == sent_queue(old(self).pending_bytes(), buf@)),
            !old(self).peer_is_open() ==> (r == Err::<usize, TransportError>(
                TransportError::Fatal,
            ) && final(self).pending_bytes() == old(self).pending_bytes()),
            final(self).is_busy() == old(self).is_busy(),
            final(self).peer_is_open() == old(self).peer_is_open(),
    {
        if !self.peer_open {
            return Err(TransportError::Fatal);
        }
        let ghost orig = self.pending@;
        let mut i: usize = 0;
        while i < buf.len()
            invariant
                i <= buf@.len(),
                self.pending@ == orig + buf@.take(i as int),
                self.busy == old(self).is_busy(),
                self.peer_open,
            decreases buf@.len() - i,
        {
            self.pending.push(buf[i]);
            i = i + 1;
            proof {
                assert(self.pending@ =~= orig + buf@.take(i as int));
            }
        }
        proof {
            assert(self.pending@ =~= orig + buf@);
        }
        Ok(buf.len())
    }

    /// Takes as much of the pending queue as the buffer holds, placing it
    /// at the buffer's front; the rest stays pending. With nothing pending
    /// the outcome depends on the peer: still there means
    /// transient-unavailable — never a suspension — and gone means the
    /// uniform zero-length "no more data" success that closure reads as on
    /// stream and datagram endpoints alike.
    fn recv_data(&mut self, buf: &mut Vec<u8>) -> (r: Result<usize, TransportError>)
        ensures
            final(buf)@.len() == old(buf)@.len(),
            final(self).is_busy() == old(self).is_busy(),
            final(self).peer_is_open() == old(self).peer_is_open(),
            old(self).pending_bytes().len() > 0 ==> ({
                let n = deliverable(old(self).pending_bytes(), old(buf)@.len()) as int;
                &&& r matches Ok(m) && m == n
                &&& final(buf)@ == old(self).pending_bytes().take(n) + old(buf)@.skip(n)
                &&& final(self).pending_bytes() == old(self).pending_bytes().skip(n)
            }),
            old(self).pending_bytes().len() == 0 ==> ({
                &&& final(buf)@ == old(buf)@
                &&& final(self).pending_bytes() == old(self).pending_bytes()
                &&& r == (if old(self).peer_is_open() {
                    Err::<usize, TransportError>(TransportError::TransientUnavailable)
                } else {
                    Ok::<usize, TransportError>(0)
                })
            }),
    {
        if self.pending.len() == 0 {
            if self.peer_open {
                return Err(TransportError::TransientUnavailable);
            }
            return Ok(0);
        }
        let ghost q = self.pending@;
        let ghost cap = buf@.len();
        let n: usize = if self.pending.len() <= buf.len() {
            self.pending.len()
        } else {
            buf.len()
        };
        let mut i: usize = 0;
        while i < n
            invariant
                i <= n,
                n == deliverable(q, cap),
                self.pending@ == q,
                buf@.len() == cap,
                forall|k: int| 0 <= k < i ==> buf@[k] == q[k],
                forall|k: int| i <= k < cap ==> buf@[k] == old(buf)@[k],
            decreases n - i,
        {
            buf.set(i, self.pending[i]);
            i = i + 1;
        }
        proof {
            assert(buf@ =~= q.take(n as int) + old(buf)@.skip(n as int));
        }
        let mut rest: Vec<u8> = Vec::new();
        let mut j: usize = n;
        while j < self.pending.len()
            invariant
                n <= j <= q.len(),
                self.pending@ == q,
                rest@ == q.subrange(n as int, j as int),
            decreases q.len() - j,
        {
            rest.push(self.pending[j]);
            j = j + 1;
            proof {
                assert(rest@ =~= q.subrange(n as int, j as int));
            }
        }
        self.pending = rest;
        proof {
            assert(self.pending@ =~= q.skip(n as int));
        }
        Ok(n)
    }

    /// Records the discipline toggle; the queue and the peer are untouched.
    /// Toggling is idempotent: the recorded mode is the argument, whatever
    /// it was before.
    fn set_busy(&mut self, busy: bool) -> (r: Result<(), TransportError>)
        ensures
            r == Ok::<(), TransportError>(()),
            final(self).is_busy() == busy,
            final(self).pending_bytes() == old(self).pending_bytes(),
            final(self).peer_is_open() == old(self).peer_is_open(),
    {
        self.busy = busy;
        Ok(())
    }
}

/// Echo round trip: over an endpoint with nothing pending, a send of a
/// message followed by a receive into a buffer with at least as much room
/// delivers exactly the sent bytes, unmodified and in order, and leaves
/// nothing pending. Together with the contracts of `send_data` and
/// `recv_data` this pins the loopback exchange for every message that fits
/// its buffer.
pub proof fn lemma_send_recv_round_trip(pending: Seq<u8>, msg: Seq<u8>, cap: nat)
    requires
        pending.len() == 0,
        msg.len() <= cap,
    ensures
        deliverable(sent_queue(pending, msg), cap) == msg.len(),
        sent_queue(pending, msg).take(msg.len() as int) == msg,
        sent_queue(pending, msg).skip(msg.len() as int) == Seq::<u8>::empty(),
{
    assert(sent_queue(pending, msg) =~= msg);
    assert(sent_queue(pending, msg).take(msg.len() as int) =~= msg);
    assert(sent_queue(pending, msg).skip(msg.len() as int) =~= Seq::<u8>::empty());
}

} // verus!
