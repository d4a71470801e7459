use vstd::prelude::*;

use crate::transport::{Sender, TransportError};

verus! {

/// What the busy-read driver does with one receive outcome.
#[derive(Clone, Copy, Debug, PartialEq, Eq, Structural)]
pub enum ReadStep {
    /// Hand this byte count to the caller as a successful read.
    Deliver(usize),
    /// No data yet; try the receive again at once.
    Retry,
    /// Unrecoverable; hand the fatal error to the caller.
    Fail,
}

/// The busy-read driver's decision for a single receive outcome.
///
/// Data is delivered as it is; transient non-availability is retried and
/// never shown to the caller; a closed peer is delivered as a zero-byte
/// success, the uniform "no more data" outcome of stream and datagram
/// transports; a fatal error is propagated unchanged.
pub fn busy_read_step(r: Result<usize, TransportError>) -> (step: ReadStep)
    ensures
        (match r {
            Ok(n) => step == ReadStep::Deliver(n),
            Err(TransportError::TransientUnavailable) => step == ReadStep::Retry,
            Err(TransportError::PeerClosed) => step == ReadStep::Deliver(0),
            Err(TransportError::Fatal) => step == ReadStep::Fail,
        }),
        step is Retry <==> r == Err::<usize, TransportError>(
            TransportError::TransientUnavailable,
        ),
{
    match r {
        Ok(n) => ReadStep::Deliver(n),
        Err(TransportError::TransientUnavailable) => ReadStep::Retry,
        Err(TransportError::PeerClosed) => ReadStep::Deliver(0),
        Err(TransportError::Fatal) => ReadStep::Fail,
    }
}

/// How many consecutive transient outcomes the busy-read driver tolerates
/// before it gives up. Measurement wants the spin unbounded — how long a
/// stalled peer is tolerated is the caller's policy — but every verified
/// loop needs a decreasing measure, so the spin carries the largest budget
/// the counter can hold. At one receive attempt per nanosecond it outlasts
/// five centuries, so no run observes the bound.
pub const SPIN_RETRY_BOUND: u64 = u64::MAX;

/// Repeats a receive until data arrives, the peer is gone, or the attempt
/// fails for good; transient non-availability is absorbed in a tight spin
/// with no sleep and no yield, so no scheduler latency taints the
/// measurement.
///
/// The returned error is only ever `Fatal`: a transient outcome is retried
/// at once, and a closed peer comes back as `Ok(0)`. A fatal error is also
/// what the driver reports in the unreachable case that
/// [`SPIN_RETRY_BOUND`] consecutive receives all came back transient.
pub fn read_busy_until_some<Socket: Sender>(
    sock: &mut Socket,
    buf: &mut Vec<u8>,
) -> (r: Result<usize, TransportError>)
    ensures
        final(buf)@.len() == old(buf)@.len(),
        r matches Ok(n) ==> n <= old(buf)@.len(),
        r matches Err(e) ==> e is Fatal,
{
    let mut spins_left: u64 = SPIN_RETRY_BOUND;
    loop
        invariant
            buf@.len() == old(buf)@.len(),
        decreases spins_left,
    {
        let outcome = sock.recv_data(buf);
        match busy_read_step(outcome) {
            ReadStep::Deliver(n) => {
                return Ok(n);
            },
            ReadStep::Retry => {
                if spins_left == 0 {
                    return Err(TransportError::Fatal);
                }
                spins_left = spins_left - 1;
            },
            ReadStep::Fail => {
                return Err(TransportError::Fatal);
            },
        }
    }
}

} // verus!
