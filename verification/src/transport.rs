use vstd::prelude::*;

verus! {

/// The closed error taxonomy of the transport layer.
///
/// A receive (or send) either succeeds with a byte count, or fails in one of
/// exactly three ways: no data is ready right now and a retry may succeed
/// (`TransientUnavailable`), the remote endpoint has terminated the
/// association (`PeerClosed`), or the failure is unrecoverable (`Fatal`).
#[derive(Clone, Copy, Debug, PartialEq, Eq, Structural)]
pub enum TransportError {
    TransientUnavailable,
    PeerClosed,
    Fatal,
}

/// The platform-level error kinds that the transport layer's receive path
/// distinguishes. Every kind other than a would-block or a connection reset
/// is collapsed into `Other`, since the classification treats them all alike.
#[derive(Clone, Copy, Debug, PartialEq, Eq, Structural)]
pub enum OsErrorKind {
    WouldBlock,
    ConnectionReset,
    Other,
}

/// Classifies a platform-level error kind into the transport taxonomy:
/// would-block is transient and recoverable, a connection reset means the
/// peer is gone, and anything else is fatal.
pub fn classify_error(kind: OsErrorKind) -> (e: TransportError)
    ensures
        e is TransientUnavailable <==> kind is WouldBlock,
        e is PeerClosed <==> kind is ConnectionReset,
        e is Fatal <==> kind is Other,
{
    match kind {
        OsErrorKind::WouldBlock => TransportError::TransientUnavailable,
        OsErrorKind::ConnectionReset => TransportError::PeerClosed,
        OsErrorKind::Other => TransportError::Fatal,
    }
}

/// One capability set over a stream or datagram endpoint.
///
/// The round-trip measurement code talks only to this trait, so the same
/// calling code runs unmodified over TCP and UDP. Concrete endpoint types
/// implement it: the in-memory loopback channel in this crate, and socket
/// wrappers outside it.
pub trait Sender {
    /// Writes as many bytes of `buf` as the transport accepts in one call.
    /// A stream endpoint may perform a short write; a datagram endpoint
    /// sends the whole buffer as one packet or fails.
    fn send_data(&mut self, buf: &Vec<u8>) -> (r: Result<usize, TransportError>)
        ensures
            r matches Ok(n) ==> n <= buf@.len(),
    ;

    /// Reads into `buf`, returning how many bytes were placed at its front.
    /// The buffer keeps its length; only its contents change.
    fn recv_data(&mut self, buf: &mut Vec<u8>) -> (r: Result<usize, TransportError>)
        ensures
            final(buf)@.len() == old(buf)@.len(),
            r matches Ok(n) ==> n <= old(buf)@.len(),
    ;

    /// Toggles the endpoint between a low-latency busy-polling mode
    /// (`busy = true`: no send coalescing, receives never suspend) and the
    /// default blocking mode (`busy = false`). Idempotent; safe to call at
    /// any point between exchanges.
    fn set_busy(&mut self, busy: bool) -> (r: Result<(), TransportError>);
}

} // verus!
