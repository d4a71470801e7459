//! Transport abstraction and polling-mode I/O engine for a two-role
//! network latency benchmark.
//!
//! A "pinger" and a "ponger" exchange fixed-size messages over a stream
//! (TCP) or datagram (UDP) endpoint, and the pinger times each round trip.
//! This crate holds the part worth getting exactly right: one capability
//! set ([`Sender`]) over both transports, the closed error taxonomy that
//! separates transient non-availability from peer departure and from fatal
//! failure, the busy-read driver ([`read_busy_until_some`]) that turns a
//! non-blocking receive into a blocking-equivalent call, and the
//! configuration values ([`Settings`], [`MessageBuffer`]) with their
//! validity rules.

mod buffer;
mod config;
mod driver;
mod loopback;
mod transport;

pub use buffer::MessageBuffer;
pub use config::{
    ConfigError, IoDiscipline, MAX_MESSAGE_SIZE, Settings, TransportMode, settings_valid,
    validate_settings,
};
pub use driver::{ReadStep, SPIN_RETRY_BOUND, busy_read_step, read_busy_until_some};
pub use loopback::{LoopbackChannel, deliverable, lemma_send_recv_round_trip, sent_queue};
pub use transport::{OsErrorKind, Sender, TransportError, classify_error};
