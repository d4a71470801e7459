use vstd::prelude::*;

verus! {

/// Hard ceiling on the size of one message, in bytes. The configuration
/// surface rejects anything larger before the core ever sees it, and
/// [`crate::MessageBuffer`] enforces the same bound at construction.
pub const MAX_MESSAGE_SIZE: u64 = 65000;

/// The transport chosen for a run: a connected stream (TCP) or a bound
/// datagram association (UDP). Fixed for the lifetime of one run.
#[derive(Clone, Copy, Debug, PartialEq, Eq, Structural)]
pub enum TransportMode {
    Stream,
    Datagram,
}

/// The I/O discipline of a run: busy-spin polling, or OS-scheduled
/// blocking reads. Orthogonal to the transport mode: every combination is
/// served by the same calling code.
#[derive(Clone, Copy, Debug, PartialEq, Eq, Structural)]
pub enum IoDiscipline {
    BusyPoll,
    Blocking,
}

/// Why a settings value was rejected before the run started.
#[derive(Clone, Copy, Debug, PartialEq, Eq, Structural)]
pub enum ConfigError {
    /// Neither the stream nor the datagram transport was chosen.
    NoTransportSelected,
    /// Both transports were chosen; they are mutually exclusive.
    BothTransportsSelected,
    /// A run must send at least one measured message.
    ZeroMessageCount,
    /// The message size is over [`MAX_MESSAGE_SIZE`].
    OversizedMessage,
}

impl ConfigError {
    /// A short account of the rejection, for the configuration surface to
    /// show.
    pub fn message(&self) -> (s: String)
        ensures
            self is NoTransportSelected ==> s@ == "Either tcp or udp has to be selected"@,
            self is BothTransportsSelected ==> s@ == "tcp and udp are mutually exclusive"@,
            self is ZeroMessageCount ==> s@ == "Need to send at least one message"@,
            self is OversizedMessage ==> s@ == "Messages bigger than 65k are not supported yet"@,
    {
        match self {
            ConfigError::NoTransportSelected => "Either tcp or udp has to be selected".to_owned(),
            ConfigError::BothTransportsSelected => "tcp and udp are mutually exclusive".to_owned(),
            ConfigError::ZeroMessageCount => "Need to send at least one message".to_owned(),
            ConfigError::OversizedMessage => (
                "Messages bigger than 65k are not supported yet".to_owned()
            ),
        }
    }
}

/// Everything a run is configured with. The configuration surface fills
/// this in from the command line and must hold it against
/// [`validate_settings`] before the core runs.
#[derive(Clone, Debug)]
pub struct Settings {
    /// Busy-spin polling instead of blocking reads.
    pub non_blocking: bool,
    /// Exchanges before timing starts.
    pub warm_up_count: u64,
    /// Timed exchanges; at least one.
    pub msg_count: u64,
    /// Bytes per message; at most [`MAX_MESSAGE_SIZE`].
    pub msg_size: u64,
    /// Pause between exchanges, in microseconds.
    pub sleep_time: u64,
    /// Address the ponger binds to.
    pub ponger_addr: String,
    /// Address the pinger binds to.
    pub pinger_addr: String,
    /// Run over the stream transport.
    pub tcp: bool,
    /// Run over the datagram transport.
    pub udp: bool,
}

/// What the core assumes of every settings value it is handed: exactly one
/// transport, at least one measured message, and a message size under the
/// ceiling.
pub open spec fn settings_valid(s: Settings) -> bool {
    &&& s.tcp != s.udp
    &&& s.msg_count >= 1
    &&& s.msg_size <= MAX_MESSAGE_SIZE
}

impl Settings {
    /// The transport this configuration selects, if it selects exactly one.
    pub fn transport_mode(&self) -> (m: Option<TransportMode>)
        ensures
            m == Some(TransportMode::Stream) <==> self.tcp && !self.udp,
            m == Some(TransportMode::Datagram) <==> self.udp && !self.tcp,
            m is None <==> self.tcp == self.udp,
    {
        if self.tcp && !self.udp {
            Some(TransportMode::Stream)
        } else if self.udp && !self.tcp {
            Some(TransportMode::Datagram)
        } else {
            None
        }
    }

    /// The I/O discipline this configuration selects.
    pub fn discipline(&self) -> (d: IoDiscipline)
        ensures
            d is BusyPoll <==> self.non_blocking,
            d is Blocking <==> !self.non_blocking,
    {
        if self.non_blocking {
            IoDiscipline::BusyPoll
        } else {
            IoDiscipline::Blocking
        }
    }
}

impl Default for Settings {
    /// The defaults of the configuration surface: blocking discipline, a
    /// thousand warm-up and a thousand measured messages of 64 bytes, no
    /// pause, the conventional local addresses, and no transport chosen
    /// yet — the transport has no default and must be picked explicitly.
    fn default() -> (s: Settings)
        ensures
            !s.non_blocking,
            s.warm_up_count == 1000,
            s.msg_count == 1000,
            s.msg_size == 64,
            s.sleep_time == 0,
            s.ponger_addr@ == "localhost:20001"@,
            s.pinger_addr@ == "localhost:20000"@,
            !s.tcp,
            !s.udp,
    {
        Settings {
            non_blocking: false,
            warm_up_count: 1000,
            msg_count: 1000,
            msg_size: 64,
            sleep_time: 0,
            ponger_addr: "localhost:20001".to_owned(),
            pinger_addr: "localhost:20000".to_owned(),
            tcp: false,
            udp: false,
        }
    }
}

/// Holds a settings value against the rules the core assumes: exactly one
/// transport selected, at least one measured message, and a message size
/// within the ceiling — checked in that order, so the error names the
/// first rule broken. The configuration surface calls this before the core
/// runs; `Ok` comes back exactly on the values the core accepts.
pub fn validate_settings(s: &Settings) -> (r: Result<(), ConfigError>)
    ensures
        r is Ok <==> settings_valid(*s),
        !s.tcp && !s.udp ==> r == Err::<(), ConfigError>(ConfigError::NoTransportSelected),
        s.tcp && s.udp ==> r == Err::<(), ConfigError>(ConfigError::BothTransportsSelected),
        s.tcp != s.udp && s.msg_count == 0 ==> r == Err::<(), ConfigError>(
            ConfigError::ZeroMessageCount,
        ),
        s.tcp != s.udp && s.msg_count >= 1 && s.msg_size > MAX_MESSAGE_SIZE ==> r == Err::<
            (),
            ConfigError,
        >(ConfigError::OversizedMessage),
{
    if s.tcp == s.udp {
        if s.tcp {
            return Err(ConfigError::BothTransportsSelected);
        }
        return Err(ConfigError::NoTransportSelected);
    }
    if s.msg_count == 0 {
        return Err(ConfigError::ZeroMessageCount);
    }
    if s.msg_size > MAX_MESSAGE_SIZE {
        return Err(ConfigError::OversizedMessage);
    }
    Ok(())
}

} // verus!
