//! Bringing the radio link up with a bounded number of attempts, watching it,
//! and taking it down before sleep.
//!
//! The radio itself is driven by the caller. Each function here takes what
//! the caller has just learned from the radio and answers with the next
//! thing to do.

pub mod connect;
pub mod disconnect;
pub mod monitor;

pub use self::connect::{connect_to_wifi, ConnectAction, ConnectEvent};
pub use self::disconnect::{disconnect_from_wifi, DisconnectAction, DisconnectEvent};
pub use self::monitor::{monitor_connection, wifi_monitor_task_with_channel};
use vstd::prelude::*;

verus! {

/// Rounds of the disconnect procedure before it gives up.
pub const MAX_DISCONNECT_RETRIES: u8 = 3;

/// Delay between two rounds of the disconnect procedure, in milliseconds.
pub const DISCONNECT_RETRY_DELAY_MS: u64 = 100;

/// Connection attempts the firmware makes by default.
pub const WIFI_RECONNECT_ATTEMPTS: u8 = 3;

/// Delay between two connection attempts, and before the link is verified,
/// in milliseconds.
pub const WIFI_RECONNECT_DELAY_MS: u64 = 100;

/// Delay between two polls for the link or the address, in milliseconds.
pub const WIFI_POLL_DELAY_MS: u64 = 500;

/// Interval at which the monitor looks at the link, in milliseconds.
pub const WIFI_CHECK_INTERVAL_MS: u64 = 50;

/// Failed looks in a row after which the monitor reports the link as lost.
pub const MAX_CONSECUTIVE_FAILURES: u8 = 2;

/// What the monitor saw of the link.
#[derive(Clone, Copy, Debug, PartialEq, Eq, Structural)]
pub enum ConnectionStatus {
    Connected,
    Disconnected,
    Failed,
}

/// What the radio driver reported when a call failed.
#[derive(Clone, Copy, Debug, PartialEq, Eq, Structural)]
pub enum WifiFault {
    /// The radio is not connected.
    Disconnected,
    /// Anything else.
    Other,
}

/// Why the link could not be brought up.
#[derive(Clone, Copy, Debug, PartialEq, Eq, Structural)]
pub enum WifiConnectionError {
    /// Every attempt that was allowed has failed.
    Exhausted,
    /// The radio driver reported a fault.
    Wifi(WifiFault),
}

/// Why the monitor could not look at the link.
#[derive(Clone, Copy, Debug, PartialEq, Eq, Structural)]
pub enum MonitorError {
    Connection(WifiConnectionError),
}

/// What the monitor tells the main cycle.
#[derive(Clone, Copy, Debug, PartialEq, Eq, Structural)]
pub enum MonitorTaskResult {
    /// The link is up.
    Success,
    /// The link was lost and did not come back.
    ConnectionFailure,
    /// The monitor itself failed.
    InternalError(MonitorError),
}

/// Why the link could not be taken down.
#[derive(Clone, Copy, Debug, PartialEq, Eq, Structural)]
pub enum WifiDisconnectError {
    /// The radio refused the disconnect call in the last round.
    Disconnect,
    /// The radio was still connected after `attempts` rounds.
    Verification { attempts: u8 },
}

/// Where a session stands.
#[derive(Clone, Copy, Debug, PartialEq, Eq, Structural)]
pub enum ConnectionState {
    /// No attempt is under way.
    Idle,
    /// The radio is being started and the connect call issued.
    Starting,
    /// The connect call was issued; the link is not up yet.
    Connecting,
    /// The link is up; there is no address yet.
    LinkUp,
    /// An address was acquired; the link is not verified yet.
    AddressAcquired,
    /// The link was verified.
    Stable,
    /// The link is verified and watched by the monitor.
    Monitoring,
    /// The link is being taken down.
    Disconnecting,
    /// The radio is not connected.
    Disconnected,
}

/// What a round of the disconnect procedure waits for.
#[derive(Clone, Copy, Debug, PartialEq, Eq, Structural)]
pub enum DisconnectStage {
    /// Whether the radio is connected.
    Status,
    /// The outcome of the disconnect call.
    Disconnect,
    /// Whether the radio is still connected after the call.
    Verification,
}

/// One use of the radio, from the first attempt to connect until the radio
/// is off again.
#[derive(Clone, Copy, Debug, PartialEq, Eq, Structural)]
pub struct ConnectionSession {
    pub state: ConnectionState,
    /// Attempts started so far.
    pub attempts: u8,
    /// Attempts allowed.
    pub max_attempts: u8,
    /// Delay between two attempts, in milliseconds.
    pub retry_delay_ms: u64,
    /// Polls without success in the current wait.
    pub polls: u32,
    /// Polls allowed in each wait.
    pub poll_limit: u32,
    /// Rounds of the disconnect procedure that have failed.
    pub retries: u8,
    /// What the current round of the disconnect procedure waits for.
    pub awaiting: DisconnectStage,
}

impl ConnectionSession {
    /// Whether the counters are within their limits.
    pub open spec fn wf(&self) -> bool {
        &&& self.attempts <= self.max_attempts
        &&& self.retries <= MAX_DISCONNECT_RETRIES
    }

    /// Whether an attempt to connect is under way.
    pub open spec fn attempting(&self) -> bool {
        self.state == ConnectionState::Starting || self.state == ConnectionState::Connecting
            || self.state == ConnectionState::LinkUp || self.state
            == ConnectionState::AddressAcquired
    }

    /// Whether the link is up and verified.
    pub open spec fn connected(&self) -> bool {
        self.state == ConnectionState::Stable || self.state == ConnectionState::Monitoring
    }

    /// Whether the radio is on its way down or off.
    pub open spec fn leaving(&self) -> bool {
        self.state == ConnectionState::Disconnecting || self.state
            == ConnectionState::Disconnected
    }

    /// Creates a session in which nothing was attempted yet.
    pub fn new(max_attempts: u8, retry_delay_ms: u64, poll_limit: u32) -> (session: Self)
        ensures
            session == (ConnectionSession {
                state: ConnectionState::Idle,
                attempts: 0,
                max_attempts,
                retry_delay_ms,
                polls: 0,
                poll_limit,
                retries: 0,
                awaiting: DisconnectStage::Status,
            }),
            session.wf(),
    {
        ConnectionSession {
            state: ConnectionState::Idle,
            attempts: 0,
            max_attempts,
            retry_delay_ms,
            polls: 0,
            poll_limit,
            retries: 0,
            awaiting: DisconnectStage::Status,
        }
    }

    /// Notes that the monitor was started on a verified link. In any other
    /// state nothing changes.
    pub fn start_monitoring(self) -> (session: Self)
        ensures
            self.state == ConnectionState::Stable ==> session == (ConnectionSession {
                state: ConnectionState::Monitoring,
                ..self
            }),
            self.state != ConnectionState::Stable ==> session == self,
    {
        match self.state {
            ConnectionState::Stable => ConnectionSession {
                state: ConnectionState::Monitoring,
                ..self
            },
            _ => self,
        }
    }
}

} // verus!
