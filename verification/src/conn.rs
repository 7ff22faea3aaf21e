//! The connectivity manager: a state machine that brings the radio up,
//! associates (station mode) or hosts a network (access-point mode), and
//! re-enters the connect sequence after every failure or link loss, forever.
//!
//! The manager decides; the caller performs the radio work. Each call of
//! [`ConnectivityManager::step`] consumes one radio event and returns the
//! next action the caller must perform (start the radio, issue a connect,
//! wait out the fixed retry delay, or block on the next link-down event).

use vstd::prelude::*;

verus! {

/// Fixed delay between connect attempts and after a link loss, in
/// milliseconds. There is no backoff growth and no attempt cap: the device
/// waits for connectivity forever, by design.
pub const RETRY_DELAY_MS: u64 = 5000;

/// Which role the radio plays.
#[derive(Clone, Copy, Debug, PartialEq, Eq, Structural)]
pub enum WifiMode {
    /// Associate with an existing access point as a client.
    Station,
    /// Host a wireless network that other devices join.
    AccessPoint,
}

/// The connection state machine's states. Owned exclusively by the
/// manager; transitions happen only inside [`ConnectivityManager::step`].
#[derive(Clone, Copy, Debug, PartialEq, Eq, Structural)]
pub enum ConnectionState {
    /// Nothing has happened yet.
    Idle,
    /// The radio has been configured and told to start.
    Starting,
    /// A connect attempt is outstanding or about to be retried.
    Connecting,
    /// The link is up (association succeeded, or the access point started).
    Connected,
    /// The link dropped after having been up.
    Disconnected,
}

/// One event reported back by the radio driver or the retry timer.
#[derive(Clone, Copy, Debug, PartialEq, Eq, Structural)]
pub enum RadioEvent {
    /// Boot: the manager should begin its start sequence.
    Boot,
    /// The radio reports it has started (station) or that the access point
    /// is up (access-point mode).
    Started,
    /// An association attempt succeeded.
    ConnectSucceeded,
    /// An association attempt failed.
    ConnectFailed,
    /// The link dropped or the access point stopped; the payload says
    /// whether the radio itself is still started.
    LinkDown { radio_started: bool },
    /// The fixed retry delay has elapsed.
    DelayElapsed,
}

/// The one action the caller must perform before reporting the next event.
#[derive(Clone, Copy, Debug, PartialEq, Eq, Structural)]
pub enum RadioAction {
    /// Apply the mode configuration (SSID, password, auth method) and start
    /// the radio.
    StartRadio,
    /// Issue an asynchronous connect (station mode only).
    Connect,
    /// Wait the given number of milliseconds, then report
    /// [`RadioEvent::DelayElapsed`].
    Wait(u64),
    /// The link is up: block until the radio reports the next link-down
    /// event.
    AwaitLinkDown,
    /// The event did not apply to the current state; report the next event.
    Ignore,
}

/// Runs the connection state machine. Exactly one instance exists per
/// device; it owns [`ConnectionState`] exclusively.
pub struct ConnectivityManager {
    mode: WifiMode,
    state: ConnectionState,
    radio_started: bool,
}

/// The successor of `state` when a manager in mode `mode`, with the radio
/// started or not per `radio_started`, consumes `event`.
pub open spec fn conn_next_state(
    mode: WifiMode,
    state: ConnectionState,
    radio_started: bool,
    event: RadioEvent,
) -> ConnectionState {
    match (state, event) {
        (ConnectionState::Idle, RadioEvent::Boot) => ConnectionState::Starting,
        (ConnectionState::Starting, RadioEvent::Started) => if mode is Station {
            ConnectionState::Connecting
        } else {
            ConnectionState::Connected
        },
        (ConnectionState::Connecting, RadioEvent::ConnectSucceeded) => ConnectionState::Connected,
        (ConnectionState::Connected, RadioEvent::LinkDown { .. }) => ConnectionState::Disconnected,
        (ConnectionState::Disconnected, RadioEvent::DelayElapsed) => if radio_started {
            ConnectionState::Connecting
        } else {
            ConnectionState::Starting
        },
        _ => state,
    }
}

/// Whether the manager believes the radio is started after consuming
/// `event` in `state`.
pub open spec fn conn_next_started(
    state: ConnectionState,
    radio_started: bool,
    event: RadioEvent,
) -> bool {
    match (state, event) {
        (ConnectionState::Starting, RadioEvent::Started) => true,
        (ConnectionState::Connected, RadioEvent::LinkDown { radio_started: still }) => still,
        _ => radio_started,
    }
}

/// The action owed after a manager in `state` consumes `event`.
pub open spec fn conn_action(
    mode: WifiMode,
    state: ConnectionState,
    radio_started: bool,
    event: RadioEvent,
) -> RadioAction {
    match (state, event) {
        (ConnectionState::Idle, RadioEvent::Boot) => RadioAction::StartRadio,
        (ConnectionState::Starting, RadioEvent::Started) => if mode is Station {
            RadioAction::Connect
        } else {
            RadioAction::AwaitLinkDown
        },
        (ConnectionState::Connecting, RadioEvent::ConnectSucceeded) => RadioAction::AwaitLinkDown,
        (ConnectionState::Connecting, RadioEvent::ConnectFailed) => RadioAction::Wait(
            RETRY_DELAY_MS as u64,
        ),
        (ConnectionState::Connecting, RadioEvent::DelayElapsed) => RadioAction::Connect,
        (ConnectionState::Connected, RadioEvent::LinkDown { .. }) => RadioAction::Wait(
            RETRY_DELAY_MS as u64,
        ),
        (ConnectionState::Disconnected, RadioEvent::DelayElapsed) => {
            if radio_started {
                RadioAction::Connect
            } else {
                RadioAction::StartRadio
            }
        },
        _ => RadioAction::Ignore,
    }
}

impl ConnectivityManager {
    /// The mode this manager was created with.
    pub closed spec fn spec_mode(&self) -> WifiMode {
        self.mode
    }

    /// The current state of the connection state machine.
    pub closed spec fn spec_state(&self) -> ConnectionState {
        self.state
    }

    /// Whether the manager believes the radio has been started.
    pub closed spec fn spec_radio_started(&self) -> bool {
        self.radio_started
    }

    /// A fresh manager: state `Idle`, radio not yet started.
    pub fn new(mode: WifiMode) -> (r: ConnectivityManager)
        ensures
            r.spec_mode() == mode,
            r.spec_state() == ConnectionState::Idle,
            !r.spec_radio_started(),
    {
        ConnectivityManager { mode, state: ConnectionState::Idle, radio_started: false }
    }

    /// The mode this manager runs in.
    pub fn mode(&self) -> (r: WifiMode)
        ensures
            r == self.spec_mode(),
    {
        self.mode
    }

    /// The current connection state.
    pub fn state(&self) -> (r: ConnectionState)
        ensures
            r == self.spec_state(),
    {
        self.state
    }

    /// Consume one radio event and return the action the caller owes.
    ///
    /// The whole transition relation is pinned by [`conn_next_state`],
    /// [`conn_next_started`] and [`conn_action`]; in particular a failed
    /// connect keeps the machine in `Connecting` and asks for the fixed
    /// retry delay, and a link loss moves it to `Disconnected` and
    /// re-enters the start/connect sequence after the same delay.
    /// Unexpected events leave the state unchanged.
    pub fn step(&mut self, event: RadioEvent) -> (action: RadioAction)
        ensures
            final(self).spec_mode() == old(self).spec_mode(),
            final(self).spec_state() == conn_next_state(
                old(self).spec_mode(),
                old(self).spec_state(),
                old(self).spec_radio_started(),
                event,
            ),
            final(self).spec_radio_started() == conn_next_started(
                old(self).spec_state(),
                old(self).spec_radio_started(),
                event,
            ),
            action == conn_action(
                old(self).spec_mode(),
                old(self).spec_state(),
                old(self).spec_radio_started(),
                event,
            ),
    {
        match (self.state, event) {
            (ConnectionState::Idle, RadioEvent::Boot) => {
                self.state = ConnectionState::Starting;
                RadioAction::StartRadio
            },
            (ConnectionState::Starting, RadioEvent::Started) => {
                self.radio_started = true;
                if self.mode == WifiMode::Station {
                    self.state = ConnectionState::Connecting;
                    RadioAction::Connect
                } else {
                    self.state = ConnectionState::Connected;
                    RadioAction::AwaitLinkDown
                }
            },
            (ConnectionState::Connecting, RadioEvent::ConnectSucceeded) => {
                self.state = ConnectionState::Connected;
                RadioAction::AwaitLinkDown
            },
            (ConnectionState::Connecting, RadioEvent::ConnectFailed) => {
                RadioAction::Wait(RETRY_DELAY_MS)
            },
            (ConnectionState::Connecting, RadioEvent::DelayElapsed) => RadioAction::Connect,
            (ConnectionState::Connected, RadioEvent::LinkDown { radio_started }) => {
                self.state = ConnectionState::Disconnected;
                self.radio_started = radio_started;
                RadioAction::Wait(RETRY_DELAY_MS)
            },
            (ConnectionState::Disconnected, RadioEvent::DelayElapsed) => {
                if self.radio_started {
                    self.state = ConnectionState::Connecting;
                    RadioAction::Connect
                } else {
                    self.state = ConnectionState::Starting;
                    RadioAction::StartRadio
                }
            },
            _ => RadioAction::Ignore,
        }
    }
}

/// Law: in station mode, a radio that accepts start and connect on the
/// first attempt drives the machine `Idle` → `Starting` → `Connecting` →
/// `Connected`, with the actions start, connect, and await-link-down, and
/// a connect failure along the way instead keeps the machine in
/// `Connecting` and asks for the fixed retry delay before the next
/// attempt.
pub proof fn lemma_station_connect_sequence(started: bool)
    ensures
        conn_next_state(WifiMode::Station, ConnectionState::Idle, started, RadioEvent::Boot)
            == ConnectionState::Starting,
        conn_action(WifiMode::Station, ConnectionState::Idle, started, RadioEvent::Boot)
            == RadioAction::StartRadio,
        conn_next_state(WifiMode::Station, ConnectionState::Starting, started, RadioEvent::Started)
            == ConnectionState::Connecting,
        conn_action(WifiMode::Station, ConnectionState::Starting, started, RadioEvent::Started)
            == RadioAction::Connect,
        conn_next_state(
            WifiMode::Station,
            ConnectionState::Connecting,
            started,
            RadioEvent::ConnectSucceeded,
        ) == ConnectionState::Connected,
        conn_action(
            WifiMode::Station,
            ConnectionState::Connecting,
            started,
            RadioEvent::ConnectSucceeded,
        ) == RadioAction::AwaitLinkDown,
        conn_next_state(
            WifiMode::Station,
            ConnectionState::Connecting,
            started,
            RadioEvent::ConnectFailed,
        ) == ConnectionState::Connecting,
        conn_action(
            WifiMode::Station,
            ConnectionState::Connecting,
            started,
            RadioEvent::ConnectFailed,
        ) == RadioAction::Wait(RETRY_DELAY_MS as u64),
        conn_next_state(
            WifiMode::Station,
            ConnectionState::Connecting,
            started,
            RadioEvent::DelayElapsed,
        ) == ConnectionState::Connecting,
        conn_action(
            WifiMode::Station,
            ConnectionState::Connecting,
            started,
            RadioEvent::DelayElapsed,
        ) == RadioAction::Connect,
{
}

/// Law: from `Connected`, a link-down event moves the machine to
/// `Disconnected` and asks for the fixed retry delay; once that delay has
/// elapsed the machine re-enters the connect sequence on its own — at
/// `Connecting` if the radio stayed started, at `Starting` otherwise.
pub proof fn lemma_reconnect_after_link_loss(mode: WifiMode, started: bool, still: bool)
    ensures
        conn_next_state(
            mode,
            ConnectionState::Connected,
            started,
            RadioEvent::LinkDown { radio_started: still },
        ) == ConnectionState::Disconnected,
        conn_action(
            mode,
            ConnectionState::Connected,
            started,
            RadioEvent::LinkDown { radio_started: still },
        ) == RadioAction::Wait(RETRY_DELAY_MS as u64),
        conn_next_started(
            ConnectionState::Connected,
            started,
            RadioEvent::LinkDown { radio_started: still },
        ) == still,
        conn_next_state(mode, ConnectionState::Disconnected, still, RadioEvent::DelayElapsed) == (
        if still {
            ConnectionState::Connecting
        } else {
            ConnectionState::Starting
        }),
        conn_action(mode, ConnectionState::Disconnected, still, RadioEvent::DelayElapsed) == (
        if still {
            RadioAction::Connect
        } else {
            RadioAction::StartRadio
        }),
{
}

/// The program's panic handler: an unrecoverable fault halts the
/// device, forever. The endless idle loop cannot stand in verified
/// code; the driver performs the halt this orders.
pub fn panic() -> (r: crate::fault::Halt)
    ensures
        r == crate::fault::Halt::Forever,
{
    crate::fault::Halt::Forever
}

} // verus!
