//! The decisions of the reconnect supervisor.
//!
//! The supervisor looks for a device until it finds one, has a definition
//! built for it, connects, and then takes events until the device goes away;
//! then it starts over. It keeps a deck alive across any number of
//! disconnects. The looking, building, waiting and receiving is the
//! caller's; what to do next is decided here.

use vstd::prelude::*;
use crate::deck::ButtonDeck;
use crate::deck::DeckDeviceSetup;
use crate::error::DeckError;

verus! {

/// The pause before the supervisor looks for a device again, in
/// milliseconds.
pub const RETRY_PAUSE_MS: u64 = 3000;

/// Whether a device is connected.
#[derive(Clone, Copy, Debug, PartialEq, Eq, Structural)]
pub enum Phase {
    /// No device is connected.
    WaitDevice,
    /// A device is connected and its events are being taken.
    Connected,
}

/// What happened to what the supervisor last asked for.
#[derive(Debug)]
pub enum Signal {
    /// Discovery found a device.
    DeviceFound,
    /// Discovery found no device.
    NoDeviceFound,
    /// The definition for the device was built.
    DefinitionBuilt,
    /// The definition for the device could not be built.
    BuildFailed,
    /// An event was taken.
    EventDone,
    /// Taking an event gave an error.
    EventFailed(DeckError),
    /// No event could be received.
    ReceiveFailed,
}

/// What the supervisor asks for next.
#[derive(Clone, Copy, Debug, PartialEq, Eq, Structural)]
pub enum Action {
    /// Pause for the given number of milliseconds, drop what is left of the
    /// last connection, and look for a device.
    Discover(u64),
    /// Build the definition for the device that was found.
    Build,
    /// Start the device's adapter, install the definition, make the first
    /// setup current, and receive the next event.
    Connect,
    /// Receive the next event and take it.
    Receive,
}

/// The reconnect supervisor.
#[derive(Debug)]
pub struct Supervisor {
    pub phase: Phase,
}

/// The phase after `signal` came in the phase `phase`.
pub open spec fn next_phase(phase: Phase, signal: Signal) -> Phase {
    match phase {
        Phase::WaitDevice => match signal {
            Signal::DefinitionBuilt => Phase::Connected,
            _ => Phase::WaitDevice,
        },
        Phase::Connected => match signal {
            Signal::EventFailed(DeckError::Disconnected) => Phase::WaitDevice,
            _ => Phase::Connected,
        },
    }
}

/// What is asked for after `signal` came in the phase `phase`. While no
/// device is connected, whatever does not lead on to a connection leads
/// back to discovery after a pause. While a device is connected, only the
/// signal that it went away ends the taking of events: no other error does.
pub open spec fn next_action(phase: Phase, signal: Signal) -> Action {
    match phase {
        Phase::WaitDevice => match signal {
            Signal::DeviceFound => Action::Build,
            Signal::DefinitionBuilt => Action::Connect,
            _ => Action::Discover(RETRY_PAUSE_MS),
        },
        Phase::Connected => match signal {
            Signal::EventFailed(DeckError::Disconnected) => Action::Discover(RETRY_PAUSE_MS),
            _ => Action::Receive,
        },
    }
}

impl Supervisor {
    /// A supervisor without a device. Its first request is `first_action`.
    pub fn new() -> (s: Self)
        ensures
            s.phase == Phase::WaitDevice,
    {
        Supervisor { phase: Phase::WaitDevice }
    }

    /// What a new supervisor asks for: to look for a device at once.
    pub fn first_action(&self) -> (a: Action)
        ensures
            a == Action::Discover(0),
    {
        Action::Discover(0)
    }

    /// Takes what happened to the last request and says what to do next.
    pub fn step(&mut self, signal: Signal) -> (a: Action)
        ensures
            final(self).phase == next_phase(old(self).phase, signal),
            a == next_action(old(self).phase, signal),
    {
        match self.phase {
            Phase::WaitDevice => match signal {
                Signal::DeviceFound => Action::Build,
                Signal::DefinitionBuilt => {
                    self.phase = Phase::Connected;
                    Action::Connect
                },
                _ => Action::Discover(RETRY_PAUSE_MS),
            },
            Phase::Connected => match signal {
                Signal::EventFailed(DeckError::Disconnected) => {
                    self.phase = Phase::WaitDevice;
                    Action::Discover(RETRY_PAUSE_MS)
                },
                _ => Action::Receive,
            },
        }
    }
}

/// The supervisor never gives up: whatever happens, it asks for something
/// next. It leaves a connection only on the signal that the device went
/// away, and it connects only once a definition was built.
pub proof fn lemma_supervisor_keeps_running(phase: Phase, signal: Signal)
    ensures
        phase == Phase::Connected && next_phase(phase, signal) == Phase::WaitDevice ==> signal
            == Signal::EventFailed(DeckError::Disconnected),
        phase == Phase::WaitDevice && next_phase(phase, signal) == Phase::Connected ==> signal
            == Signal::DefinitionBuilt,
        next_action(phase, signal) == Action::Connect <==> phase == Phase::WaitDevice && signal
            == Signal::DefinitionBuilt,
        next_action(phase, signal) == Action::Receive ==> next_phase(phase, signal)
            == Phase::Connected,
{
}

impl<D> ButtonDeck<D> {
    /// Connects the deck to a device: the definition built for the device
    /// takes the place of the deck's own, and its first setup is made
    /// current. Nothing of the definition that the deck had before is kept.
    pub fn connect(&mut self, definition: DeckDeviceSetup)
        requires
            definition.wf(old(self).deckid),
        ensures
            final(self).wf(),
            definition.setup_arena.len() > 0 ==> final(self).is_switched(
                &(ButtonDeck { ddsetup: definition, ..*old(self) }),
                0,
            ),
            definition.setup_arena.len() == 0 ==> *final(self) == (ButtonDeck {
                ddsetup: definition,
                ..*old(self)
            }),
    {
        self.install(definition);
        self.switch_to_default();
    }
}

} // verus!
