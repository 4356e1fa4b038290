//! What passes between the runtime and a device adapter.

use vstd::prelude::*;
use vstd::std_specs::cmp::PartialEqSpecImpl;
use crate::button::ButtonImage;
use crate::color::ButtonColor;
use crate::dispatch::DeckEvent;

pub mod midideck;
pub mod streamdeck;

verus! {

/// One addressable element of a control surface: a cell of a keypad, a MIDI
/// note or controller number.
#[derive(Debug)]
pub struct PhysicalKey {
    pub id: usize,
    pub name: String,
}

impl Clone for PhysicalKey {
    fn clone(&self) -> (k: Self)
        ensures
            k == *self,
    {
        PhysicalKey { id: self.id, name: self.name.clone() }
    }
}

/// Two keys are the same key when they have the same id, whatever they are
/// called.
impl PartialEq for PhysicalKey {
    fn eq(&self, other: &Self) -> (r: bool) {
        self.id == other.id
    }
}

impl PartialEqSpecImpl for PhysicalKey {
    open spec fn obeys_eq_spec() -> bool {
        true
    }

    open spec fn eq_spec(&self, other: &PhysicalKey) -> bool {
        self.id == other.id
    }
}

impl Eq for PhysicalKey {

}

/// The kinds of event that a device gives.
#[derive(Clone, Copy, Debug, PartialEq, Eq, Structural)]
pub enum DeviceEventType {
    ButtonDown,
    ButtonUp,
    ButtonValue,
    Aftertouch,
    ControlChange,
}

/// A MIDI message in a form that can be handed between threads: channel,
/// then the data of the message, each as the number it is on the wire.
#[derive(Debug)]
pub enum SendMidi {
    /// A note was released: channel, note, velocity.
    NoteOff(u8, u8, u8),
    /// A note was pressed: channel, note, velocity.
    NoteOn(u8, u8, u8),
    /// Pressure on a held note: channel, note, pressure.
    PolyphonicKeyPressure(u8, u8, u8),
    /// A controller changed: channel, controller, value.
    ControlChange(u8, u8, u8),
    /// The patch changed: channel, program.
    ProgramChange(u8, u8),
    /// The greatest pressure of all held notes: channel, pressure.
    ChannelPressure(u8, u8),
    /// The pitch bender moved: channel, position of fourteen bits.
    PitchBendChange(u8, u16),
    /// Any other message, as text.
    Other(String),
}

impl Clone for SendMidi {
    fn clone(&self) -> (m: Self)
        ensures
            m == *self,
    {
        match self {
            SendMidi::NoteOff(c, n, v) => SendMidi::NoteOff(*c, *n, *v),
            SendMidi::NoteOn(c, n, v) => SendMidi::NoteOn(*c, *n, *v),
            SendMidi::PolyphonicKeyPressure(c, n, v) => SendMidi::PolyphonicKeyPressure(*c, *n, *v),
            SendMidi::ControlChange(c, f, v) => SendMidi::ControlChange(*c, *f, *v),
            SendMidi::ProgramChange(c, p) => SendMidi::ProgramChange(*c, *p),
            SendMidi::ChannelPressure(c, v) => SendMidi::ChannelPressure(*c, *v),
            SendMidi::PitchBendChange(c, b) => SendMidi::PitchBendChange(*c, *b),
            SendMidi::Other(s) => SendMidi::Other(s.clone()),
        }
    }
}

/// What travels between the runtime and a device adapter. The adapter
/// reports presses and releases; the runtime sends colours and images.
#[derive(Debug)]
pub enum DeviceEvent {
    RawMidi(SendMidi),
    /// A key went down: its index and the pressure, a number from 0.0 to 1.0
    /// held as the bits of its single-precision form.
    ButtonDown(usize, u32),
    /// A key came up.
    ButtonUp(usize),
    /// Show the image on the key.
    SetImage(usize, ButtonImage),
    /// Light the key in the colour.
    SetColor(usize, ButtonColor),
}

/// The bits of the pressure 1.0, which a device without pressure sensing
/// reports for every press.
pub const FULL_PRESSURE: u32 = 0x3f80_0000;

/// What an adapter is to do after a step.
#[derive(Debug)]
pub struct Polled {
    /// The events to forward, in their order.
    pub events: Vec<DeckEvent>,
    /// Whether the adapter is to end.
    pub stop: bool,
}

/// How often the signal that the device went away occurs among the events.
pub open spec fn disconnects(events: Seq<DeckEvent>) -> nat
    decreases events.len(),
{
    if events.len() == 0 {
        0
    } else {
        disconnects(events.drop_last()) + if events.last() is Disconnected {
            1nat
        } else {
            0nat
        }
    }
}

/// The signals of two runs of events add up.
pub proof fn lemma_disconnects_add(a: Seq<DeckEvent>, b: Seq<DeckEvent>)
    ensures
        disconnects(a + b) == disconnects(a) + disconnects(b),
    decreases b.len(),
{
    if b.len() == 0 {
        assert(a + b =~= a);
    } else {
        lemma_disconnects_add(a, b.drop_last());
        assert((a + b).drop_last() =~= a + b.drop_last());
    }
}

/// Events that all come from the device hold no signal that it went away.
pub proof fn lemma_device_events_hold_no_disconnect(events: Seq<DeckEvent>)
    requires
        forall|k: int| 0 <= k < events.len() ==> (#[trigger] events[k]) is Device,
    ensures
        disconnects(events) == 0,
    decreases events.len(),
{
    if events.len() > 0 {
        lemma_device_events_hold_no_disconnect(events.drop_last());
    }
}

/// The one event that says the device went away.
pub proof fn lemma_one_disconnect()
    ensures
        disconnects(seq![DeckEvent::Disconnected]) == 1,
{
    let one = seq![DeckEvent::Disconnected];
    assert(one.drop_last() =~= Seq::<DeckEvent>::empty());
    assert(disconnects(Seq::<DeckEvent>::empty()) == 0);
    assert(one.last() is Disconnected);
}

} // verus!
