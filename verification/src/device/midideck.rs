//! The decisions of the adapter of a MIDI control surface: which ports to
//! open, what a message from the surface is, and what it means to the deck.

use vstd::prelude::*;
use wmidi::MidiMessage;
use crate::device::disconnects;
use crate::device::lemma_device_events_hold_no_disconnect;
use crate::device::lemma_disconnects_add;
use crate::device::lemma_one_disconnect;
use crate::device::DeviceEvent;
use crate::device::Polled;
use crate::device::SendMidi;
use crate::device::FULL_PRESSURE;
use crate::dispatch::DeckEvent;
use crate::lookup::find_name;
use crate::error::DeckError;
use crate::lookup::position;
use crate::lookup::texts;

verus! {

/// What the bytes of a raw MIDI message decode to; nothing for bytes that
/// are no message.
pub uninterp spec fn midi_decoded(bytes: Seq<u8>) -> Option<SendMidi>;

/// Decodes a raw MIDI message with `wmidi::MidiMessage::try_from` and copies
/// what came out: the four kinds of message that have a form of their own
/// with their channel index and data bytes, any other message as its debug
/// text. The contract only gives the decoding its name.
#[verifier::external_body]
pub(crate) fn decode_midi(bytes: &[u8]) -> (m: Option<SendMidi>)
    ensures
        m == midi_decoded(bytes@),
{
    Some(match MidiMessage::try_from(bytes).ok()? {
        MidiMessage::NoteOff(c, n, v) => SendMidi::NoteOff(c.index(), n.into(), v.into()),
        MidiMessage::NoteOn(c, n, v) => SendMidi::NoteOn(c.index(), n.into(), v.into()),
        MidiMessage::PolyphonicKeyPressure(c, n, v) => {
            SendMidi::PolyphonicKeyPressure(c.index(), n.into(), v.into())
        },
        MidiMessage::ControlChange(c, f, v) => {
            SendMidi::ControlChange(c.index(), f.into(), v.into())
        },
        m => SendMidi::Other(format!("{:?}", m)),
    })
}

/// The event that a decoded message is handed on as.
pub fn raw_midi(decoded: Option<SendMidi>) -> (e: Option<DeviceEvent>)
    ensures
        e == match decoded {
            Some(m) => Some(DeviceEvent::RawMidi(m)),
            None => None,
        },
{
    match decoded {
        Some(m) => Some(DeviceEvent::RawMidi(m)),
        None => None,
    }
}

/// The event that the bytes of a raw MIDI message are handed on as; nothing
/// for bytes that are no message.
pub fn raw_midi_event(message: &[u8]) -> (e: Option<DeviceEvent>)
    ensures
        e == match midi_decoded(message@) {
            Some(m) => Some(DeviceEvent::RawMidi(m)),
            None => None,
        },
{
    raw_midi(decode_midi(message))
}

/// What an event from the surface means to the deck: a note that is pressed
/// is a press of the key of the note's number, at full pressure. Nothing
/// else means anything yet.
pub open spec fn deck_event_of(event: DeviceEvent) -> Option<DeckEvent> {
    match event {
        DeviceEvent::RawMidi(SendMidi::NoteOn(_, n, _)) => Some(
            DeckEvent::Device(DeviceEvent::ButtonDown(n as usize, FULL_PRESSURE)),
        ),
        _ => None,
    }
}

/// What an event from the surface means to the deck.
pub fn midi_deck_event(event: DeviceEvent) -> (e: Option<DeckEvent>)
    ensures
        e == deck_event_of(event),
{
    match event {
        DeviceEvent::RawMidi(SendMidi::NoteOn(_, n, _)) => Some(
            DeckEvent::Device(DeviceEvent::ButtonDown(n as usize, FULL_PRESSURE)),
        ),
        _ => None,
    }
}

/// What the adapter's wait for the surface came to.
#[derive(Debug)]
pub enum Received {
    /// The surface sent something.
    Event(DeviceEvent),
    /// Nothing came within the time allowed.
    Timeout,
    /// The connection to the surface is gone.
    Closed,
}

/// The events that a step of the adapter gives: what the event received
/// means to the deck; nothing for a timeout; the signal that the device went
/// away for a connection that is gone.
pub open spec fn step_events(received: Received) -> Seq<DeckEvent> {
    match received {
        Received::Event(e) => match deck_event_of(e) {
            Some(d) => seq![d],
            None => Seq::<DeckEvent>::empty(),
        },
        Received::Timeout => Seq::<DeckEvent>::empty(),
        Received::Closed => seq![DeckEvent::Disconnected],
    }
}

/// Takes what the adapter's wait came to. A connection that is gone gives
/// the one event `Disconnected` and ends the adapter.
pub fn on_receive(received: Received) -> (polled: Polled)
    ensures
        polled.events@ == step_events(received),
        polled.stop == (received is Closed),
{
    let mut events: Vec<DeckEvent> = Vec::new();
    match received {
        Received::Event(e) => {
            match midi_deck_event(e) {
                Some(d) => {
                    events.push(d);
                    assert(events@ =~= seq![d]);
                },
                None => {},
            }
            Polled { events, stop: false }
        },
        Received::Timeout => Polled { events, stop: false },
        Received::Closed => {
            events.push(DeckEvent::Disconnected);
            assert(events@ =~= seq![DeckEvent::Disconnected]);
            Polled { events, stop: true }
        },
    }
}

/// The events of a whole run of the adapter: those of each step in turn, up
/// to and with the first step that found the connection gone.
pub open spec fn midi_run_events(steps: Seq<Received>) -> Seq<DeckEvent>
    decreases steps.len(),
{
    if steps.len() == 0 {
        Seq::<DeckEvent>::empty()
    } else if steps[0] is Closed {
        step_events(steps[0])
    } else {
        step_events(steps[0]) + midi_run_events(steps.drop_first())
    }
}

/// One of the steps found the connection gone.
pub open spec fn some_step_closed(steps: Seq<Received>) -> bool {
    exists|i: int| 0 <= i < steps.len() && (#[trigger] steps[i]) is Closed
}

/// Over a whole run of the adapter the signal that the device went away is
/// sent exactly once if the connection went, and then it is the last event
/// sent; it is not sent at all otherwise.
pub proof fn lemma_one_disconnect_ends_a_midi_run(steps: Seq<Received>)
    ensures
        some_step_closed(steps) ==> disconnects(midi_run_events(steps)) == 1 && midi_run_events(
            steps,
        ).len() > 0 && midi_run_events(steps).last() is Disconnected,
        !some_step_closed(steps) ==> disconnects(midi_run_events(steps)) == 0,
    decreases steps.len(),
{
    if steps.len() > 0 {
        let first = step_events(steps[0]);
        if steps[0] is Closed {
            lemma_one_disconnect();
        } else {
            let rest = steps.drop_first();
            let later = midi_run_events(rest);
            lemma_one_disconnect_ends_a_midi_run(rest);
            lemma_device_events_hold_no_disconnect(first);
            lemma_disconnects_add(first, later);
            if some_step_closed(steps) {
                let i = choose|i: int| 0 <= i < steps.len() && (#[trigger] steps[i]) is Closed;
                assert(rest[i - 1] is Closed);
                assert((first + later).last() == later.last());
            } else {
                assert forall|i: int| 0 <= i < rest.len() implies !((#[trigger] rest[i]) is Closed) by {
                    assert(steps[i + 1] == rest[i]);
                }
            }
        }
    }
}

/// The name of the port to open: the name asked for, or else the name that
/// the device kind prescribes, or else `TouchOSC`.
pub fn midi_port_name(requested: Option<String>, prescribed: Option<String>) -> (name: String)
    ensures
        name@ == match requested {
            Some(n) => n@,
            None => match prescribed {
                Some(n) => n@,
                None => "TouchOSC"@,
            },
        },
{
    match requested {
        Some(n) => n,
        None => match prescribed {
            Some(n) => n,
            None => "TouchOSC".to_owned(),
        },
    }
}

/// The place of the port to open: the first port called `wanted`.
pub fn find_port(names: &Vec<String>, wanted: &str) -> (port: Option<usize>)
    ensures
        match port {
            Some(i) => position(texts(names@), wanted@) == Some(i as int),
            None => position(texts(names@), wanted@) is None,
        },
{
    find_name(names, wanted)
}

/// The places of the input and the output port to open: the first input
/// port called `ipn` and the first output port called `opn`. Where either
/// is missing there is no device to open.
pub fn choose_ports(in_names: &Vec<String>, out_names: &Vec<String>, ipn: &str, opn: &str) -> (r:
    Result<(usize, usize), DeckError>)
    ensures
        match r {
            Ok((i, o)) => position(texts(in_names@), ipn@) == Some(i as int) && position(
                texts(out_names@),
                opn@,
            ) == Some(o as int) && i < in_names.len() && o < out_names.len(),
            Err(e) => e == DeckError::NoDevice && (position(texts(in_names@), ipn@) is None
                || position(texts(out_names@), opn@) is None),
        },
{
    match find_port(in_names, ipn) {
        Some(i) => match find_port(out_names, opn) {
            Some(o) => {
                assert(o < out_names.len()) by {
                    crate::lookup::lemma_position_holds(texts(out_names@), opn@);
                }
                assert(i < in_names.len()) by {
                    crate::lookup::lemma_position_holds(texts(in_names@), ipn@);
                }
                Ok((i, o))
            },
            None => Err(DeckError::NoDevice),
        },
        None => Err(DeckError::NoDevice),
    }
}

} // verus!
