//! The device kinds that the runtime knows, and what it needs to know of each.

use vstd::prelude::*;

verus! {

/// How a device is talked to.
#[derive(Clone, Copy, Debug, PartialEq, Eq, Structural)]
pub enum DeviceFamily {
    Midi,
    Streamdeck,
}

impl Default for DeviceFamily {
    fn default() -> (f: Self)
        ensures
            f == DeviceFamily::Streamdeck,
    {
        DeviceFamily::Streamdeck
    }
}

/// The devices that the runtime knows.
#[derive(Clone, Copy, Debug, PartialEq, Eq, Structural)]
pub enum DeviceKind {
    GenericMidi,
    AkaiFire,
    TouchOSC,
    KorgNanoKontrol2,
    StreamDeck,
    StreamDeckOriginal,
    StreamDeckOriginalV2,
    StreamDeckMini,
    StreamDeckXL,
    StreamDeckMK2,
}

impl Default for DeviceKind {
    fn default() -> (k: Self)
        ensures
            k == DeviceKind::StreamDeck,
    {
        DeviceKind::StreamDeck
    }
}

/// What the runtime needs to know of a device kind: its family and, for a
/// MIDI device, the names of the ports to look for.
#[derive(Debug)]
pub struct DeviceSpecs {
    pub family: DeviceFamily,
    pub midi_in: Option<String>,
    pub midi_out: Option<String>,
}

impl Default for DeviceSpecs {
    fn default() -> (s: Self)
        ensures
            s.family == DeviceFamily::Streamdeck,
            s.midi_in is None,
            s.midi_out is None,
    {
        DeviceSpecs { family: DeviceFamily::Streamdeck, midi_in: None, midi_out: None }
    }
}

/// What kind of control a MIDI message addresses.
#[derive(Clone, Copy, Debug, PartialEq, Eq, Structural)]
pub enum ButtonClass {
    MidiCcButton,
    MidiCcValue,
    MidiNote,
}

impl DeviceKind {
    /// The family of the kind: the four MIDI kinds are `Midi`, all others
    /// `Streamdeck`.
    pub open spec fn family(self) -> DeviceFamily {
        match self {
            DeviceKind::GenericMidi | DeviceKind::AkaiFire | DeviceKind::TouchOSC
            | DeviceKind::KorgNanoKontrol2 => DeviceFamily::Midi,
            _ => DeviceFamily::Streamdeck,
        }
    }

    /// The specs of the kind. No kind prescribes port names.
    pub fn get_specs(&self) -> (specs: DeviceSpecs)
        ensures
            specs.family == self.family(),
            specs.midi_in is None,
            specs.midi_out is None,
    {
        match self {
            DeviceKind::GenericMidi => DeviceSpecs {
                family: DeviceFamily::Midi,
                midi_in: None,
                midi_out: None,
            },
            DeviceKind::StreamDeck => DeviceSpecs {
                family: DeviceFamily::Streamdeck,
                midi_in: None,
                midi_out: None,
            },
            DeviceKind::AkaiFire => DeviceSpecs {
                family: DeviceFamily::Midi,
                midi_in: None,
                midi_out: None,
            },
            DeviceKind::TouchOSC => DeviceSpecs {
                family: DeviceFamily::Midi,
                midi_in: None,
                midi_out: None,
            },
            DeviceKind::KorgNanoKontrol2 => DeviceSpecs {
                family: DeviceFamily::Midi,
                midi_in: None,
                midi_out: None,
            },
            DeviceKind::StreamDeckMini => DeviceSpecs {
                family: DeviceFamily::Streamdeck,
                midi_in: None,
                midi_out: None,
            },
            DeviceKind::StreamDeckOriginal => DeviceSpecs {
                family: DeviceFamily::Streamdeck,
                midi_in: None,
                midi_out: None,
            },
            DeviceKind::StreamDeckOriginalV2 => DeviceSpecs {
                family: DeviceFamily::Streamdeck,
                midi_in: None,
                midi_out: None,
            },
            DeviceKind::StreamDeckXL => DeviceSpecs {
                family: DeviceFamily::Streamdeck,
                midi_in: None,
                midi_out: None,
            },
            DeviceKind::StreamDeckMK2 => DeviceSpecs {
                family: DeviceFamily::Streamdeck,
                midi_in: None,
                midi_out: None,
            },
        }
    }
}

} // verus!
