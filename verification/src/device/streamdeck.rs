//! The decisions of the adapter of a keypad: which devices are keypads, what
//! a poll of the keys means, and what a command asks of the hardware.
//!
//! The adapter's thread polls the hardware, hands each poll to `on_poll` and
//! forwards the events that come back; then it drains its queue of commands
//! and carries out what `hardware_command` makes of each. A poll that fails
//! yields the one event `Disconnected`, and the thread ends.

use vstd::prelude::*;
use crate::color::ButtonColor;
use crate::device::disconnects;
use crate::device::lemma_device_events_hold_no_disconnect;
use crate::device::lemma_disconnects_add;
use crate::device::lemma_one_disconnect;
use crate::device::DeviceEvent;
use crate::device::Polled;
use crate::device::FULL_PRESSURE;
use crate::dispatch::DeckEvent;
use crate::error::DeckError;

verus! {

/// The vendor id under which the keypads are sold.
pub const ELGATO: u16 = 0x0fd9;

/// The models of keypad that are told apart.
#[derive(Clone, Copy, Debug, PartialEq, Eq, Structural)]
pub enum StreamDeckKind {
    Original,
    OriginalV2,
    Mini,
    Xl,
    Mk2,
    /// Any later model.
    Other,
}

/// What the device list says of one device.
#[derive(Debug)]
pub struct HidDevice {
    pub vendor_id: u16,
    pub product_id: u16,
    pub serial_number: Option<String>,
}

/// The device is a keypad: it is of the vendor and its product id is one of
/// `products`.
pub open spec fn is_keypad(d: HidDevice, products: Seq<u16>) -> bool {
    d.vendor_id == ELGATO && products.contains(d.product_id)
}

/// `i` is the place of the first keypad in the device list.
pub open spec fn first_keypad(devices: Seq<HidDevice>, products: Seq<u16>, i: int) -> bool {
    &&& 0 <= i < devices.len()
    &&& is_keypad(devices[i], products)
    &&& forall|j: int| 0 <= j < i ==> !is_keypad(#[trigger] devices[j], products)
}

/// Whether `id` is one of `products`.
fn knows_product(products: &Vec<u16>, id: u16) -> (known: bool)
    ensures
        known == products@.contains(id),
{
    let mut i: usize = 0;
    while i < products.len()
        invariant
            i <= products.len(),
            forall|j: int| 0 <= j < i ==> products[j] != id,
        decreases products.len() - i,
    {
        if products[i] == id {
            return true;
        }
        i += 1;
    }
    false
}

/// The place of the device to open: the first keypad of the device list.
/// A list without a keypad is the error `NoDevice`.
pub fn find_streamdeck(devices: &Vec<HidDevice>, products: &Vec<u16>) -> (r: Result<
    usize,
    DeckError,
>)
    ensures
        match r {
            Ok(i) => first_keypad(devices@, products@, i as int),
            Err(e) => e == DeckError::NoDevice && forall|j: int|
                0 <= j < devices.len() ==> !is_keypad(#[trigger] devices[j], products@),
        },
{
    let mut i: usize = 0;
    while i < devices.len()
        invariant
            i <= devices.len(),
            forall|j: int| 0 <= j < i ==> !is_keypad(#[trigger] devices[j], products@),
        decreases devices.len() - i,
    {
        if devices[i].vendor_id == ELGATO && knows_product(products, devices[i].product_id) {
            return Ok(i);
        }
        i += 1;
    }
    Err(DeckError::NoDevice)
}

/// What a poll of the keys came to.
#[derive(Debug)]
pub enum PollResult {
    /// The state of each key: 1 for a key that is down, 0 for one that is up.
    Buttons(Vec<u8>),
    /// Nothing came within the time allowed.
    NoData,
    /// The device cannot be read any more.
    Failed,
}

/// The state of the adapter of one keypad.
#[derive(Debug)]
pub struct StreamDeckDevice {
    /// The state of each key at the last poll.
    pub btn_state: [u8; 256],
    /// What is added to the place of a key to get its key index.
    pub index_offset: usize,
    pub model: String,
}

/// The event that a key gives when its state goes from `was` to `is`: a
/// press when it goes down, a release when it comes up, and nothing else.
pub open spec fn edge(was: u8, is: u8, key: usize) -> Option<DeckEvent> {
    if was == 0 && is == 1 {
        Some(DeckEvent::Device(DeviceEvent::ButtonDown(key, FULL_PRESSURE)))
    } else if was == 1 && is == 0 {
        Some(DeckEvent::Device(DeviceEvent::ButtonUp(key)))
    } else {
        None
    }
}

/// The events that the first `n` keys give, in the order of the keys.
pub open spec fn edges(was: Seq<u8>, is: Seq<u8>, offset: usize, n: int) -> Seq<DeckEvent>
    decreases n,
{
    if n <= 0 {
        Seq::<DeckEvent>::empty()
    } else {
        let before = edges(was, is, offset, n - 1);
        match edge(was[n - 1], is[n - 1], (n - 1 + offset) as usize) {
            Some(e) => before.push(e),
            None => before,
        }
    }
}

/// The events that a poll gives, where the keys were in the states `was`:
/// the events of the keys that changed; nothing for a poll without data; the
/// signal that the device went away for a failed poll.
pub open spec fn poll_events(was: Seq<u8>, offset: usize, result: PollResult) -> Seq<DeckEvent> {
    match result {
        PollResult::Buttons(b) => edges(was, b@, offset, b.len() as int),
        PollResult::NoData => Seq::<DeckEvent>::empty(),
        PollResult::Failed => seq![DeckEvent::Disconnected],
    }
}

/// The states kept after a poll: those polled, and for the keys that the
/// poll did not reach those kept before.
pub open spec fn polled_state(was: Seq<u8>, result: PollResult) -> Seq<u8> {
    match result {
        PollResult::Buttons(b) => Seq::new(
            was.len(),
            |i: int|
                if i < b.len() {
                    b[i]
                } else {
                    was[i]
                },
        ),
        _ => was,
    }
}

/// The events of a whole run of the adapter: those of each poll in turn, up
/// to and with the first poll that failed. The adapter ends there and polls
/// no more.
pub open spec fn run_events(was: Seq<u8>, offset: usize, polls: Seq<PollResult>) -> Seq<DeckEvent>
    decreases polls.len(),
{
    if polls.len() == 0 {
        Seq::<DeckEvent>::empty()
    } else if polls[0] is Failed {
        poll_events(was, offset, polls[0])
    } else {
        poll_events(was, offset, polls[0]) + run_events(
            polled_state(was, polls[0]),
            offset,
            polls.drop_first(),
        )
    }
}

/// One of the polls failed.
pub open spec fn some_poll_failed(polls: Seq<PollResult>) -> bool {
    exists|i: int| 0 <= i < polls.len() && (#[trigger] polls[i]) is Failed
}

impl StreamDeckDevice {
    /// The offset of the key indices of a model: the keys of the small model
    /// count from one.
    pub open spec fn offset_of(kind: StreamDeckKind) -> usize {
        if kind == StreamDeckKind::Mini {
            1
        } else {
            0
        }
    }

    /// The name under which the configuration of a model is filed.
    pub open spec fn model_of(kind: StreamDeckKind) -> Seq<char> {
        match kind {
            StreamDeckKind::Mini => "stream_deck_mini"@,
            StreamDeckKind::Xl => "stream_deck_xl"@,
            _ => "stream_deck"@,
        }
    }

    /// The adapter state for a keypad of the given model, with every key up.
    pub fn new(kind: StreamDeckKind) -> (d: Self)
        ensures
            forall|i: int| 0 <= i < 256 ==> d.btn_state@[i] == 0,
            d.index_offset == Self::offset_of(kind),
            d.model@ == Self::model_of(kind),
    {
        let offs: usize = match kind {
            StreamDeckKind::Mini => 1,
            _ => 0,
        };
        let model = match kind {
            StreamDeckKind::Mini => "stream_deck_mini",
            StreamDeckKind::Xl => "stream_deck_xl",
            _ => "stream_deck",
        };
        StreamDeckDevice { btn_state: [0u8;256], index_offset: offs, model: model.to_owned() }
    }

    /// The name under which the configuration of the device is filed.
    pub fn model(&self) -> (m: String)
        ensures
            m == self.model,
    {
        self.model.clone()
    }

    /// Takes the result of a poll. The keys whose state changed give their
    /// events, in the order of the keys, and the states polled are kept for
    /// the next poll. A poll without data gives nothing. A failed poll gives
    /// the one event `Disconnected` and ends the adapter.
    pub fn on_poll(&mut self, result: PollResult) -> (polled: Polled)
        requires
            result matches PollResult::Buttons(b) ==> b.len() <= 256,
            old(self).index_offset + 256 <= usize::MAX,
        ensures
            final(self).index_offset == old(self).index_offset,
            final(self).model == old(self).model,
            polled.events@ == poll_events(old(self).btn_state@, old(self).index_offset, result),
            polled.stop == (result is Failed),
            final(self).btn_state@ == polled_state(old(self).btn_state@, result),
    {
        let mut events: Vec<DeckEvent> = Vec::new();
        match result {
            PollResult::Buttons(b) => {
                let mut i: usize = 0;
                while i < b.len()
                    invariant
                        i <= b.len() <= 256,
                        self.index_offset == old(self).index_offset,
                        self.index_offset + 256 <= usize::MAX,
                        self.model == old(self).model,
                        events@ == edges(old(self).btn_state@, b@, self.index_offset, i as int),
                        forall|k: int|
                            0 <= k < 256 ==> self.btn_state@[k] == if k < i {
                                b[k]
                            } else {
                                old(self).btn_state@[k]
                            },
                    decreases b.len() - i,
                {
                    if self.btn_state[i] == 0 && b[i] == 1 {
                        events.push(
                            DeckEvent::Device(
                                DeviceEvent::ButtonDown(i + self.index_offset, FULL_PRESSURE),
                            ),
                        );
                    } else if self.btn_state[i] == 1 && b[i] == 0 {
                        events.push(DeckEvent::Device(DeviceEvent::ButtonUp(i + self.index_offset)));
                    }
                    self.btn_state[i] = b[i];
                    i += 1;
                }
                assert(self.btn_state@ =~= polled_state(old(self).btn_state@, result));
                Polled { events, stop: false }
            },
            PollResult::NoData => Polled { events, stop: false },
            PollResult::Failed => {
                events.push(DeckEvent::Disconnected);
                assert(events@ =~= seq![DeckEvent::Disconnected]);
                Polled { events, stop: true }
            },
        }
    }
}

/// A polled key gives presses and releases only: whatever the keys do, the
/// signal that the device went away does not come from them.
pub proof fn lemma_edges_are_key_events(was: Seq<u8>, is: Seq<u8>, offset: usize, n: int)
    ensures
        forall|k: int|
            0 <= k < edges(was, is, offset, n).len() ==> (#[trigger] edges(was, is, offset, n)[k])
                is Device,
    decreases n,
{
    if n > 0 {
        lemma_edges_are_key_events(was, is, offset, n - 1);
    }
}

/// Over a whole run of the adapter the signal that the device went away is
/// sent exactly once if a poll failed, and then it is the last event sent;
/// it is not sent at all if no poll failed.
pub proof fn lemma_one_disconnect_ends_a_run(was: Seq<u8>, offset: usize, polls: Seq<PollResult>)
    ensures
        some_poll_failed(polls) ==> disconnects(run_events(was, offset, polls)) == 1
            && run_events(was, offset, polls).len() > 0 && run_events(was, offset, polls).last()
            is Disconnected,
        !some_poll_failed(polls) ==> disconnects(run_events(was, offset, polls)) == 0,
    decreases polls.len(),
{
    if polls.len() > 0 {
        let first = poll_events(was, offset, polls[0]);
        if polls[0] is Failed {
            lemma_one_disconnect();
        } else {
            let rest = polls.drop_first();
            let later = run_events(polled_state(was, polls[0]), offset, rest);
            lemma_one_disconnect_ends_a_run(polled_state(was, polls[0]), offset, rest);
            match polls[0] {
                PollResult::Buttons(b) => {
                    lemma_edges_are_key_events(was, b@, offset, b.len() as int);
                    lemma_device_events_hold_no_disconnect(first);
                },
                _ => {},
            }
            lemma_disconnects_add(first, later);
            if some_poll_failed(polls) {
                let i = choose|i: int| 0 <= i < polls.len() && (#[trigger] polls[i]) is Failed;
                assert(rest[i - 1] is Failed);
                assert((first + later).last() == later.last());
            } else {
                assert forall|i: int| 0 <= i < rest.len() implies !((#[trigger] rest[i]) is Failed) by {
                    assert(polls[i + 1] == rest[i]);
                }
            }
        }
    }
}

/// A colour in the three parts that the hardware takes.
#[derive(Clone, Copy, Debug, PartialEq, Eq, Structural)]
pub struct Colour {
    pub r: u8,
    pub g: u8,
    pub b: u8,
}

/// The red, green and blue parts of a colour: each the eight bits of its
/// place in `rgb`.
pub fn to_colour(c: &ButtonColor) -> (colour: Colour)
    ensures
        colour.r == (c.rgb >> 16) & 0xff,
        colour.g == (c.rgb >> 8) & 0xff,
        colour.b == c.rgb & 0xff,
{
    let rgb = c.rgb;
    let r: u32 = (rgb & 0xff0000) >> 16;
    let g: u32 = (rgb & 0x00ff00) >> 8;
    let b: u32 = rgb & 0x0000ff;
    assert(r == (rgb >> 16) & 0xff && r < 256) by (bit_vector)
        requires
            r == (rgb & 0xff0000) >> 16,
    ;
    assert(g == (rgb >> 8) & 0xff && g < 256) by (bit_vector)
        requires
            g == (rgb & 0x00ff00) >> 8,
    ;
    assert(b < 256) by (bit_vector)
        requires
            b == rgb & 0x0000ff,
    ;
    Colour { r: r as u8, g: g as u8, b: b as u8 }
}

/// What the hardware is asked to do.
#[derive(Debug)]
pub enum HardwareCommand {
    /// Light the key in the colour.
    SetButtonRgb(u8, Colour),
    /// Show the image file of the given path on the key.
    SetButtonFile(u8, String),
}

/// What a command asks of the hardware. The hardware numbers its keys in
/// eight bits, so a key index counts modulo 256. Anything but a colour or an
/// image asks nothing.
pub fn hardware_command(event: DeviceEvent) -> (c: Option<HardwareCommand>)
    ensures
        c == match event {
            DeviceEvent::SetImage(index, image) => Some(
                HardwareCommand::SetButtonFile((index % 256) as u8, image.path),
            ),
            DeviceEvent::SetColor(index, color) => Some(
                HardwareCommand::SetButtonRgb(
                    (index % 256) as u8,
                    Colour {
                        r: ((color.rgb >> 16) & 0xff) as u8,
                        g: ((color.rgb >> 8) & 0xff) as u8,
                        b: (color.rgb & 0xff) as u8,
                    },
                ),
            ),
            _ => None,
        },
{
    match event {
        DeviceEvent::SetImage(index, image) => Some(
            HardwareCommand::SetButtonFile((index % 256) as u8, image.path),
        ),
        DeviceEvent::SetColor(index, color) => {
            let colour = to_colour(&color);
            Some(HardwareCommand::SetButtonRgb((index % 256) as u8, colour))
        },
        _ => None,
    }
}

} // verus!
