//! The dispatch of events on a deck.
//!
//! Events are taken one at a time. The deck decides what an event changes
//! and which registered function it calls, but it does not hold the
//! functions themselves: it hands back the place of the function and its
//! argument, and the caller, who owns the functions, runs it. A press that
//! calls a function is finished by `finish_button_down` once the function has
//! returned.

use vstd::prelude::*;
use crate::button::Button;
use crate::button::ButtonImage;
use crate::button::ButtonValue;
use crate::deck::decoration;
use crate::deck::ButtonDeck;
use crate::deck::DeckDeviceSetup;
use crate::deck::FnRef;
use crate::device::DeviceEvent;
use crate::error::DeckError;
use crate::ids::ButtonId;
use crate::ids::DeckId;
use crate::lookup::find_name;
use crate::lookup::position;
use crate::lookup::texts;
use crate::switching::lemma_fresh_table_holds_the_setup;
use crate::switching::names_key;

verus! {

/// The argument that a registered function is called with.
#[derive(Debug)]
pub enum FnArg {
    Empty,
    Bool(bool),
    Int(isize),
    /// A number, held as the bits of its single-precision form.
    Float(u32),
    /// The button that was pressed or released, and its effective value.
    Button(ButtonId, ButtonValue),
}

impl FnArg {
    /// The truth value of the argument: its own where it is one, and false
    /// otherwise.
    pub fn as_bool(&self) -> (b: bool)
        ensures
            b == (*self matches FnArg::Bool(v) && v),
    {
        match self {
            FnArg::Bool(b) => *b,
            _ => false,
        }
    }

    /// The text of the value that a button argument carries; no text for any
    /// other argument.
    pub fn value_to_string(&self) -> (s: String)
        ensures
            s@ == match *self {
                FnArg::Button(_, v) => v.text(),
                _ => Seq::<char>::empty(),
            },
    {
        match self {
            FnArg::Button(_, v) => v.to_string(),
            _ => String::new(),
        }
    }
}

/// What a deck is told.
#[derive(Debug)]
pub enum DeckEvent {
    /// Nothing; wakes the dispatcher up.
    Void,
    /// The device went away.
    Disconnected,
    /// What a device adapter reports.
    Device(DeviceEvent),
    /// Call the function of the given name with the given argument.
    FnCall(String, FnArg),
    /// Put the button of the first name in its state of the second name.
    SetState(String, String),
    /// Set the image of the default state of the button named.
    SetImage(String, Option<ButtonImage>),
    /// Set the value of the default state of the button named.
    SetValue(String, ButtonValue),
}

/// What is left for the caller to do once the deck has taken an event.
#[derive(Debug)]
pub enum Dispatch {
    /// Nothing.
    Done,
    /// Run the registered function at `function` with `arg`. Where `resume`
    /// names a button, the press of that button is then to be finished with
    /// `finish_button_down`.
    Call { function: usize, arg: FnArg, resume: Option<ButtonId> },
    /// A function of this name was asked for and none is registered.
    MissingFunction(String),
}

impl<D> ButtonDeck<D> {
    /// A deck without buttons and setups.
    pub fn new(deckid: DeckId, folder: String, functions: Vec<String>, data: Option<D>) -> (deck:
        Self)
        ensures
            deck.wf(),
            deck.deckid == deckid,
            deck.folder == folder,
            deck.functions == functions,
            deck.data == data,
            deck.outbox@.len() == 0,
            deck.ddsetup.button_arena@.len() == 0,
            deck.ddsetup.setup_arena@.len() == 0,
            deck.ddsetup.current_key_map@.len() == 0,
            deck.ddsetup.wiring@.len() == 0,
            deck.ddsetup.current_setup == 0,
    {
        ButtonDeck {
            deckid,
            folder,
            functions,
            ddsetup: DeckDeviceSetup::default(),
            outbox: Vec::new(),
            data,
        }
    }

    /// Puts a freshly built definition in the place of the deck's own. What
    /// the deck knew of the buttons and setups before is gone.
    pub fn install(&mut self, ddsetup: DeckDeviceSetup)
        requires
            ddsetup.wf(old(self).deckid),
        ensures
            final(self).wf(),
            *final(self) == (ButtonDeck { ddsetup, ..*old(self) }),
    {
        self.ddsetup = ddsetup;
    }

    /// Hands out the commands queued for the device, oldest first, and
    /// empties the queue.
    pub fn take_commands(&mut self) -> (commands: Vec<DeviceEvent>)
        ensures
            commands@ == old(self).outbox@,
            final(self).outbox@.len() == 0,
            *final(self) == (ButtonDeck { outbox: final(self).outbox, ..*old(self) }),
    {
        let mut commands: Vec<DeviceEvent> = Vec::new();
        std::mem::swap(&mut commands, &mut self.outbox);
        commands
    }

    /// The names of the registered functions, in their order.
    pub open spec fn function_names(&self) -> Seq<Seq<char>> {
        texts(self.functions@)
    }

    /// The button that the key at `index` is under.
    pub open spec fn key_button(&self, index: usize) -> Option<ButtonId> {
        if index < self.ddsetup.current_key_map.len() {
            match self.ddsetup.current_key_map[index as int] {
                Some(m) => Some(m.button),
                None => None,
            }
        } else {
            None
        }
    }

    /// What calls the function that `f` refers to for the button `br`: no
    /// call where the reference leads past the end of the registry.
    pub open spec fn call_for(&self, f: FnRef, br: ButtonId, resume: bool) -> Dispatch {
        if f.id < self.functions.len() {
            Dispatch::Call {
                function: f.id,
                arg: FnArg::Button(
                    br,
                    if self.has_button(br) {
                        self.ddsetup.button_arena[br.index as int].effective_value_spec()
                    } else {
                        ButtonValue::Unset
                    },
                ),
                resume: if resume {
                    Some(br)
                } else {
                    None
                },
            }
        } else {
            Dispatch::Done
        }
    }

    /// What calls the first function registered as `name`.
    pub open spec fn call_by_name(&self, name: String, arg: FnArg) -> Dispatch {
        match position(self.function_names(), name@) {
            Some(i) => Dispatch::Call { function: i as usize, arg, resume: None },
            None => Dispatch::MissingFunction(name),
        }
    }

    /// The deck is `before` after the press of the button `br` was finished:
    /// the button went to the state that its effective state names as the
    /// one to follow, was shown anew if that changed its state, and then the
    /// deck switched to the setup that the button's new effective state
    /// names, if it names one.
    pub open spec fn is_pressed(&self, before: &Self, br: ButtonId) -> bool {
        let b = before.ddsetup.button_arena[br.index as int];
        let next = b.effective_switch_button_state_spec();
        let pressed = b.switched(next);
        let arena = before.ddsetup.button_arena@.update(br.index as int, pressed);
        let outbox = before.outbox@ + if b.switch_changes(next) {
            decoration(pressed)
        } else {
            Seq::<DeviceEvent>::empty()
        };
        match pressed.effective_switch_deck_setup_spec() {
            Some(setup) => self.is_switched_from(
                before,
                arena,
                outbox,
                before.switch_target_of(setup),
            ),
            None => self.differs_in_buttons(before) && self.ddsetup.button_arena@ == arena
                && self.outbox@ == outbox,
        }
    }

    /// What is to be done on a press of the key at `index`, before anything
    /// has changed: the call of the press function of the button that the
    /// key is under, if the button has one.
    pub open spec fn press_call(&self, index: usize) -> Option<Dispatch> {
        match self.key_button(index) {
            Some(br) => if self.has_button(br) {
                match self.ddsetup.button_arena[br.index as int].effective_button_down_spec() {
                    Some(f) => match self.call_for(f, br, true) {
                        Dispatch::Done => None,
                        call => Some(call),
                    },
                    None => None,
                }
            } else {
                None
            },
            None => None,
        }
    }

    /// What is to be done on a release of the key at `index`.
    pub open spec fn release_call(&self, index: usize) -> Dispatch {
        match self.key_button(index) {
            Some(br) => if self.has_button(br) {
                match self.ddsetup.button_arena[br.index as int].effective_button_up_spec() {
                    Some(f) => self.call_for(f, br, false),
                    None => Dispatch::Done,
                }
            } else {
                Dispatch::Done
            },
            None => Dispatch::Done,
        }
    }

    /// The deck is `before` after a press of the key at `index` was taken.
    /// A key that no button of the deck is under changes nothing. Where the
    /// press calls a function, nothing has changed yet. Otherwise the press
    /// was finished.
    pub open spec fn is_key_pressed(&self, before: &Self, index: usize) -> bool {
        match before.key_button(index) {
            Some(br) => if before.has_button(br) && before.press_call(index) is None {
                self.is_pressed(before, br)
            } else {
                *self == *before
            },
            None => *self == *before,
        }
    }

    /// The call of the function that `fr` refers to, for the button `br`.
    fn call_fn(&self, fr: &FnRef, br: ButtonId, resume: bool) -> (d: Dispatch)
        requires
            self.wf(),
        ensures
            d == self.call_for(*fr, br, resume),
    {
        let val = match self.button(br) {
            Ok(b) => b.effective_value().clone(),
            Err(_) => ButtonValue::Unset,
        };
        if fr.id < self.functions.len() {
            Dispatch::Call {
                function: fr.id,
                arg: FnArg::Button(br, val),
                resume: if resume {
                    Some(br)
                } else {
                    None
                },
            }
        } else {
            Dispatch::Done
        }
    }

    /// The call of the first function registered as `name`.
    pub fn call_fn_by_name(&self, name: String, arg: FnArg) -> (d: Dispatch)
        ensures
            d == self.call_by_name(name, arg),
    {
        match find_name(&self.functions, name.as_str()) {
            Some(i) => Dispatch::Call { function: i, arg, resume: None },
            None => Dispatch::MissingFunction(name),
        }
    }

    /// Finishes the press of the button `br`: the button goes to the state
    /// that follows on a press, is shown anew if that changed its state, and
    /// the deck switches to the setup that the button's state then names.
    pub fn finish_button_down(&mut self, br: ButtonId) -> (r: Result<(), DeckError>)
        requires
            old(self).wf(),
        ensures
            final(self).wf(),
            old(self).has_button(br) ==> r is Ok && final(self).is_pressed(old(self), br),
            !old(self).has_button(br) ==> r == Err::<(), DeckError>(DeckError::InvalidRef)
                && *final(self) == *old(self),
    {
        let switched = match self.button_mut(br) {
            Ok(b) => b.switch_state_action(),
            Err(e) => {
                return Err(e);
            },
        };
        if switched {
            let _ = self.decorate_button(br);
        }
        let next = match self.button(br) {
            Ok(b) => match b.effective_switch_deck_setup() {
                Some(s) => Some(*s),
                None => None,
            },
            Err(_) => None,
        };
        if let Some(s) = next {
            self.switch_to_id(s);
        }
        Ok(())
    }

    /// Takes a press of the key at `index`.
    pub fn on_button_down(&mut self, index: usize) -> (r: Result<Dispatch, DeckError>)
        requires
            old(self).wf(),
        ensures
            final(self).wf(),
            final(self).is_key_pressed(old(self), index),
            match old(self).key_button(index) {
                Some(br) => if old(self).has_button(br) {
                    r == Ok::<Dispatch, DeckError>(
                        match old(self).press_call(index) {
                            Some(call) => call,
                            None => Dispatch::Done,
                        },
                    )
                } else {
                    r == Err::<Dispatch, DeckError>(DeckError::InvalidRef)
                },
                None => r == Ok::<Dispatch, DeckError>(Dispatch::Done),
            },
            !names_key(
                old(self).ddsetup.mappings_of(old(self).ddsetup.current_setup),
                index as int,
            ) ==> r == Ok::<Dispatch, DeckError>(Dispatch::Done) && *final(self) == *old(self),
    {
        let btn = if index < self.ddsetup.current_key_map.len() {
            match &self.ddsetup.current_key_map[index] {
                Some(m) => Some(m.button),
                None => None,
            }
        } else {
            None
        };
        if let Some(br) = btn {
            let call = match self.button(br) {
                Ok(b) => match b.effective_button_down() {
                    Some(fr) => self.call_fn(fr, br, true),
                    None => Dispatch::Done,
                },
                Err(e) => {
                    return Err(e);
                },
            };
            match call {
                Dispatch::Done => {
                    let _ = self.finish_button_down(br);
                    Ok(Dispatch::Done)
                },
                call => Ok(call),
            }
        } else {
            Ok(Dispatch::Done)
        }
    }

    /// Takes a release of the key at `index`. A release changes nothing; it
    /// only calls the release function of the button that the key is under.
    pub fn on_button_up(&self, index: usize) -> (r: Result<Dispatch, DeckError>)
        requires
            self.wf(),
        ensures
            match self.key_button(index) {
                Some(br) => if self.has_button(br) {
                    r == Ok::<Dispatch, DeckError>(self.release_call(index))
                } else {
                    r == Err::<Dispatch, DeckError>(DeckError::InvalidRef)
                },
                None => r == Ok::<Dispatch, DeckError>(Dispatch::Done),
            },
    {
        let btn = if index < self.ddsetup.current_key_map.len() {
            match &self.ddsetup.current_key_map[index] {
                Some(m) => Some(m.button),
                None => None,
            }
        } else {
            None
        };
        if let Some(br) = btn {
            match self.button(br) {
                Ok(b) => match b.effective_button_up() {
                    Some(fr) => Ok(self.call_fn(fr, br, false)),
                    None => Ok(Dispatch::Done),
                },
                Err(e) => Err(e),
            }
        } else {
            Ok(Dispatch::Done)
        }
    }

    /// What is left to do once the device event `event` was taken: the call
    /// that a press or a release asks for. A press or release that fails on
    /// a key table entry without a button asks for nothing, and so does any
    /// other event.
    pub open spec fn device_dispatch(&self, event: DeviceEvent) -> Dispatch {
        match event {
            DeviceEvent::ButtonDown(index, _) => match self.press_call(index) {
                Some(call) => call,
                None => Dispatch::Done,
            },
            DeviceEvent::ButtonUp(index) => self.release_call(index),
            _ => Dispatch::Done,
        }
    }

    /// The deck is `before` after the device event `event` was taken: only
    /// a press changes anything.
    pub open spec fn is_device_handled(&self, before: &Self, event: DeviceEvent) -> bool {
        match event {
            DeviceEvent::ButtonDown(index, _) => self.is_key_pressed(before, index),
            _ => *self == *before,
        }
    }

    /// Takes what a device adapter reports. Presses and releases are acted
    /// on; anything else is passed over.
    pub fn handle_device_event(&mut self, event: DeviceEvent) -> (d: Dispatch)
        requires
            old(self).wf(),
        ensures
            final(self).wf(),
            final(self).is_device_handled(old(self), event),
            d == old(self).device_dispatch(event),
    {
        match event {
            DeviceEvent::ButtonDown(index, _) => match self.on_button_down(index) {
                Ok(d) => d,
                Err(_) => Dispatch::Done,
            },
            DeviceEvent::ButtonUp(index) => match self.on_button_up(index) {
                Ok(d) => d,
                Err(_) => Dispatch::Done,
            },
            _ => Dispatch::Done,
        }
    }

    /// What taking the event `event` returns.
    pub open spec fn event_result(&self, event: DeckEvent) -> Result<Dispatch, DeckError> {
        match event {
            DeckEvent::Void => Ok(Dispatch::Done),
            DeckEvent::Disconnected => Err(DeckError::Disconnected),
            DeckEvent::Device(e) => Ok(self.device_dispatch(e)),
            DeckEvent::FnCall(name, arg) => Ok(self.call_by_name(name, arg)),
            DeckEvent::SetState(_, _) => Ok(Dispatch::Done),
            DeckEvent::SetImage(name, _) => match self.named_button_result(name@) {
                Ok(_) => Ok(Dispatch::Done),
                Err(e) => Err(e),
            },
            DeckEvent::SetValue(name, _) => match self.named_button_result(name@) {
                Ok(_) => Ok(Dispatch::Done),
                Err(e) => Err(e),
            },
        }
    }

    /// The deck is `before` after the event `event` was taken.
    pub open spec fn is_event_taken(&self, before: &Self, event: DeckEvent) -> bool {
        match event {
            DeckEvent::Void => *self == *before,
            DeckEvent::Disconnected => *self == *before,
            DeckEvent::Device(e) => self.is_device_handled(before, e),
            DeckEvent::FnCall(_, _) => *self == *before,
            DeckEvent::SetState(name, state) => self.is_state_set(before, name@, state@),
            DeckEvent::SetImage(name, image) => self.is_icon_set(before, name@, "default"@, image),
            DeckEvent::SetValue(name, value) => self.is_value_set(before, name@, "default"@, value),
        }
    }

    /// Takes one event. The result says what is left for the caller to do,
    /// or why the event came to nothing: `Disconnected` ends the connection,
    /// any other error concerns this event alone.
    ///
    /// A press of a key that no mapping of the current setup names calls
    /// nothing, changes nothing and is no error. A call of a function that is not registered
    /// is handed back as `MissingFunction` and changes nothing.
    pub fn run_event(&mut self, event: DeckEvent) -> (r: Result<Dispatch, DeckError>)
        requires
            old(self).wf(),
        ensures
            final(self).wf(),
            final(self).is_event_taken(old(self), event),
            r == old(self).event_result(event),
            event matches DeckEvent::Device(DeviceEvent::ButtonDown(key, _)) ==> (!names_key(
                old(self).ddsetup.mappings_of(old(self).ddsetup.current_setup),
                key as int,
            ) ==> r == Ok::<Dispatch, DeckError>(Dispatch::Done) && *final(self) == *old(self)),
            event matches DeckEvent::FnCall(name, _) ==> (position(
                old(self).function_names(),
                name@,
            ) is None ==> r == Ok::<Dispatch, DeckError>(Dispatch::MissingFunction(name))
                && *final(self) == *old(self)),
    {
        match event {
            DeckEvent::Void => Ok(Dispatch::Done),
            DeckEvent::FnCall(name, arg) => Ok(self.call_fn_by_name(name, arg)),
            DeckEvent::SetState(name, state) => {
                let _ = self.set_button_state(name.as_str(), state.as_str());
                Ok(Dispatch::Done)
            },
            DeckEvent::Device(e) => Ok(self.handle_device_event(e)),
            DeckEvent::Disconnected => Err(DeckError::Disconnected),
            DeckEvent::SetImage(name, image) => {
                match self.set_button_icon(name.as_str(), "default", image) {
                    Ok(_) => Ok(Dispatch::Done),
                    Err(e) => Err(e),
                }
            },
            DeckEvent::SetValue(name, value) => {
                match self.set_button_value(name.as_str(), "default", value) {
                    Ok(_) => Ok(Dispatch::Done),
                    Err(e) => Err(e),
                }
            },
        }
    }
}

/// A key that no mapping of the current setup names is under no button: a
/// press of it calls nothing and changes nothing, and a release calls
/// nothing.
pub proof fn lemma_unmapped_key_is_under_no_button<D>(deck: ButtonDeck<D>, key: usize)
    requires
        deck.wf(),
        !names_key(deck.ddsetup.mappings_of(deck.ddsetup.current_setup), key as int),
    ensures
        deck.key_button(key) is None,
        deck.press_call(key) is None,
        deck.release_call(key) == Dispatch::Done,
        forall|after: ButtonDeck<D>| after.is_key_pressed(&deck, key) ==> after == deck,
{
}

/// After every switch the keys that are under a button are exactly the keys
/// that the mappings of the current setup name.
pub proof fn lemma_keys_follow_the_setup<D>(
    before: ButtonDeck<D>,
    deck: ButtonDeck<D>,
    target: usize,
    key: usize,
)
    requires
        before.wf(),
        deck.is_switched(&before, target),
    ensures
        deck.key_button(key) is Some <==> names_key(
            deck.ddsetup.mappings_of(deck.ddsetup.current_setup),
            key as int,
        ),
{
    let ms = before.ddsetup.mappings_of(target);
    let n = before.ddsetup.current_key_map@.len();
    if key < n {
        lemma_fresh_table_holds_the_setup(n, ms, key as int);
    } else if names_key(ms, key as int) {
        let i = choose|i: int| 0 <= i < ms.len() && (#[trigger] ms[i]).key.id == key;
        assert(before.ddsetup.setup_arena[target as int].mapping[i].key.id < n);
    }
}

} // verus!
