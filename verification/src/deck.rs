//! The deck definition and the operations on it: lookup in the arenas, the
//! states of the buttons, and the switching of setups.
//!
//! A deck never talks to a device. What the device is to show is queued in
//! the deck's `outbox`, oldest command first, for the caller to carry out.

use vstd::prelude::*;
use crate::button::Button;
use crate::button::ButtonImage;
use crate::button::ButtonValue;
use crate::device::DeviceEvent;
use crate::device::PhysicalKey;
use crate::error::DeckError;
use crate::ids::ButtonId;
use crate::ids::DeckId;
use crate::ids::SetupId;
use crate::ids::StateId;
use crate::lookup::lemma_position_absent;
use crate::lookup::lemma_position_found;
use crate::lookup::position;
use crate::switching::all_unbound;
use crate::switching::arena_after;
use crate::switching::emitted;
use crate::switching::keys_after;
use crate::switching::lemma_last_forcing_by_states;
use crate::switching::lemma_last_in_range;
use crate::switching::lemma_switch_twice;
use crate::switching::names_key;
use crate::switching::no_keys;
use crate::switching::rebound;
use crate::switching::rekeyed;
use crate::switching::unbound;

verus! {

/// Reference to a registered function: its place in the registry and the
/// name it was registered under.
#[derive(Debug)]
pub struct FnRef {
    pub id: usize,
    pub name: String,
}

impl Clone for FnRef {
    fn clone(&self) -> (r: Self)
        ensures
            r == *self,
    {
        FnRef { id: self.id, name: self.name.clone() }
    }
}

/// Reference to a setup: its place in the setup arena and its name.
#[derive(Debug)]
pub struct SetupRef {
    pub id: usize,
    pub name: String,
}

impl Clone for SetupRef {
    fn clone(&self) -> (r: Self)
        ensures
            r == *self,
    {
        SetupRef { id: self.id, name: self.name.clone() }
    }
}

impl Default for SetupRef {
    fn default() -> (r: Self)
        ensures
            r.id == 0,
            r.name@ == "default"@,
    {
        SetupRef { id: 0, name: "default".to_owned() }
    }
}

/// One line of a setup's wiring table: the key, the button bound to it, and
/// the state that the button is put in when the setup becomes current.
#[derive(Debug)]
pub struct ButtonMapping {
    pub key: PhysicalKey,
    pub button: ButtonId,
    pub state: Option<StateId>,
}

impl Clone for ButtonMapping {
    fn clone(&self) -> (m: Self)
        ensures
            m == *self,
    {
        ButtonMapping { key: self.key.clone(), button: self.button, state: self.state }
    }
}

/// A named wiring table. Its lines are applied in their order.
#[derive(Debug)]
pub struct ButtonSetup {
    pub reference: SetupRef,
    pub mapping: Vec<ButtonMapping>,
}

impl Clone for ButtonSetup {
    fn clone(&self) -> (s: Self)
        ensures
            s.reference == self.reference,
            s.mapping@ == self.mapping@,
    {
        let mut mapping: Vec<ButtonMapping> = Vec::new();
        let mut i: usize = 0;
        while i < self.mapping.len()
            invariant
                i <= self.mapping.len(),
                mapping@ == self.mapping@.take(i as int),
            decreases self.mapping.len() - i,
        {
            mapping.push(self.mapping[i].clone());
            i += 1;
        }
        ButtonSetup { reference: self.reference.clone(), mapping }
    }
}

impl Default for ButtonSetup {
    fn default() -> (s: Self)
        ensures
            s.reference.id == 0,
            s.reference.name@ == "default"@,
            s.mapping@.len() == 0,
    {
        ButtonSetup { reference: SetupRef::default(), mapping: Vec::new() }
    }
}

/// The part of a deck that is built for one connected device: the arenas of
/// buttons and setups, the wiring of the device's keys, which setup is
/// current, and which mapping each key is under.
#[derive(Debug)]
pub struct DeckDeviceSetup {
    /// Every button of the deck; a `ButtonId` is an index into it.
    pub button_arena: Vec<Button>,
    /// For each key index the mapping that the key is under, if any.
    pub current_key_map: Vec<Option<ButtonMapping>>,
    /// The keys of the device by key index.
    pub wiring: Vec<Option<PhysicalKey>>,
    /// Every setup of the deck; a `SetupId` is an index into it.
    pub setup_arena: Vec<ButtonSetup>,
    /// The index of the setup that is current.
    pub current_setup: usize,
}

impl Default for DeckDeviceSetup {
    fn default() -> (d: Self)
        ensures
            d.button_arena@.len() == 0,
            d.current_key_map@.len() == 0,
            d.wiring@.len() == 0,
            d.setup_arena@.len() == 0,
            d.current_setup == 0,
    {
        DeckDeviceSetup {
            button_arena: Vec::new(),
            current_key_map: Vec::new(),
            wiring: Vec::new(),
            setup_arena: Vec::new(),
            current_setup: 0,
        }
    }
}

/// The commands that show the button `b` on its key: its effective colour,
/// then its effective image, each if there is one. A button without a key
/// shows nothing.
pub open spec fn decoration(b: Button) -> Seq<DeviceEvent> {
    match b.physical {
        Some(pk) => {
            let color = match b.effective_color_spec() {
                Some(c) => seq![DeviceEvent::SetColor(pk.id, c)],
                None => Seq::<DeviceEvent>::empty(),
            };
            let image = match b.effective_image_spec() {
                Some(i) => seq![DeviceEvent::SetImage(pk.id, i)],
                None => Seq::<DeviceEvent>::empty(),
            };
            color + image
        },
        None => Seq::<DeviceEvent>::empty(),
    }
}

/// The queue `after` is the queue `before`, followed by the commands that
/// show `b` if `shown`.
pub open spec fn queued_after(
    after: Seq<DeviceEvent>,
    before: Seq<DeviceEvent>,
    b: Button,
    shown: bool,
) -> bool {
    after == before + if shown {
        decoration(b)
    } else {
        Seq::<DeviceEvent>::empty()
    }
}

/// Whether one of the mappings names the key `key`.
pub fn mappings_name_key(ms: &Vec<ButtonMapping>, key: usize) -> (named: bool)
    ensures
        named == names_key(ms@, key as int),
{
    let mut i: usize = 0;
    while i < ms.len()
        invariant
            i <= ms.len(),
            forall|j: int| 0 <= j < i ==> (#[trigger] ms[j]).key.id != key,
        decreases ms.len() - i,
    {
        if ms[i].key.id == key {
            return true;
        }
        i += 1;
    }
    false
}

impl DeckDeviceSetup {
    /// The definition is well formed for the deck `deck`: every button is
    /// well formed and carries the id of its place, every setup carries the
    /// index of its place, every mapping of every setup names a key that the
    /// key table has a place for, and a key is under a mapping only if a
    /// mapping of the current setup names it.
    pub open spec fn wf(&self, deck: DeckId) -> bool {
        &&& forall|k: int|
            0 <= k < self.current_key_map.len() && (#[trigger] self.current_key_map[k]) is Some
                ==> names_key(self.mappings_of(self.current_setup), k)
        &&& forall|j: int|
            0 <= j < self.button_arena.len() ==> (#[trigger] self.button_arena[j]).wf()
                && self.button_arena[j].id == (ButtonId { deck, index: j as usize })
        &&& forall|s: int|
            0 <= s < self.setup_arena.len() ==> (#[trigger] self.setup_arena[s]).reference.id == s
        &&& forall|s: int, i: int|
            0 <= s < self.setup_arena.len() && 0 <= i < self.setup_arena[s].mapping.len() ==> (
            #[trigger] self.setup_arena[s].mapping[i]).key.id < self.current_key_map.len()
    }

    /// Whether the definition is well formed for the deck `deck`.
    pub fn is_wf(&self, deck: DeckId) -> (ok: bool)
        ensures
            ok == self.wf(deck),
    {
        let mut j: usize = 0;
        while j < self.button_arena.len()
            invariant
                j <= self.button_arena.len(),
                forall|k: int|
                    0 <= k < j ==> (#[trigger] self.button_arena[k]).wf() && self.button_arena[k].id
                        == (ButtonId { deck, index: k as usize }),
            decreases self.button_arena.len() - j,
        {
            let b = &self.button_arena[j];
            if !b.is_wf() || !(b.id == (ButtonId { deck, index: j })) {
                return false;
            }
            j += 1;
        }
        let mut s: usize = 0;
        while s < self.setup_arena.len()
            invariant
                s <= self.setup_arena.len(),
                forall|k: int|
                    0 <= k < s ==> (#[trigger] self.setup_arena[k]).reference.id == k,
                forall|k: int, i: int|
                    0 <= k < s && 0 <= i < self.setup_arena[k].mapping.len() ==> (
                    #[trigger] self.setup_arena[k].mapping[i]).key.id < self.current_key_map.len(),
            decreases self.setup_arena.len() - s,
        {
            let setup = &self.setup_arena[s];
            if setup.reference.id != s {
                return false;
            }
            let mut i: usize = 0;
            while i < setup.mapping.len()
                invariant
                    i <= setup.mapping.len(),
                    s < self.setup_arena.len(),
                    *setup == self.setup_arena[s as int],
                    forall|x: int|
                        0 <= x < i ==> (#[trigger] setup.mapping[x]).key.id
                            < self.current_key_map.len(),
                decreases setup.mapping.len() - i,
            {
                if setup.mapping[i].key.id >= self.current_key_map.len() {
                    return false;
                }
                i += 1;
            }
            s += 1;
        }
        let mut k: usize = 0;
        while k < self.current_key_map.len()
            invariant
                k <= self.current_key_map.len(),
                forall|x: int|
                    0 <= x < k && (#[trigger] self.current_key_map[x]) is Some ==> names_key(
                        self.mappings_of(self.current_setup),
                        x,
                    ),
            decreases self.current_key_map.len() - k,
        {
            if self.current_key_map[k].is_some() {
                if self.current_setup >= self.setup_arena.len() {
                    return false;
                }
                if !mappings_name_key(&self.setup_arena[self.current_setup].mapping, k) {
                    return false;
                }
            }
            k += 1;
        }
        true
    }

    /// The names of the buttons, in arena order.
    pub open spec fn button_names(&self) -> Seq<Seq<char>> {
        self.button_arena@.map_values(|b: Button| b.name@)
    }

    /// The names of the setups, in arena order.
    pub open spec fn setup_names(&self) -> Seq<Seq<char>> {
        self.setup_arena@.map_values(|s: ButtonSetup| s.reference.name@)
    }

    /// The mappings of the setup at `index`; none where there is no such
    /// setup.
    pub open spec fn mappings_of(&self, index: usize) -> Seq<ButtonMapping> {
        if index < self.setup_arena.len() {
            self.setup_arena[index as int].mapping@
        } else {
            Seq::<ButtonMapping>::empty()
        }
    }
}

/// One running deck: the definition built for the connected device, the
/// names of the registered functions, and the queue of commands for the
/// device. `D` is the caller's own payload.
pub struct ButtonDeck<D> {
    pub deckid: DeckId,
    /// The directory that holds the configuration and the images.
    pub folder: String,
    /// The names of the registered functions; an `FnRef` indexes this list.
    pub functions: Vec<String>,
    pub ddsetup: DeckDeviceSetup,
    /// Commands for the device that have not been handed out yet.
    pub outbox: Vec<DeviceEvent>,
    pub data: Option<D>,
}

impl<D> ButtonDeck<D> {
    /// The deck is well formed: its definition is well formed for its id.
    pub open spec fn wf(&self) -> bool {
        self.ddsetup.wf(self.deckid)
    }

    /// `id` names a button of this deck.
    pub open spec fn has_button(&self, id: ButtonId) -> bool {
        id.deck == self.deckid && id.index < self.ddsetup.button_arena.len()
    }

    /// The deck is `before` but for its buttons and its queue of commands.
    pub open spec fn differs_in_buttons(&self, before: &Self) -> bool {
        *self == (ButtonDeck {
            ddsetup: DeckDeviceSetup { button_arena: self.ddsetup.button_arena, ..before.ddsetup },
            outbox: self.outbox,
            ..*before
        })
    }

    /// The deck is `before` but for its buttons, its key table, which setup
    /// is current, and its queue of commands.
    pub open spec fn differs_in_switching(&self, before: &Self) -> bool {
        *self == (ButtonDeck {
            ddsetup: DeckDeviceSetup {
                button_arena: self.ddsetup.button_arena,
                current_key_map: self.ddsetup.current_key_map,
                current_setup: self.ddsetup.current_setup,
                ..before.ddsetup
            },
            outbox: self.outbox,
            ..*before
        })
    }

    /// The deck is `before` after the mappings `ms` were applied to it, in
    /// their order.
    pub open spec fn is_applied(&self, before: &Self, ms: Seq<ButtonMapping>) -> bool {
        &&& self.differs_in_switching(before)
        &&& self.ddsetup.button_arena@ == arena_after(before.ddsetup.button_arena@, ms)
        &&& self.ddsetup.current_key_map@ == keys_after(before.ddsetup.current_key_map@, ms)
        &&& self.outbox@ == before.outbox@ + emitted(
            before.ddsetup.button_arena@,
            before.deckid,
            ms,
            ms.len() as int,
        )
    }

    /// The setup that is current after a switch to the setup at `index`: that
    /// setup if there is one, and else the setup that was current.
    pub open spec fn switch_target(&self, index: usize) -> usize {
        if index < self.ddsetup.setup_arena.len() {
            index
        } else {
            self.ddsetup.current_setup
        }
    }

    /// The setup that is current after a switch to the setup `id`: that
    /// setup if it is one of this deck, and else the setup that was current.
    pub open spec fn switch_target_of(&self, id: SetupId) -> usize {
        if id.deck == self.deckid {
            self.switch_target(id.index)
        } else {
            self.ddsetup.current_setup
        }
    }

    /// The deck is `before` after a switch that made the setup at `target`
    /// current, begun with the buttons `arena` and the queue `outbox`: every
    /// button was unbound and every key freed, and then the mappings of that
    /// setup were applied.
    pub open spec fn is_switched_from(
        &self,
        before: &Self,
        arena: Seq<Button>,
        outbox: Seq<DeviceEvent>,
        target: usize,
    ) -> bool {
        let ms = before.ddsetup.mappings_of(target);
        &&& self.differs_in_switching(before)
        &&& self.ddsetup.current_setup == target
        &&& self.ddsetup.button_arena@ == arena_after(all_unbound(arena), ms)
        &&& self.ddsetup.current_key_map@ == keys_after(
            no_keys(before.ddsetup.current_key_map@.len()),
            ms,
        )
        &&& self.outbox@ == outbox + emitted(
            all_unbound(arena),
            before.deckid,
            ms,
            ms.len() as int,
        )
    }

    /// The deck is `before` after a switch that made the setup at `target`
    /// current.
    pub open spec fn is_switched(&self, before: &Self, target: usize) -> bool {
        self.is_switched_from(before, before.ddsetup.button_arena@, before.outbox@, target)
    }

    /// The deck is `before` with `b` in the place of the button `id`, and
    /// with the commands that show `b` queued if `shown`.
    pub open spec fn is_with_button(&self, before: &Self, id: ButtonId, b: Button, shown: bool) -> bool {
        &&& self.differs_in_buttons(before)
        &&& self.ddsetup.button_arena@ == before.ddsetup.button_arena@.update(id.index as int, b)
        &&& queued_after(self.outbox@, before.outbox@, b, shown)
    }

    /// What an operation on the button called `name` returns: an error where
    /// no button is called so.
    pub open spec fn named_button_result(&self, name: Seq<char>) -> Result<(), DeckError> {
        match position(self.ddsetup.button_names(), name) {
            Some(_) => Ok(()),
            None => Err(DeckError::InvalidRef),
        }
    }

    /// The deck is `before` with the first button called `name` put in its
    /// first state called `state`, and shown anew if that changed its state.
    /// It is `before` where no button is called `name`.
    pub open spec fn is_state_set(&self, before: &Self, name: Seq<char>, state: Seq<char>) -> bool {
        match position(before.ddsetup.button_names(), name) {
            Some(i) => {
                let b = before.ddsetup.button_arena[i];
                let next = b.state_id_of(state);
                self.is_with_button(
                    before,
                    ButtonId { deck: before.deckid, index: i as usize },
                    b.switched(next),
                    b.switch_changes(next),
                )
            },
            None => *self == *before,
        }
    }

    /// The deck is `before` with `icon` as the image of the state called
    /// `state_name` of the first button called `button`, and with that
    /// button shown anew. It is `before` where no button is called `button`.
    pub open spec fn is_icon_set(
        &self,
        before: &Self,
        button: Seq<char>,
        state_name: Seq<char>,
        icon: Option<ButtonImage>,
    ) -> bool {
        match position(before.ddsetup.button_names(), button) {
            Some(i) => {
                &&& self.ddsetup.button_arena[i].is_with_image(
                    &before.ddsetup.button_arena[i],
                    state_name,
                    icon,
                )
                &&& self.is_with_button(
                    before,
                    ButtonId { deck: before.deckid, index: i as usize },
                    self.ddsetup.button_arena[i],
                    true,
                )
            },
            None => *self == *before,
        }
    }

    /// The deck is `before` with `value` as the value of the state called
    /// `state_name` of the first button called `button`; nothing is shown
    /// anew. It is `before` where no button is called `button`.
    pub open spec fn is_value_set(
        &self,
        before: &Self,
        button: Seq<char>,
        state_name: Seq<char>,
        value: ButtonValue,
    ) -> bool {
        match position(before.ddsetup.button_names(), button) {
            Some(i) => {
                &&& self.ddsetup.button_arena[i].is_with_value(
                    &before.ddsetup.button_arena[i],
                    state_name,
                    value,
                )
                &&& self.is_with_button(
                    before,
                    ButtonId { deck: before.deckid, index: i as usize },
                    self.ddsetup.button_arena[i],
                    false,
                )
            },
            None => *self == *before,
        }
    }

    /// Whether the deck is well formed. Every operation on a deck keeps it
    /// so; a caller that writes to the fields of a deck can ask.
    pub fn is_wf(&self) -> (ok: bool)
        ensures
            ok == self.wf(),
    {
        self.ddsetup.is_wf(self.deckid)
    }

    /// The button `id`, if it is a button of this deck.
    pub fn button(&self, id: ButtonId) -> (r: Result<&Button, DeckError>)
        ensures
            self.has_button(id) ==> r == Ok::<&Button, DeckError>(
                &self.ddsetup.button_arena[id.index as int],
            ),
            !self.has_button(id) ==> r == Err::<&Button, DeckError>(DeckError::InvalidRef),
            self.wf() ==> (r matches Ok(b) ==> b.wf() && b.current_state.index < b.states.len()),
    {
        if id.deck == self.deckid && id.index < self.ddsetup.button_arena.len() {
            Ok(&self.ddsetup.button_arena[id.index])
        } else {
            Err(DeckError::InvalidRef)
        }
    }

    /// The button `id` for writing, if it is a button of this deck. Whatever
    /// is written goes to that one button and to nothing else.
    pub fn button_mut(&mut self, id: ButtonId) -> (r: Result<&mut Button, DeckError>)
        ensures
            r is Ok <==> old(self).has_button(id),
            match r {
                Ok(b) => {
                    &&& *b == old(self).ddsetup.button_arena[id.index as int]
                    &&& final(self).ddsetup.button_arena@ == old(self).ddsetup.button_arena@.update(
                        id.index as int,
                        *final(b),
                    )
                    &&& final(self).differs_in_buttons(old(self))
                    &&& final(self).outbox == old(self).outbox
                },
                Err(e) => e == DeckError::InvalidRef && *final(self) == *old(self),
            },
    {
        if id.deck == self.deckid && id.index < self.ddsetup.button_arena.len() {
            Ok(&mut self.ddsetup.button_arena[id.index])
        } else {
            Err(DeckError::InvalidRef)
        }
    }

    /// The id of the first button called `bname`.
    pub fn button_id_from_name(&self, bname: &str) -> (r: Result<ButtonId, DeckError>)
        ensures
            match position(self.ddsetup.button_names(), bname@) {
                Some(i) => r == Ok::<ButtonId, DeckError>(
                    ButtonId { deck: self.deckid, index: i as usize },
                ),
                None => r == Err::<ButtonId, DeckError>(DeckError::InvalidRef),
            },
            r matches Ok(id) ==> self.has_button(id),
    {
        let wanted = bname.to_owned();
        let mut i: usize = 0;
        while i < self.ddsetup.button_arena.len()
            invariant
                i <= self.ddsetup.button_arena.len(),
                wanted@ == bname@,
                forall|j: int| 0 <= j < i ==> self.ddsetup.button_names()[j] != bname@,
            decreases self.ddsetup.button_arena.len() - i,
        {
            if self.ddsetup.button_arena[i].name == wanted {
                proof {
                    lemma_position_found(self.ddsetup.button_names(), bname@, i as int);
                }
                return Ok(ButtonId::new(self.deckid, i));
            }
            i += 1;
        }
        proof {
            lemma_position_absent(self.ddsetup.button_names(), bname@);
        }
        Err(DeckError::InvalidRef)
    }

    /// Queues the commands that show the button `btn` on its key.
    pub fn decorate_button(&mut self, btn: ButtonId) -> (r: Result<(), DeckError>)
        requires
            old(self).wf(),
        ensures
            old(self).has_button(btn) ==> r is Ok && final(self).outbox@ == old(self).outbox@
                + decoration(old(self).ddsetup.button_arena[btn.index as int]),
            !old(self).has_button(btn) ==> r == Err::<(), DeckError>(DeckError::InvalidRef)
                && final(self).outbox@ == old(self).outbox@,
            *final(self) == (ButtonDeck { outbox: final(self).outbox, ..*old(self) }),
    {
        if !(btn.deck == self.deckid && btn.index < self.ddsetup.button_arena.len()) {
            return Err(DeckError::InvalidRef);
        }
        let button = &self.ddsetup.button_arena[btn.index];
        let key = button.assigned_key();
        if let Some(pk) = key {
            if let Some(c) = button.effective_color() {
                self.outbox.push(DeviceEvent::SetColor(pk.id, *c));
            }
            if let Some(i) = button.effective_image() {
                self.outbox.push(DeviceEvent::SetImage(pk.id, i.clone()));
            }
        }
        Ok(())
    }

    /// Toggles the button `rb` between its first two states and shows it
    /// anew if that changed its state.
    pub fn toggle_button_state(&mut self, rb: ButtonId) -> (r: Result<(), DeckError>)
        requires
            old(self).wf(),
        ensures
            final(self).wf(),
            !old(self).has_button(rb) ==> r == Err::<(), DeckError>(DeckError::InvalidRef)
                && *final(self) == *old(self),
            old(self).has_button(rb) ==> r is Ok && ({
                let b = old(self).ddsetup.button_arena[rb.index as int];
                let next = Some(b.toggle_target());
                final(self).is_with_button(old(self), rb, b.switched(next), b.switch_changes(next))
            }),
    {
        let changed = match self.button_mut(rb) {
            Ok(b) => b.toggle_state(),
            Err(e) => {
                return Err(e);
            },
        };
        if changed {
            let _ = self.decorate_button(rb);
        }
        Ok(())
    }

    /// Puts the first button called `name` in its first state called
    /// `state`, and shows it anew if that changed its state. A button
    /// without such a state stays as it is.
    pub fn set_button_state(&mut self, name: &str, state: &str) -> (r: Result<(), DeckError>)
        requires
            old(self).wf(),
        ensures
            final(self).wf(),
            final(self).is_state_set(old(self), name@, state@),
            r == old(self).named_button_result(name@),
    {
        let bid = match self.button_id_from_name(name) {
            Ok(id) => id,
            Err(e) => {
                return Err(e);
            },
        };
        let changed = match self.button_mut(bid) {
            Ok(b) => b.switch_state_by_name(state),
            Err(_) => false,
        };
        if changed {
            let _ = self.decorate_button(bid);
        }
        Ok(())
    }

    /// Puts the button `button` in the state `state`, and shows it anew if
    /// that changed its state. An id that names no button of this deck
    /// changes nothing.
    pub fn set_button_state_with_id(&mut self, button: ButtonId, state: StateId)
        requires
            old(self).wf(),
        ensures
            final(self).wf(),
            !old(self).has_button(button) ==> *final(self) == *old(self),
            old(self).has_button(button) ==> ({
                let b = old(self).ddsetup.button_arena[button.index as int];
                final(self).is_with_button(
                    old(self),
                    button,
                    b.switched(Some(state)),
                    b.switch_changes(Some(state)),
                )
            }),
    {
        let changed = match self.button_mut(button) {
            Ok(b) => b.switch_state2(state),
            Err(_) => {
                return ;
            },
        };
        if changed {
            let _ = self.decorate_button(button);
        }
    }

    /// Sets the image of the state called `state_name` of the first button
    /// called `button`, and shows the button anew.
    pub fn set_button_icon(&mut self, button: &str, state_name: &str, icon: Option<ButtonImage>) -> (r:
        Result<(), DeckError>)
        requires
            old(self).wf(),
        ensures
            final(self).wf(),
            final(self).is_icon_set(old(self), button@, state_name@, icon),
            r == old(self).named_button_result(button@),
    {
        let bid = match self.button_id_from_name(button) {
            Ok(id) => id,
            Err(e) => {
                return Err(e);
            },
        };
        match self.button_mut(bid) {
            Ok(b) => {
                let _ = b.set_state_image(state_name, icon);
            },
            Err(_) => {},
        }
        let _ = self.decorate_button(bid);
        Ok(())
    }

    /// Sets the value of the state called `state_name` of the first button
    /// called `button`. Nothing is shown anew.
    pub fn set_button_value(&mut self, button: &str, state_name: &str, value: ButtonValue) -> (r:
        Result<(), DeckError>)
        requires
            old(self).wf(),
        ensures
            final(self).wf(),
            final(self).is_value_set(old(self), button@, state_name@, value),
            r == old(self).named_button_result(button@),
    {
        let bid = match self.button_id_from_name(button) {
            Ok(id) => id,
            Err(e) => {
                return Err(e);
            },
        };
        match self.button_mut(bid) {
            Ok(b) => {
                let _ = b.set_state_value(state_name, value);
            },
            Err(_) => {},
        }
        Ok(())
    }

    /// Applies one mapping: registers it under its key, binds its button to
    /// the key, puts the button in the state that the mapping names, and
    /// queues the commands that show the button.
    fn init_button(&mut self, mapping: &ButtonMapping) -> (r: Result<(), DeckError>)
        requires
            old(self).wf(),
            mapping.key.id < old(self).ddsetup.current_key_map.len(),
            names_key(
                old(self).ddsetup.mappings_of(old(self).ddsetup.current_setup),
                mapping.key.id as int,
            ),
        ensures
            final(self).wf(),
            final(self).differs_in_switching(old(self)),
            final(self).ddsetup.current_setup == old(self).ddsetup.current_setup,
            final(self).ddsetup.current_key_map@ == old(self).ddsetup.current_key_map@.update(
                mapping.key.id as int,
                Some(*mapping),
            ),
            old(self).has_button(mapping.button) ==> r is Ok && ({
                let b = old(self).ddsetup.button_arena[mapping.button.index as int];
                let bound = (Button { physical: Some(mapping.key), ..b }).switched(mapping.state);
                &&& final(self).ddsetup.button_arena@ == old(self).ddsetup.button_arena@.update(
                    mapping.button.index as int,
                    bound,
                )
                &&& final(self).outbox@ == old(self).outbox@ + decoration(bound)
            }),
            !old(self).has_button(mapping.button) ==> r == Err::<(), DeckError>(
                DeckError::InvalidRef,
            ) && final(self).ddsetup.button_arena == old(self).ddsetup.button_arena && final(
                self).outbox == old(self).outbox,
    {
        self.ddsetup.current_key_map[mapping.key.id] = Some(mapping.clone());
        match self.button_mut(mapping.button) {
            Ok(bb) => {
                bb.physical = Some(mapping.key.clone());
                if let Some(bs) = mapping.state {
                    bb.switch_state2(bs);
                }
            },
            Err(e) => {
                return Err(e);
            },
        }
        self.decorate_button(mapping.button)
    }

    /// Applies the mappings of the current setup, in their order. A mapping
    /// that names no button of this deck is registered under its key and
    /// binds nothing.
    pub fn init_setup(&mut self)
        requires
            old(self).wf(),
        ensures
            final(self).wf(),
            final(self).ddsetup.current_setup == old(self).ddsetup.current_setup,
            final(self).is_applied(
                old(self),
                old(self).ddsetup.mappings_of(old(self).ddsetup.current_setup),
            ),
    {
        let current = self.ddsetup.current_setup;
        let ghost start = *self;
        let ghost ms = self.ddsetup.mappings_of(current);
        if current >= self.ddsetup.setup_arena.len() {
            assert(self.ddsetup.button_arena@ =~= arena_after(start.ddsetup.button_arena@, ms));
            assert(self.ddsetup.current_key_map@ =~= keys_after(
                start.ddsetup.current_key_map@,
                ms,
            ));
            return ;
        }
        let n = self.ddsetup.setup_arena[current].mapping.len();
        let mut i: usize = 0;
        while i < n
            invariant
                start.wf(),
                self.wf(),
                current < start.ddsetup.setup_arena.len(),
                current == start.ddsetup.current_setup,
                ms == start.ddsetup.setup_arena[current as int].mapping@,
                n == ms.len(),
                i <= n,
                self.differs_in_switching(&start),
                self.ddsetup.current_setup == start.ddsetup.current_setup,
                self.ddsetup.button_arena.len() == start.ddsetup.button_arena.len(),
                self.ddsetup.current_key_map.len() == start.ddsetup.current_key_map.len(),
                forall|j: int|
                    0 <= j < self.ddsetup.button_arena.len() ==> #[trigger] self.ddsetup.button_arena[j]
                        == rebound(start.ddsetup.button_arena[j], ms, i as int),
                forall|k: int|
                    0 <= k < self.ddsetup.current_key_map.len()
                        ==> #[trigger] self.ddsetup.current_key_map[k] == rekeyed(
                        start.ddsetup.current_key_map[k],
                        ms,
                        k,
                        i as int,
                    ),
                self.outbox@ == start.outbox@ + emitted(
                    start.ddsetup.button_arena@,
                    start.deckid,
                    ms,
                    i as int,
                ),
            decreases n - i,
        {
            let m = self.ddsetup.setup_arena[current].mapping[i].clone();
            let ghost before = *self;
            assert(ms[i as int].key.id == m.key.id);
            assert(self.ddsetup.mappings_of(self.ddsetup.current_setup) == ms);
            assert(names_key(ms, m.key.id as int));
            let _ = self.init_button(&m);
            proof {
                assert forall|j: int| 0 <= j < self.ddsetup.button_arena.len() implies #[trigger] self.ddsetup.button_arena[j]
                    == rebound(start.ddsetup.button_arena[j], ms, i + 1) by {
                    let b = start.ddsetup.button_arena[j];
                    lemma_last_forcing_by_states(ms, b, before.ddsetup.button_arena[j], i as int);
                    lemma_last_in_range(ms, b, 0, i as int);
                }
            }
            i += 1;
        }
        assert(self.ddsetup.button_arena@ =~= arena_after(start.ddsetup.button_arena@, ms));
        assert(self.ddsetup.current_key_map@ =~= keys_after(start.ddsetup.current_key_map@, ms));
    }

    /// Unbinds every button, frees every key and applies the mappings of
    /// the setup at `index`; where there is no such setup, those of the
    /// current one.
    fn switch_to_index(&mut self, index: usize)
        requires
            old(self).wf(),
        ensures
            final(self).wf(),
            final(self).is_switched(old(self), old(self).switch_target(index)),
    {
        let n = self.ddsetup.button_arena.len();
        let mut j: usize = 0;
        while j < n
            invariant
                old(self).wf(),
                self.wf(),
                n == self.ddsetup.button_arena.len(),
                n == old(self).ddsetup.button_arena.len(),
                j <= n,
                self.differs_in_buttons(old(self)),
                self.outbox == old(self).outbox,
                forall|k: int|
                    0 <= k < j ==> #[trigger] self.ddsetup.button_arena[k] == unbound(
                        old(self).ddsetup.button_arena[k],
                    ),
                forall|k: int|
                    j <= k < n ==> #[trigger] self.ddsetup.button_arena[k] == old(
                        self,
                    ).ddsetup.button_arena[k],
            decreases n - j,
        {
            self.ddsetup.button_arena[j].physical = None;
            j += 1;
        }
        assert(self.ddsetup.button_arena@ =~= all_unbound(old(self).ddsetup.button_arena@));
        let keys = self.ddsetup.current_key_map.len();
        let mut k: usize = 0;
        while k < keys
            invariant
                old(self).wf(),
                self.wf(),
                keys == self.ddsetup.current_key_map.len(),
                keys == old(self).ddsetup.current_key_map.len(),
                k <= keys,
                self.differs_in_switching(old(self)),
                self.ddsetup.current_setup == old(self).ddsetup.current_setup,
                self.ddsetup.button_arena@ == all_unbound(old(self).ddsetup.button_arena@),
                self.outbox == old(self).outbox,
                forall|x: int| 0 <= x < k ==> (#[trigger] self.ddsetup.current_key_map[x]) is None,
            decreases keys - k,
        {
            self.ddsetup.current_key_map[k] = None;
            k += 1;
        }
        assert(self.ddsetup.current_key_map@ =~= no_keys(keys as nat));
        if index < self.ddsetup.setup_arena.len() {
            self.ddsetup.current_setup = index;
        }
        self.init_setup();
    }

    /// Makes the setup that `setup` refers to current: unbinds every button
    /// and applies the mappings of that setup. A reference that leads
    /// nowhere keeps the current setup, which is applied anew.
    pub fn switch_to_ref(&mut self, setup: &SetupRef)
        requires
            old(self).wf(),
        ensures
            final(self).wf(),
            final(self).is_switched(old(self), old(self).switch_target(setup.id)),
    {
        self.switch_to_index(setup.id)
    }

    /// Makes the setup `setup` current: unbinds every button and applies the
    /// mappings of that setup. An id that names no setup of this deck keeps
    /// the current setup, which is applied anew.
    pub fn switch_to_id(&mut self, setup: SetupId)
        requires
            old(self).wf(),
        ensures
            final(self).wf(),
            final(self).is_switched(old(self), old(self).switch_target_of(setup)),
    {
        if setup.deck == self.deckid {
            self.switch_to_index(setup.index)
        } else {
            let current = self.ddsetup.current_setup;
            self.switch_to_index(current)
        }
    }

    /// Makes the first setup called `setup_name` current. A name that no
    /// setup has changes nothing.
    pub fn switch_to(&mut self, setup_name: &str)
        requires
            old(self).wf(),
        ensures
            final(self).wf(),
            match position(old(self).ddsetup.setup_names(), setup_name@) {
                Some(i) => final(self).is_switched(old(self), i as usize),
                None => *final(self) == *old(self),
            },
    {
        let wanted = setup_name.to_owned();
        let mut i: usize = 0;
        while i < self.ddsetup.setup_arena.len()
            invariant
                *self == *old(self),
                self.wf(),
                i <= self.ddsetup.setup_arena.len(),
                wanted@ == setup_name@,
                forall|j: int| 0 <= j < i ==> self.ddsetup.setup_names()[j] != setup_name@,
            decreases self.ddsetup.setup_arena.len() - i,
        {
            if self.ddsetup.setup_arena[i].reference.name == wanted {
                proof {
                    lemma_position_found(self.ddsetup.setup_names(), setup_name@, i as int);
                }
                let id = self.ddsetup.setup_arena[i].reference.id;
                self.switch_to_index(id);
                return ;
            }
            i += 1;
        }
        proof {
            lemma_position_absent(self.ddsetup.setup_names(), setup_name@);
        }
    }

    /// Makes the first setup of the arena current. A deck without setups
    /// stays as it is.
    pub fn switch_to_default(&mut self)
        requires
            old(self).wf(),
        ensures
            final(self).wf(),
            old(self).ddsetup.setup_arena.len() > 0 ==> final(self).is_switched(old(self), 0),
            old(self).ddsetup.setup_arena.len() == 0 ==> *final(self) == *old(self),
    {
        if self.ddsetup.setup_arena.len() > 0 {
            let id = self.ddsetup.setup_arena[0].reference.id;
            self.switch_to_index(id);
        }
    }
}

/// Switching to a setup and then at once to the same setup again leaves
/// every button, with the key it is bound to, and the key table as the first
/// switch left them, and the same setup current.
pub proof fn lemma_switch_is_idempotent<D>(
    before: ButtonDeck<D>,
    once: ButtonDeck<D>,
    twice: ButtonDeck<D>,
    target: usize,
)
    requires
        once.is_switched(&before, target),
        twice.is_switched(&once, target),
    ensures
        twice.ddsetup.current_setup == once.ddsetup.current_setup,
        twice.ddsetup.current_key_map@ == once.ddsetup.current_key_map@,
        twice.ddsetup.button_arena@ == once.ddsetup.button_arena@,
        forall|j: int|
            0 <= j < once.ddsetup.button_arena.len() ==> twice.ddsetup.button_arena[j].physical
                == once.ddsetup.button_arena[j].physical,
{
    let ms = before.ddsetup.mappings_of(target);
    lemma_switch_twice(
        before.ddsetup.button_arena@,
        before.ddsetup.current_key_map@.len(),
        ms,
    );
}

/// The setup that ends up current when a switch to a setup is asked for a
/// second time is the one that the first switch made current.
pub proof fn lemma_switch_target_is_kept<D>(
    before: ButtonDeck<D>,
    once: ButtonDeck<D>,
    index: usize,
    setup: SetupId,
)
    ensures
        once.is_switched(&before, before.switch_target(index)) ==> once.switch_target(index)
            == before.switch_target(index),
        once.is_switched(&before, before.switch_target_of(setup)) ==> once.switch_target_of(setup)
            == before.switch_target_of(setup),
{
}

} // verus!
