//! Buttons and their states, and the rules that resolve what a button
//! currently shows and does.

use vstd::prelude::*;
use vstd::string::StringExecFns;
use crate::color::ButtonColor;
use crate::deck::FnRef;
use crate::device::PhysicalKey;
use crate::ids::ButtonId;
use crate::ids::SetupId;
use crate::ids::StateId;
use crate::lookup::lemma_position_absent;
use crate::lookup::lemma_position_found;
use crate::lookup::position;
use crate::text::join_path;
use crate::text::joined_path;
use crate::text::quote;
use crate::text::quoted;

verus! {

/// Reference to the picture that a button shows: the path of its file.
#[derive(Debug)]
pub struct ButtonImage {
    pub path: String,
}

impl Clone for ButtonImage {
    fn clone(&self) -> (i: Self)
        ensures
            i == *self,
    {
        ButtonImage { path: self.path.clone() }
    }
}

impl ButtonImage {
    /// The image at the path `s`, given whether a file is there: no image
    /// where there is none.
    pub fn from_path(s: &str, exists: bool) -> (image: Option<Self>)
        ensures
            exists ==> image is Some && image->0.path@ == s@,
            !exists ==> image is None,
    {
        if exists {
            Some(ButtonImage { path: s.to_owned() })
        } else {
            None
        }
    }

    /// The image that an optional file name stands for, inside `folder`.
    pub fn from_option_string(folder: &str, s: &Option<String>) -> (image: Option<Self>)
        ensures
            match *s {
                Some(name) => image is Some && image->0.path@ == joined_path(folder@, name@),
                None => image is None,
            },
    {
        match s {
            Some(name) => Some(ButtonImage { path: join_path(folder, name.as_str()) }),
            None => None,
        }
    }
}

/// The value that a button stands for.
#[derive(Debug)]
pub enum ButtonValue {
    Unset,
    Bool(bool),
    OnOff,
    String(String),
    Number,
    Error(String),
}

impl Clone for ButtonValue {
    fn clone(&self) -> (v: Self)
        ensures
            v == *self,
    {
        match self {
            ButtonValue::Unset => ButtonValue::Unset,
            ButtonValue::Bool(b) => ButtonValue::Bool(*b),
            ButtonValue::OnOff => ButtonValue::OnOff,
            ButtonValue::String(s) => ButtonValue::String(s.clone()),
            ButtonValue::Number => ButtonValue::Number,
            ButtonValue::Error(e) => ButtonValue::Error(e.clone()),
        }
    }
}

impl Default for ButtonValue {
    fn default() -> (v: Self)
        ensures
            v == ButtonValue::Unset,
    {
        ButtonValue::Unset
    }
}

/// A value as a configuration gives it, before it is made a button's value.
#[derive(Debug)]
pub enum ConfigValue {
    Null,
    Bool(bool),
    Number,
    String(String),
    Array,
    Object,
}

impl ButtonValue {
    /// The text of the value.
    pub open spec fn text(self) -> Seq<char> {
        match self {
            ButtonValue::Unset => Seq::<char>::empty(),
            ButtonValue::Bool(b) => if b {
                "true"@
            } else {
                "false"@
            },
            ButtonValue::OnOff => "on/off"@,
            ButtonValue::String(s) => s@,
            ButtonValue::Number => "TODO"@,
            ButtonValue::Error(e) => "Error: "@ + quoted(e@),
        }
    }

    /// Renders the value as text.
    pub fn to_string(&self) -> (s: String)
        ensures
            s@ == self.text(),
    {
        match self {
            ButtonValue::Unset => String::new(),
            ButtonValue::Bool(b) => if *b {
                String::from_str("true")
            } else {
                String::from_str("false")
            },
            ButtonValue::OnOff => String::from_str("on/off"),
            ButtonValue::String(s) => s.clone(),
            ButtonValue::Number => String::from_str("TODO"),
            ButtonValue::Error(e) => {
                let mut s = String::from_str("Error: ");
                let q = quote(e.as_str());
                s.append(q.as_str());
                s
            },
        }
    }

    /// The value is what the configured value `c` stands for. Numbers are not
    /// taken up yet and give no value; lists and objects give an error value.
    pub open spec fn is_of_config(self, c: ConfigValue) -> bool {
        match c {
            ConfigValue::Null => self == ButtonValue::Unset,
            ConfigValue::Bool(b) => self == ButtonValue::Bool(b),
            ConfigValue::Number => self == ButtonValue::Unset,
            ConfigValue::String(s) => self == ButtonValue::String(s),
            ConfigValue::Array => self matches ButtonValue::Error(e) && e@
                == "Arrays are not supported in ButtonValue"@,
            ConfigValue::Object => self matches ButtonValue::Error(e) && e@
                == "Objects are not supported in ButtonValue"@,
        }
    }

    /// Makes a button value of a configured value.
    pub fn from_config(v: ConfigValue) -> (value: Self)
        ensures
            value.is_of_config(v),
    {
        match v {
            ConfigValue::Null => ButtonValue::Unset,
            ConfigValue::Bool(b) => ButtonValue::Bool(b),
            ConfigValue::Number => ButtonValue::Unset,
            ConfigValue::String(s) => ButtonValue::String(s),
            ConfigValue::Array => ButtonValue::Error(
                String::from_str("Arrays are not supported in ButtonValue"),
            ),
            ConfigValue::Object => ButtonValue::Error(
                String::from_str("Objects are not supported in ButtonValue"),
            ),
        }
    }
}

impl Clone for ConfigValue {
    fn clone(&self) -> (v: Self)
        ensures
            v == *self,
    {
        match self {
            ConfigValue::Null => ConfigValue::Null,
            ConfigValue::Bool(b) => ConfigValue::Bool(*b),
            ConfigValue::Number => ConfigValue::Number,
            ConfigValue::String(s) => ConfigValue::String(s.clone()),
            ConfigValue::Array => ConfigValue::Array,
            ConfigValue::Object => ConfigValue::Object,
        }
    }
}

impl Default for ConfigValue {
    fn default() -> (v: Self)
        ensures
            v == ConfigValue::Null,
    {
        ConfigValue::Null
    }
}

/// One named variant of a button's look and behaviour. A field that is left
/// unset falls back to the button's defaults.
#[derive(Debug)]
pub struct ButtonState {
    pub id: StateId,
    pub name: String,
    pub color: Option<ButtonColor>,
    pub image: Option<ButtonImage>,
    pub value: ButtonValue,
    pub on_button_down: Option<FnRef>,
    pub on_button_up: Option<FnRef>,
    pub switch_button_state: Option<StateId>,
    pub switch_deck_setup: Option<SetupId>,
}

impl ButtonState {
    /// A state of the given id and name that sets nothing.
    pub fn named(id: StateId, name: &str) -> (state: Self)
        ensures
            state.id == id,
            state.name@ == name@,
            state.color is None,
            state.image is None,
            state.value == ButtonValue::Unset,
            state.on_button_down is None,
            state.on_button_up is None,
            state.switch_button_state is None,
            state.switch_deck_setup is None,
    {
        ButtonState {
            id,
            name: name.to_owned(),
            color: None,
            image: None,
            value: ButtonValue::Unset,
            on_button_down: None,
            on_button_up: None,
            switch_button_state: None,
            switch_deck_setup: None,
        }
    }
}

/// A logical control. It has one or more states, one of which is current,
/// and may be bound to a physical key.
#[derive(Debug)]
pub struct Button {
    pub id: ButtonId,
    pub name: String,
    pub label: String,
    pub physical: Option<PhysicalKey>,
    pub defaults: ButtonState,
    pub default_state: StateId,
    pub current_state: StateId,
    pub states: Vec<ButtonState>,
}

impl Button {
    /// The state `id` is one of this button's states.
    pub open spec fn owns(&self, id: StateId) -> bool {
        id.button == self.id && id.index < self.states.len()
    }

    /// The button is well formed: it has a state, each state carries the id
    /// of its place, and the current and the default state are states of
    /// the button.
    pub open spec fn wf(&self) -> bool {
        &&& self.states.len() > 0
        &&& self.owns(self.current_state)
        &&& self.owns(self.default_state)
        &&& forall|i: int|
            0 <= i < self.states.len() ==> (#[trigger] self.states[i]).id == (StateId {
                button: self.id,
                index: i as usize,
            })
    }

    /// The names of the states, in their order.
    pub open spec fn state_names(&self) -> Seq<Seq<char>> {
        self.states@.map_values(|s: ButtonState| s.name@)
    }

    /// The id of the first state called `name`.
    pub open spec fn state_id_of(&self, name: Seq<char>) -> Option<StateId> {
        match position(self.state_names(), name) {
            Some(i) => Some(self.states[i].id),
            None => None,
        }
    }

    /// The state that is current.
    pub open spec fn current(&self) -> ButtonState {
        self.states[self.current_state.index as int]
    }

    /// The button after a switch to `next`: the state named becomes current
    /// if it is one of the button's states, and nothing happens otherwise.
    pub open spec fn switched(self, next: Option<StateId>) -> Button {
        match next {
            Some(id) => if self.owns(id) {
                Button { current_state: self.states[id.index as int].id, ..self }
            } else {
                self
            },
            None => self,
        }
    }

    /// Whether a switch to `next` makes another state current.
    pub open spec fn switch_changes(self, next: Option<StateId>) -> bool {
        match next {
            Some(id) => self.owns(id) && self.states[id.index as int].id.index
                != self.current_state.index,
            None => false,
        }
    }

    /// The state that a toggle goes to: the second state from the first, and
    /// the first state from any other.
    pub open spec fn toggle_target(self) -> StateId {
        StateId {
            button: self.id,
            index: if self.current_state.index == 0 {
                1
            } else {
                0
            },
        }
    }

    /// The colour of the current state, or else of the defaults.
    pub open spec fn effective_color_spec(&self) -> Option<ButtonColor> {
        match self.current().color {
            Some(c) => Some(c),
            None => self.defaults.color,
        }
    }

    /// The image of the current state, or else of the defaults.
    pub open spec fn effective_image_spec(&self) -> Option<ButtonImage> {
        match self.current().image {
            Some(i) => Some(i),
            None => self.defaults.image,
        }
    }

    /// The value of the current state, or else of the defaults.
    pub open spec fn effective_value_spec(&self) -> ButtonValue {
        match self.current().value {
            ButtonValue::Unset => self.defaults.value,
            v => v,
        }
    }

    /// The function to call on a press: that of the current state, or else
    /// of the defaults.
    pub open spec fn effective_button_down_spec(&self) -> Option<FnRef> {
        match self.current().on_button_down {
            Some(f) => Some(f),
            None => self.defaults.on_button_down,
        }
    }

    /// The function to call on a release: that of the current state, or else
    /// of the defaults.
    pub open spec fn effective_button_up_spec(&self) -> Option<FnRef> {
        match self.current().on_button_up {
            Some(f) => Some(f),
            None => self.defaults.on_button_up,
        }
    }

    /// The state to go to on a press: what the current state says, or else
    /// the defaults.
    pub open spec fn effective_switch_button_state_spec(&self) -> Option<StateId> {
        match self.current().switch_button_state {
            Some(s) => Some(s),
            None => self.defaults.switch_button_state,
        }
    }

    /// The setup to go to on a press: what the current state says, or else
    /// the defaults.
    pub open spec fn effective_switch_deck_setup_spec(&self) -> Option<SetupId> {
        match self.current().switch_deck_setup {
            Some(s) => Some(s),
            None => self.defaults.switch_deck_setup,
        }
    }

    /// The button is `before` with `icon` as the image of the first state
    /// called `state_name`; it is `before` where there is no such state.
    pub open spec fn is_with_image(
        &self,
        before: &Button,
        state_name: Seq<char>,
        icon: Option<ButtonImage>,
    ) -> bool {
        &&& *self == (Button { states: self.states, ..*before })
        &&& match before.state_id_of(state_name) {
            Some(id) => if before.owns(id) {
                self.states@ == before.states@.update(
                    id.index as int,
                    ButtonState { image: icon, ..before.states[id.index as int] },
                )
            } else {
                self.states@ == before.states@
            },
            None => self.states@ == before.states@,
        }
    }

    /// The button is `before` with `value` as the value of the first state
    /// called `state_name`; it is `before` where there is no such state.
    pub open spec fn is_with_value(
        &self,
        before: &Button,
        state_name: Seq<char>,
        value: ButtonValue,
    ) -> bool {
        &&& *self == (Button { states: self.states, ..*before })
        &&& match before.state_id_of(state_name) {
            Some(id) => if before.owns(id) {
                self.states@ == before.states@.update(
                    id.index as int,
                    ButtonState { value: value, ..before.states[id.index as int] },
                )
            } else {
                self.states@ == before.states@
            },
            None => self.states@ == before.states@,
        }
    }

    /// Whether the button is well formed.
    pub fn is_wf(&self) -> (ok: bool)
        ensures
            ok == self.wf(),
    {
        let n = self.states.len();
        if n == 0 {
            return false;
        }
        if !(self.current_state.button == self.id && self.current_state.index < n) {
            return false;
        }
        if !(self.default_state.button == self.id && self.default_state.index < n) {
            return false;
        }
        let mut i: usize = 0;
        while i < n
            invariant
                n == self.states.len(),
                i <= n,
                forall|k: int|
                    0 <= k < i ==> (#[trigger] self.states[k]).id == (StateId {
                        button: self.id,
                        index: k as usize,
                    }),
            decreases n - i,
        {
            if !(self.states[i].id == (StateId { button: self.id, index: i })) {
                return false;
            }
            i += 1;
        }
        true
    }

    /// The key that the button is bound to.
    pub fn assigned_key(&self) -> (key: Option<PhysicalKey>)
        ensures
            key == self.physical,
    {
        match &self.physical {
            Some(k) => Some(k.clone()),
            None => None,
        }
    }

    /// The id of the first state called `name`.
    pub fn get_state_id(&self, name: &str) -> (id: Option<StateId>)
        ensures
            id == self.state_id_of(name@),
    {
        let wanted = name.to_owned();
        let mut i: usize = 0;
        while i < self.states.len()
            invariant
                i <= self.states.len(),
                wanted@ == name@,
                forall|j: int| 0 <= j < i ==> self.state_names()[j] != name@,
            decreases self.states.len() - i,
        {
            if self.states[i].name == wanted {
                proof {
                    lemma_position_found(self.state_names(), name@, i as int);
                }
                return Some(self.states[i].id);
            }
            i += 1;
        }
        proof {
            lemma_position_absent(self.state_names(), name@);
        }
        None
    }

    /// The state `id`, if it is a state of this button.
    pub fn state(&self, id: StateId) -> (state: Option<&ButtonState>)
        ensures
            self.owns(id) ==> state == Some(&self.states[id.index as int]),
            !self.owns(id) ==> state is None,
    {
        if id.button == self.id && id.index < self.states.len() {
            Some(&self.states[id.index])
        } else {
            None
        }
    }

    /// The state `id` for writing, if it is a state of this button. Whatever
    /// is written goes to that one state and to nothing else.
    pub fn state_mut(&mut self, id: StateId) -> (state: Option<&mut ButtonState>)
        ensures
            state is Some <==> old(self).owns(id),
            match state {
                Some(st) => *st == old(self).states[id.index as int] && final(self).states@ == old(
                    self,
                ).states@.update(id.index as int, *final(st)) && *final(self) == (Button {
                    states: final(self).states,
                    ..*old(self)
                }),
                None => *final(self) == *old(self),
            },
    {
        if id.button == self.id && id.index < self.states.len() {
            Some(&mut self.states[id.index])
        } else {
            None
        }
    }

    /// The first state called `name`, for writing.
    pub fn state_by_name_mut(&mut self, name: &str) -> (state: Option<&mut ButtonState>)
        ensures
            state is Some <==> (old(self).state_id_of(name@) matches Some(id) && old(self).owns(
                id,
            )),
            match state {
                Some(st) => {
                    let id = old(self).state_id_of(name@)->0;
                    *st == old(self).states[id.index as int] && final(self).states@ == old(
                        self,
                    ).states@.update(id.index as int, *final(st)) && *final(self) == (Button {
                        states: final(self).states,
                        ..*old(self)
                    })
                },
                None => *final(self) == *old(self),
            },
    {
        match self.get_state_id(name) {
            Some(id) => self.state_mut(id),
            None => None,
        }
    }

    /// The state that is current.
    pub fn current_state(&self) -> (state: &ButtonState)
        requires
            self.wf(),
        ensures
            *state == self.current(),
    {
        &self.states[self.current_state.index]
    }

    /// Switches between the first two states: from the first state to the
    /// second, from any other to the first. Returns whether another state
    /// became current; a button of one state stays as it is.
    pub fn toggle_state(&mut self) -> (changed: bool)
        ensures
            *final(self) == old(self).switched(Some(old(self).toggle_target())),
            changed == old(self).switch_changes(Some(old(self).toggle_target())),
            old(self).wf() ==> final(self).wf(),
    {
        let next = if self.current_state.index == 0 {
            StateId { button: self.id, index: 1 }
        } else {
            StateId { button: self.id, index: 0 }
        };
        self.switch_state_internal(Some(next))
    }

    /// Makes the state `next_state` current, if it is a state of this button.
    /// Returns whether another state became current.
    pub fn switch_state2(&mut self, next_state: StateId) -> (changed: bool)
        ensures
            *final(self) == old(self).switched(Some(next_state)),
            changed == old(self).switch_changes(Some(next_state)),
            old(self).wf() ==> final(self).wf(),
    {
        self.switch_state_internal(Some(next_state))
    }

    /// Makes the first state called `next_state` current. Returns whether
    /// another state became current; an unknown name changes nothing.
    pub fn switch_state_by_name(&mut self, next_state: &str) -> (changed: bool)
        ensures
            *final(self) == old(self).switched(old(self).state_id_of(next_state@)),
            changed == old(self).switch_changes(old(self).state_id_of(next_state@)),
            old(self).wf() ==> final(self).wf(),
    {
        let next = self.get_state_id(next_state);
        self.switch_state_internal(next)
    }

    fn switch_state_internal(&mut self, next_state: Option<StateId>) -> (changed: bool)
        ensures
            *final(self) == old(self).switched(next_state),
            changed == old(self).switch_changes(next_state),
            old(self).wf() ==> final(self).wf(),
    {
        let nextid = match next_state {
            Some(id) => match self.state(id) {
                Some(s) => Some(s.id),
                None => None,
            },
            None => None,
        };
        match nextid {
            Some(id) => {
                let last = self.current_state;
                self.current_state = id;
                id.index != last.index
            },
            None => false,
        }
    }

    /// Sets the image of the first state called `state_name`. A button
    /// without such a state stays as it is; that is no error.
    pub fn set_state_image(&mut self, state_name: &str, icon: Option<ButtonImage>) -> (r: Result<
        (),
        crate::error::DeckError,
    >)
        ensures
            r is Ok,
            final(self).is_with_image(old(self), state_name@, icon),
            old(self).wf() ==> final(self).wf(),
    {
        match self.state_by_name_mut(state_name) {
            Some(s) => {
                s.image = icon;
            },
            None => {},
        }
        Ok(())
    }

    /// Sets the value of the first state called `state_name`. A button
    /// without such a state stays as it is; that is no error.
    pub fn set_state_value(&mut self, state_name: &str, value: ButtonValue) -> (r: Result<
        (),
        crate::error::DeckError,
    >)
        ensures
            r is Ok,
            final(self).is_with_value(old(self), state_name@, value),
            old(self).wf() ==> final(self).wf(),
    {
        match self.state_by_name_mut(state_name) {
            Some(s) => {
                s.value = value;
            },
            None => {},
        }
        Ok(())
    }

    /// Goes to the state that the current state, or else the defaults, name
    /// as the one to follow on a press. Returns whether another state became
    /// current.
    pub fn switch_state_action(&mut self) -> (changed: bool)
        requires
            old(self).wf(),
        ensures
            *final(self) == old(self).switched(old(self).effective_switch_button_state_spec()),
            changed == old(self).switch_changes(old(self).effective_switch_button_state_spec()),
            final(self).wf(),
    {
        let b = match self.effective_switch_button_state() {
            Some(s) => Some(*s),
            None => None,
        };
        self.switch_state_internal(b)
    }

    /// The value of the current state, or else of the defaults.
    pub fn effective_value(&self) -> (value: &ButtonValue)
        requires
            self.wf(),
        ensures
            *value == self.effective_value_spec(),
    {
        match &self.current_state().value {
            ButtonValue::Unset => &self.defaults.value,
            v => v,
        }
    }

    /// The image of the current state, or else of the defaults.
    pub fn effective_image(&self) -> (image: Option<&ButtonImage>)
        requires
            self.wf(),
        ensures
            image is Some <==> self.effective_image_spec() is Some,
            image matches Some(i) ==> *i == self.effective_image_spec()->0,
    {
        match &self.current_state().image {
            Some(c) => Some(c),
            None => match &self.defaults.image {
                Some(c) => Some(c),
                None => None,
            },
        }
    }

    /// The colour of the current state, or else of the defaults.
    pub fn effective_color(&self) -> (color: Option<&ButtonColor>)
        requires
            self.wf(),
        ensures
            color is Some <==> self.effective_color_spec() is Some,
            color matches Some(c) ==> *c == self.effective_color_spec()->0,
    {
        match &self.current_state().color {
            Some(c) => Some(c),
            None => match &self.defaults.color {
                Some(c) => Some(c),
                None => None,
            },
        }
    }

    /// The function to call on a press: that of the current state, or else
    /// of the defaults.
    pub fn effective_button_down(&self) -> (f: Option<&FnRef>)
        requires
            self.wf(),
        ensures
            f is Some <==> self.effective_button_down_spec() is Some,
            f matches Some(r) ==> *r == self.effective_button_down_spec()->0,
    {
        match &self.current_state().on_button_down {
            Some(c) => Some(c),
            None => match &self.defaults.on_button_down {
                Some(c) => Some(c),
                None => None,
            },
        }
    }

    /// The function to call on a release: that of the current state, or else
    /// of the defaults.
    pub fn effective_button_up(&self) -> (f: Option<&FnRef>)
        requires
            self.wf(),
        ensures
            f is Some <==> self.effective_button_up_spec() is Some,
            f matches Some(r) ==> *r == self.effective_button_up_spec()->0,
    {
        match &self.current_state().on_button_up {
            Some(c) => Some(c),
            None => match &self.defaults.on_button_up {
                Some(c) => Some(c),
                None => None,
            },
        }
    }

    /// The state to go to on a press: what the current state says, or else
    /// the defaults.
    pub fn effective_switch_button_state(&self) -> (next: Option<&StateId>)
        requires
            self.wf(),
        ensures
            next is Some <==> self.effective_switch_button_state_spec() is Some,
            next matches Some(s) ==> *s == self.effective_switch_button_state_spec()->0,
    {
        match &self.current_state().switch_button_state {
            Some(c) => Some(c),
            None => match &self.defaults.switch_button_state {
                Some(c) => Some(c),
                None => None,
            },
        }
    }

    /// The setup to go to on a press: what the current state says, or else
    /// the defaults.
    pub fn effective_switch_deck_setup(&self) -> (next: Option<&SetupId>)
        requires
            self.wf(),
        ensures
            next is Some <==> self.effective_switch_deck_setup_spec() is Some,
            next matches Some(s) ==> *s == self.effective_switch_deck_setup_spec()->0,
    {
        match &self.current_state().switch_deck_setup {
            Some(c) => Some(c),
            None => match &self.defaults.switch_deck_setup {
                Some(c) => Some(c),
                None => None,
            },
        }
    }
}

/// One of the operations that move a button between its states.
pub enum StateSwitch {
    /// `toggle_state`
    Toggle,
    /// `switch_state2` to the given state
    To(StateId),
    /// `switch_state_by_name` to the state of the given name
    ByName(Seq<char>),
    /// `switch_state_action`
    Action,
}

impl Button {
    /// The button after one operation.
    pub open spec fn after(self, op: StateSwitch) -> Button {
        match op {
            StateSwitch::Toggle => self.switched(Some(self.toggle_target())),
            StateSwitch::To(id) => self.switched(Some(id)),
            StateSwitch::ByName(name) => self.switched(self.state_id_of(name)),
            StateSwitch::Action => self.switched(self.effective_switch_button_state_spec()),
        }
    }

    /// The button after a run of operations, the first of them first.
    pub open spec fn after_all(self, ops: Seq<StateSwitch>) -> Button
        decreases ops.len(),
    {
        if ops.len() == 0 {
            self
        } else {
            self.after(ops[0]).after_all(ops.skip(1))
        }
    }
}

/// The current state of a well-formed button is one of its states after any
/// run of toggles and switches: its index never leaves the state list.
pub proof fn lemma_current_state_stays_valid(b: Button, ops: Seq<StateSwitch>)
    requires
        b.wf(),
    ensures
        b.after_all(ops).wf(),
        b.after_all(ops).current_state.index < b.after_all(ops).states.len(),
        b.after_all(ops).states == b.states,
    decreases ops.len(),
{
    if ops.len() > 0 {
        lemma_current_state_stays_valid(b.after(ops[0]), ops.skip(1));
    }
}

/// What a button shows is what its current state sets, and what the current
/// state leaves unset is taken from the defaults; what neither sets is
/// absent.
pub proof fn lemma_effective_falls_back(b: Button)
    ensures
        b.current().color is Some ==> b.effective_color_spec() == b.current().color,
        b.current().color is None ==> b.effective_color_spec() == b.defaults.color,
        b.current().image is Some ==> b.effective_image_spec() == b.current().image,
        b.current().image is None ==> b.effective_image_spec() == b.defaults.image,
        b.current().value != ButtonValue::Unset ==> b.effective_value_spec() == b.current().value,
        b.current().value == ButtonValue::Unset ==> b.effective_value_spec() == b.defaults.value,
        b.current().color is None && b.defaults.color is None ==> b.effective_color_spec() is None,
        b.current().image is None && b.defaults.image is None ==> b.effective_image_spec() is None,
        b.current().value == ButtonValue::Unset && b.defaults.value == ButtonValue::Unset
            ==> b.effective_value_spec() == ButtonValue::Unset,
{
}

} // verus!
