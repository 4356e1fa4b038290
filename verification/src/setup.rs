//! Building a deck definition from its configuration.
//!
//! A configuration names everything: keys, controls, states, setups and
//! functions. Building resolves the names to places in the arenas. A name is
//! resolved to its first bearer; a name that nothing bears resolves to
//! nothing, and what refers to it is left unset or left out.

use vstd::prelude::*;
use indexmap::IndexMap;
use crate::button::Button;
use crate::button::ButtonImage;
use crate::button::ButtonState;
use crate::button::ButtonValue;
use crate::button::ConfigValue;
use crate::color::color_value;
use crate::color::ButtonColor;
use crate::deck::ButtonMapping;
use crate::deck::ButtonSetup;
use crate::deck::DeckDeviceSetup;
use crate::deck::FnRef;
use crate::deck::SetupRef;
use crate::device::PhysicalKey;
use crate::error::DeckError;
use crate::ids::ButtonId;
use crate::ids::DeckId;
use crate::ids::SetupId;
use crate::ids::StateId;
use crate::lookup::find_name;
use crate::lookup::lemma_position_absent;
use crate::lookup::lemma_position_found;
use crate::lookup::lemma_position_holds;
use crate::lookup::distinct;
use crate::lookup::position;
use crate::lookup::texts;
use crate::text::decimal;
use crate::text::decimal_text;
use crate::text::joined_path;

verus! {

/// `indexmap::IndexMap`, the ordered table that the templates hold their
/// named entries in. Nothing inside a table is visible here: what a table
/// holds is said by the entry lists below.
#[verifier::external_type_specification]
#[verifier::external_body]
#[verifier::reject_recursive_types(K)]
#[verifier::reject_recursive_types(V)]
#[verifier::reject_recursive_types(S)]
pub struct ExIndexMap<K, V, S>(indexmap::IndexMap<K, V, S>);

/// The id of a physical key as the wiring of a device template gives it.
#[derive(Debug)]
pub struct PhysicalKeyTemplate {
    pub id: usize,
}

impl PhysicalKeyTemplate {
    /// The key of this id, called `name`.
    pub fn into_key(&self, name: &str) -> (r: Result<PhysicalKey, DeckError>)
        ensures
            r matches Ok(k) && k.id == self.id && k.name@ == name@,
    {
        Ok(PhysicalKey { id: self.id, name: name.to_owned() })
    }
}

/// One line of a setup: the control bound to a key, and the state to put
/// it in.
#[derive(Debug)]
pub struct ReferenceTemplate {
    pub control: String,
    pub state: Option<String>,
}

/// A setup as configured: for each key name the line that binds it. The
/// lines are a table by key name: no key name occurs twice. They are
/// applied in the order of the list; of two lines for one control the later
/// has the last word.
#[derive(Debug)]
pub struct SetupTemplate {
    pub label: Option<String>,
    pub mapping: Vec<(String, ReferenceTemplate)>,
}

/// A state as configured: what it sets over the control's defaults.
#[derive(Debug)]
pub struct StateTemplate {
    pub color: Option<String>,
    pub image: Option<String>,
    pub effect: Option<String>,
    pub value: ConfigValue,
    pub on_up: Option<String>,
    pub on_down: Option<String>,
    pub on_value: Option<String>,
    pub switch_button_state: Option<String>,
    pub switch_deck_setup: Option<String>,
}

impl Default for StateTemplate {
    fn default() -> (t: Self)
        ensures
            t.overrides() == Overrides::unset(),
            t.effect is None,
            t.on_value is None,
    {
        StateTemplate {
            color: None,
            image: None,
            effect: None,
            value: ConfigValue::Null,
            on_up: None,
            on_down: None,
            on_value: None,
            switch_button_state: None,
            switch_deck_setup: None,
        }
    }
}

/// A control as configured: its defaults and its states.
#[derive(Debug)]
pub struct ButtonTemplate {
    pub label: Option<String>,
    pub color: Option<String>,
    pub image: Option<String>,
    pub value: ConfigValue,
    pub on_up: Option<String>,
    pub on_down: Option<String>,
    pub on_value: Option<String>,
    pub switch_button_state: Option<String>,
    pub switch_deck_setup: Option<String>,
    pub states: Option<IndexMap<String, StateTemplate>>,
}

/// The configuration of one device model.
#[derive(Debug)]
pub struct ButtonDeckTemplate {
    pub label: Option<String>,
    pub wiring: IndexMap<String, PhysicalKeyTemplate>,
    pub controls: Option<IndexMap<String, ButtonTemplate>>,
    pub setups: Option<IndexMap<String, SetupTemplate>>,
}

/// A configuration file: templates by device model, a template for any
/// other device, and controls and setups for templates that bring none. The
/// templates are a table by model: no model occurs twice.
#[derive(Debug)]
pub struct DeckJson {
    pub home: Option<String>,
    pub midi_in: Option<String>,
    pub midi_out: Option<String>,
    pub devices: Option<Vec<(String, ButtonDeckTemplate)>>,
    pub controls: Option<IndexMap<String, ButtonTemplate>>,
    pub setups: Option<IndexMap<String, SetupTemplate>>,
    pub deck: Option<ButtonDeckTemplate>,
}

impl Default for DeckJson {
    fn default() -> (d: Self)
        ensures
            d.home is None,
            d.midi_in is None,
            d.midi_out is None,
            d.devices is None,
            d.controls is None,
            d.setups is None,
            d.deck is None,
    {
        DeckJson {
            home: None,
            midi_in: None,
            midi_out: None,
            devices: None,
            controls: None,
            setups: None,
            deck: None,
        }
    }
}

/// The entries of a wiring table: key names and their ids, in the order in
/// which the table lists them.
pub uninterp spec fn wiring_entries(m: IndexMap<String, PhysicalKeyTemplate>) -> Seq<
    (String, PhysicalKeyTemplate),
>;

/// The entries of a table of controls, in the order of the table.
pub uninterp spec fn control_entries(m: IndexMap<String, ButtonTemplate>) -> Seq<
    (String, ButtonTemplate),
>;

/// The entries of a table of setups, in the order of the table.
pub uninterp spec fn setup_entries(m: IndexMap<String, SetupTemplate>) -> Seq<
    (String, SetupTemplate),
>;

/// The entries of a table of states, in the order of the table.
pub uninterp spec fn state_entries(m: IndexMap<String, StateTemplate>) -> Seq<
    (String, StateTemplate),
>;

/// What a list of borrowed entries lists.
pub open spec fn owned<T>(v: Seq<(&String, &T)>) -> Seq<(String, T)> {
    v.map_values(|e: (&String, &T)| (*e.0, *e.1))
}

/// The names of the entries, in their order.
pub open spec fn names_of<T>(entries: Seq<(String, T)>) -> Seq<Seq<char>> {
    entries.map_values(|e: (String, T)| e.0@)
}

/// Lists the entries of a wiring table with `IndexMap::iter`, which walks
/// the map in its order: the list holds each entry once, in that order.
#[verifier::external_body]
pub(crate) fn wiring_list<'a>(m: &'a IndexMap<String, PhysicalKeyTemplate>) -> (v: Vec<
    (&'a String, &'a PhysicalKeyTemplate),
>)
    ensures
        owned(v@) == wiring_entries(*m),
{
    m.iter().collect()
}

/// Lists the entries of a table of controls with `IndexMap::iter`, which
/// walks the map in its order: the list holds each entry once, in that
/// order.
#[verifier::external_body]
pub(crate) fn control_list<'a>(m: &'a IndexMap<String, ButtonTemplate>) -> (v: Vec<
    (&'a String, &'a ButtonTemplate),
>)
    ensures
        owned(v@) == control_entries(*m),
{
    m.iter().collect()
}

/// Lists the entries of a table of setups with `IndexMap::iter`, which
/// walks the map in its order: the list holds each entry once, in that
/// order.
#[verifier::external_body]
pub(crate) fn setup_list<'a>(m: &'a IndexMap<String, SetupTemplate>) -> (v: Vec<
    (&'a String, &'a SetupTemplate),
>)
    ensures
        owned(v@) == setup_entries(*m),
{
    m.iter().collect()
}

/// Lists the entries of a table of states with `IndexMap::iter`, which
/// walks the map in its order: the list holds each entry once, in that
/// order.
#[verifier::external_body]
pub(crate) fn state_list<'a>(m: &'a IndexMap<String, StateTemplate>) -> (v: Vec<
    (&'a String, &'a StateTemplate),
>)
    ensures
        owned(v@) == state_entries(*m),
{
    m.iter().collect()
}

/// Whether no name occurs twice among the entries.
pub fn entries_distinct<T>(entries: &Vec<(String, T)>) -> (ok: bool)
    ensures
        ok == distinct(names_of(entries@)),
{
    let ghost names = names_of(entries@);
    let mut j: usize = 0;
    while j < entries.len()
        invariant
            j <= entries.len(),
            names == names_of(entries@),
            forall|a: int, b: int| 0 <= a < b < j ==> names[a] != names[b],
        decreases entries.len() - j,
    {
        let mut i: usize = 0;
        while i < j
            invariant
                i <= j < entries.len(),
                names == names_of(entries@),
                forall|a: int| 0 <= a < i ==> names[a] != names[j as int],
            decreases j - i,
        {
            if entries[i].0 == entries[j].0 {
                assert(names[i as int] == names[j as int]);
                return false;
            }
            i += 1;
        }
        j += 1;
    }
    true
}

impl SetupTemplate {
    /// The lines are a table: no key name occurs twice.
    pub open spec fn wf(&self) -> bool {
        distinct(names_of(self.mapping@))
    }

    /// Whether the lines are a table.
    pub fn is_wf(&self) -> (ok: bool)
        ensures
            ok == self.wf(),
    {
        entries_distinct(&self.mapping)
    }
}

impl DeckJson {
    /// The templates by model are a table: no model occurs twice.
    pub open spec fn wf(&self) -> bool {
        self.devices matches Some(d) ==> distinct(names_of(d@))
    }

    /// Whether the templates by model are a table.
    pub fn is_wf(&self) -> (ok: bool)
        ensures
            ok == self.wf(),
    {
        match &self.devices {
            Some(d) => entries_distinct(d),
            None => true,
        }
    }
}

/// The first entry called `name`.
pub fn find_entry<T>(entries: &Vec<(&String, &T)>, name: &str) -> (found: Option<usize>)
    ensures
        match found {
            Some(i) => position(names_of(owned(entries@)), name@) == Some(i as int),
            None => position(names_of(owned(entries@)), name@) is None,
        },
        found matches Some(i) ==> i < entries.len(),
{
    let ghost names = names_of(owned(entries@));
    let wanted = name.to_owned();
    let mut i: usize = 0;
    while i < entries.len()
        invariant
            i <= entries.len(),
            wanted@ == name@,
            names == names_of(owned(entries@)),
            forall|j: int| 0 <= j < i ==> names[j] != name@,
        decreases entries.len() - i,
    {
        if *entries[i].0 == wanted {
            proof {
                lemma_position_found(names, name@, i as int);
            }
            return Some(i);
        }
        i += 1;
    }
    proof {
        lemma_position_absent(names, name@);
    }
    None
}

/// What a state or a control sets: the part that the two have in common.
pub struct Overrides {
    pub color: Option<String>,
    pub image: Option<String>,
    pub value: ConfigValue,
    pub on_down: Option<String>,
    pub on_up: Option<String>,
    pub switch_button_state: Option<String>,
    pub switch_deck_setup: Option<String>,
}

impl Overrides {
    /// Nothing is set.
    pub open spec fn unset() -> Overrides {
        Overrides {
            color: None,
            image: None,
            value: ConfigValue::Null,
            on_down: None,
            on_up: None,
            switch_button_state: None,
            switch_deck_setup: None,
        }
    }
}

impl StateTemplate {
    /// What the state sets.
    pub open spec fn overrides(&self) -> Overrides {
        Overrides {
            color: self.color,
            image: self.image,
            value: self.value,
            on_down: self.on_down,
            on_up: self.on_up,
            switch_button_state: self.switch_button_state,
            switch_deck_setup: self.switch_deck_setup,
        }
    }
}

impl ButtonTemplate {
    /// What the control sets for all of its states.
    pub open spec fn overrides(&self) -> Overrides {
        Overrides {
            color: self.color,
            image: self.image,
            value: self.value,
            on_down: self.on_down,
            on_up: self.on_up,
            switch_button_state: self.switch_button_state,
            switch_deck_setup: self.switch_deck_setup,
        }
    }

    /// The states of the control as configured; none where it brings none.
    pub open spec fn state_table(&self) -> Seq<(String, StateTemplate)> {
        match self.states {
            Some(m) => state_entries(m),
            None => Seq::<(String, StateTemplate)>::empty(),
        }
    }
}

/// What names are resolved against while a definition is built.
pub struct Plan {
    pub deck: DeckId,
    pub home: Seq<char>,
    pub functions: Seq<Seq<char>>,
    pub setups: Seq<Seq<char>>,
}

/// The place of `name` in `names`; nothing for no name.
pub open spec fn named_position(names: Seq<Seq<char>>, name: Option<String>) -> Option<int> {
    match name {
        Some(n) => position(names, n@),
        None => None,
    }
}

/// The colour is what the configured text stands for.
pub open spec fn color_built(c: Option<ButtonColor>, text: Option<String>) -> bool {
    c == match text {
        Some(t) => Some(ButtonColor { rgb: color_value(t@) }),
        None => None,
    }
}

/// The image is the configured file inside the home directory.
pub open spec fn image_built(i: Option<ButtonImage>, home: Seq<char>, name: Option<String>) -> bool {
    match name {
        Some(n) => i matches Some(img) && img.path@ == joined_path(home, n@),
        None => i is None,
    }
}

/// The reference leads to the first function called `name`.
pub open spec fn fn_built(f: Option<FnRef>, functions: Seq<Seq<char>>, name: Option<String>) -> bool {
    match named_position(functions, name) {
        Some(i) => f matches Some(r) && r.id == i && r.name@ == functions[i],
        None => f is None,
    }
}

/// The id is that of the first of the button's states called `name`.
pub open spec fn state_ref_built(
    s: Option<StateId>,
    button: ButtonId,
    states: Seq<Seq<char>>,
    name: Option<String>,
) -> bool {
    s == match named_position(states, name) {
        Some(i) => Some(StateId { button, index: i as usize }),
        None => None,
    }
}

/// The id is that of the first setup called `name`.
pub open spec fn setup_ref_built(
    s: Option<SetupId>,
    deck: DeckId,
    setups: Seq<Seq<char>>,
    name: Option<String>,
) -> bool {
    s == match named_position(setups, name) {
        Some(i) => Some(SetupId { deck, index: i as usize }),
        None => None,
    }
}

/// The state `s` is the state `id` called `name` that sets what `o` names,
/// resolved against `plan` and the state names `states` of its button.
pub open spec fn state_built(
    s: ButtonState,
    id: StateId,
    name: Seq<char>,
    o: Overrides,
    states: Seq<Seq<char>>,
    plan: Plan,
) -> bool {
    &&& s.id == id
    &&& s.name@ == name
    &&& color_built(s.color, o.color)
    &&& image_built(s.image, plan.home, o.image)
    &&& s.value.is_of_config(o.value)
    &&& fn_built(s.on_button_down, plan.functions, o.on_down)
    &&& fn_built(s.on_button_up, plan.functions, o.on_up)
    &&& state_ref_built(s.switch_button_state, id.button, states, o.switch_button_state)
    &&& setup_ref_built(s.switch_deck_setup, plan.deck, plan.setups, o.switch_deck_setup)
}

/// The button `b` is the button `id` called `name` that `t` configures, with
/// the states `states`. A control without states gets one state, called
/// `default`, that sets nothing. The first state is current.
pub open spec fn button_built(
    b: Button,
    id: ButtonId,
    name: Seq<char>,
    t: ButtonTemplate,
    states: Seq<(String, StateTemplate)>,
    plan: Plan,
) -> bool {
    let first = StateId { button: id, index: 0 };
    &&& b.id == id
    &&& b.name@ == name
    &&& b.label@ == match t.label {
        Some(l) => l@,
        None => name,
    }
    &&& b.physical is None
    &&& b.default_state == first
    &&& b.current_state == first
    &&& state_built(b.defaults, first, "default"@, t.overrides(), names_of(states), plan)
    &&& if states.len() == 0 {
        &&& b.states@.len() == 1
        &&& state_built(b.states[0], first, "default"@, Overrides::unset(), names_of(states), plan)
    } else {
        &&& b.states@.len() == states.len()
        &&& forall|i: int|
            0 <= i < states.len() ==> state_built(
                #[trigger] b.states[i],
                StateId { button: id, index: i as usize },
                states[i].0@,
                states[i].1.overrides(),
                names_of(states),
                plan,
            )
    }
}

/// The references of a build: the deck, its home directory, the registered
/// functions and the configured setups.
pub struct BuilderData<'a> {
    pub deck: DeckId,
    pub home: &'a str,
    pub functions: &'a Vec<String>,
    pub setups: &'a Vec<(&'a String, &'a SetupTemplate)>,
}

impl<'a> BuilderData<'a> {
    /// What names are resolved against in this build.
    pub open spec fn plan(&self) -> Plan {
        Plan {
            deck: self.deck,
            home: self.home@,
            functions: texts(self.functions@),
            setups: names_of(owned(self.setups@)),
        }
    }

    /// The id of the first setup called `name`.
    pub fn setup_for_opt_name(&self, name: &Option<String>) -> (s: Option<SetupId>)
        ensures
            setup_ref_built(s, self.deck, self.plan().setups, *name),
    {
        match name {
            Some(n) => match find_entry(self.setups, n.as_str()) {
                Some(i) => Some(SetupId { deck: self.deck, index: i }),
                None => None,
            },
            None => None,
        }
    }

    /// The reference to the first function called `name`.
    pub fn get_button_fn_ref(&self, name: &Option<String>) -> (f: Option<FnRef>)
        ensures
            fn_built(f, self.plan().functions, *name),
    {
        match name {
            Some(n) => match find_name(self.functions, n.as_str()) {
                Some(i) => {
                    proof {
                        lemma_position_holds(self.plan().functions, n@);
                    }
                    Some(FnRef { id: i, name: self.functions[i].clone() })
                },
                None => None,
            },
            None => None,
        }
    }
}

/// The id of the first of the button's states called `name`.
pub fn state_for_opt_name(
    states: &Vec<(&String, &StateTemplate)>,
    button: ButtonId,
    name: &Option<String>,
) -> (s: Option<StateId>)
    ensures
        state_ref_built(s, button, names_of(owned(states@)), *name),
{
    match name {
        Some(n) => match find_entry(states, n.as_str()) {
            Some(i) => Some(StateId { button, index: i }),
            None => None,
        },
        None => None,
    }
}

/// Builds one state from what its template sets.
fn build_state(
    data: &BuilderData,
    states: &Vec<(&String, &StateTemplate)>,
    id: StateId,
    name: &str,
    color: &Option<String>,
    image: &Option<String>,
    value: &ConfigValue,
    on_down: &Option<String>,
    on_up: &Option<String>,
    switch_button_state: &Option<String>,
    switch_deck_setup: &Option<String>,
) -> (s: ButtonState)
    ensures
        state_built(
            s,
            id,
            name@,
            Overrides {
                color: *color,
                image: *image,
                value: *value,
                on_down: *on_down,
                on_up: *on_up,
                switch_button_state: *switch_button_state,
                switch_deck_setup: *switch_deck_setup,
            },
            names_of(owned(states@)),
            data.plan(),
        ),
{
    ButtonState {
        id,
        name: name.to_owned(),
        color: ButtonColor::from_option_string(color),
        image: ButtonImage::from_option_string(data.home, image),
        value: ButtonValue::from_config(value.clone()),
        on_button_down: data.get_button_fn_ref(on_down),
        on_button_up: data.get_button_fn_ref(on_up),
        switch_button_state: state_for_opt_name(states, id.button, switch_button_state),
        switch_deck_setup: data.setup_for_opt_name(switch_deck_setup),
    }
}

/// Builds the button `id` called `name` from its template and the list of
/// its configured states.
pub fn build_button_with(
    data: &BuilderData,
    id: ButtonId,
    name: &str,
    bt: &ButtonTemplate,
    states: &Vec<(&String, &StateTemplate)>,
) -> (b: Button)
    ensures
        button_built(b, id, name@, *bt, owned(states@), data.plan()),
        b.wf(),
{
    let first = StateId { button: id, index: 0 };
    let defaults = build_state(
        data,
        states,
        first,
        "default",
        &bt.color,
        &bt.image,
        &bt.value,
        &bt.on_down,
        &bt.on_up,
        &bt.switch_button_state,
        &bt.switch_deck_setup,
    );
    let ghost table = owned(states@);
    let mut built: Vec<ButtonState> = Vec::new();
    if states.len() == 0 {
        let unset = StateTemplate::default();
        let placeholder = build_state(
            data,
            states,
            first,
            "default",
            &unset.color,
            &unset.image,
            &unset.value,
            &unset.on_down,
            &unset.on_up,
            &unset.switch_button_state,
            &unset.switch_deck_setup,
        );
        built.push(placeholder);
    } else {
        let mut i: usize = 0;
        while i < states.len()
            invariant
                i <= states.len(),
                table == owned(states@),
                built@.len() == i,
                forall|k: int|
                    0 <= k < i ==> state_built(
                        #[trigger] built[k],
                        StateId { button: id, index: k as usize },
                        table[k].0@,
                        table[k].1.overrides(),
                        names_of(table),
                        data.plan(),
                    ),
            decreases states.len() - i,
        {
            let (n, t) = states[i];
            let s = build_state(
                data,
                states,
                StateId { button: id, index: i },
                n.as_str(),
                &t.color,
                &t.image,
                &t.value,
                &t.on_down,
                &t.on_up,
                &t.switch_button_state,
                &t.switch_deck_setup,
            );
            built.push(s);
            i += 1;
        }
    }
    let label = match &bt.label {
        Some(l) => l.clone(),
        None => name.to_owned(),
    };
    Button {
        id,
        name: name.to_owned(),
        label,
        physical: None,
        defaults,
        default_state: first,
        current_state: first,
        states: built,
    }
}

/// Builds the button at `index` of the configured controls.
pub fn build_button(
    data: &BuilderData,
    controls: &Vec<(&String, &ButtonTemplate)>,
    index: usize,
) -> (r: Result<Button, DeckError>)
    ensures
        index < controls.len() ==> (r matches Ok(b) && b.wf() && button_built(
            b,
            ButtonId { deck: data.deck, index },
            owned(controls@)[index as int].0@,
            owned(controls@)[index as int].1,
            owned(controls@)[index as int].1.state_table(),
            data.plan(),
        )),
        index >= controls.len() ==> (r matches Err(DeckError::Message(m)) && m@
            == "Internal Error(build_button#1)"@),
{
    if index >= controls.len() {
        return Err(DeckError::Message("Internal Error(build_button#1)".to_owned()));
    }
    let (n, bt) = controls[index];
    let id = ButtonId::new(data.deck, index);
    match &bt.states {
        Some(m) => {
            let states = state_list(m);
            Ok(build_button_with(data, id, n.as_str(), bt, &states))
        },
        None => {
            let states: Vec<(&String, &StateTemplate)> = Vec::new();
            Ok(build_button_with(data, id, n.as_str(), bt, &states))
        },
    }
}

/// `m` is the greatest key id of the wiring.
pub open spec fn is_max_id(w: Seq<(String, PhysicalKeyTemplate)>, m: int) -> bool {
    &&& exists|i: int| 0 <= i < w.len() && #[trigger] w[i].1.id == m
    &&& forall|i: int| 0 <= i < w.len() ==> #[trigger] w[i].1.id <= m
}

/// The entry at `j` has the key id of an entry before it.
pub open spec fn repeats_at(w: Seq<(String, PhysicalKeyTemplate)>, j: int) -> bool {
    exists|i: int| 0 <= i < j && #[trigger] w[i].1.id == w[j].1.id
}

/// The entry at `j` is the first that has the key id of an entry before it.
pub open spec fn first_repeat(w: Seq<(String, PhysicalKeyTemplate)>, j: int) -> bool {
    &&& 0 <= j < w.len()
    &&& repeats_at(w, j)
    &&& forall|k: int| 0 <= k < j ==> !repeats_at(w, k)
}

/// The entry at `i` is the first whose key id is too great for a key table
/// to have a place for.
pub open spec fn first_overflow(w: Seq<(String, PhysicalKeyTemplate)>, i: int) -> bool {
    &&& 0 <= i < w.len()
    &&& w[i].1.id == usize::MAX
    &&& forall|k: int| 0 <= k < i ==> (#[trigger] w[k]).1.id != usize::MAX
}

/// The key table `table` is that of the wiring `w`: it has a place for
/// every key id up to the greatest, or 128 places where no key is wired,
/// and holds each wired key at the place of its id.
pub open spec fn wiring_built(table: Seq<Option<PhysicalKey>>, w: Seq<(String, PhysicalKeyTemplate)>) -> bool {
    &&& if w.len() == 0 {
        table.len() == 128
    } else {
        is_max_id(w, table.len() - 1)
    }
    &&& forall|k: int|
        0 <= k < table.len() ==> match #[trigger] table[k] {
            Some(key) => key.id == k && exists|i: int|
                0 <= i < w.len() && (#[trigger] w[i]).1.id == k && key.name@ == w[i].0@,
            None => forall|i: int| 0 <= i < w.len() ==> (#[trigger] w[i]).1.id != k,
        }
}

/// The wiring has a key of the id `id`.
pub open spec fn wired(w: Seq<(String, PhysicalKeyTemplate)>, id: usize) -> bool {
    exists|i: int| 0 <= i < w.len() && (#[trigger] w[i]).1.id == id
}

/// How a line of a setup resolves: the places of its key in the wiring and
/// of its control in the arena, and the state it names.
pub struct MappingPlan {
    pub key: int,
    pub button: int,
    pub state: Option<StateId>,
}

/// How the line resolves. A line whose key or control is not known resolves
/// to nothing; a state that the control does not have is no state.
pub open spec fn line_plan(
    line: (String, ReferenceTemplate),
    wiring: Seq<(String, PhysicalKeyTemplate)>,
    controls: Seq<Seq<char>>,
    arena: Seq<Button>,
) -> Option<MappingPlan> {
    match (position(controls, line.1.control@), position(names_of(wiring), line.0@)) {
        (Some(b), Some(k)) => Some(
            MappingPlan {
                key: k,
                button: b,
                state: match line.1.state {
                    Some(name) => arena[b].state_id_of(name@),
                    None => None,
                },
            },
        ),
        _ => None,
    }
}

/// How the first `n` lines resolve, in their order, without those that
/// resolve to nothing.
pub open spec fn planned(
    lines: Seq<(String, ReferenceTemplate)>,
    wiring: Seq<(String, PhysicalKeyTemplate)>,
    controls: Seq<Seq<char>>,
    arena: Seq<Button>,
    n: int,
) -> Seq<MappingPlan>
    decreases n,
{
    if n <= 0 {
        Seq::<MappingPlan>::empty()
    } else {
        let before = planned(lines, wiring, controls, arena, n - 1);
        match line_plan(lines[n - 1], wiring, controls, arena) {
            Some(p) => before.push(p),
            None => before,
        }
    }
}

/// The mapping is what the plan `p` says, for the deck `deck`.
pub open spec fn mapping_built(
    m: ButtonMapping,
    p: MappingPlan,
    wiring: Seq<(String, PhysicalKeyTemplate)>,
    deck: DeckId,
) -> bool {
    &&& m.key.id == wiring[p.key].1.id
    &&& m.key.name@ == wiring[p.key].0@
    &&& m.button == (ButtonId { deck, index: p.button as usize })
    &&& m.state == p.state
}

/// The setup `s` is the setup at `index` called `name` that `t` configures.
pub open spec fn setup_built(
    s: ButtonSetup,
    index: int,
    name: Seq<char>,
    t: SetupTemplate,
    wiring: Seq<(String, PhysicalKeyTemplate)>,
    controls: Seq<Seq<char>>,
    arena: Seq<Button>,
    deck: DeckId,
) -> bool {
    let plan = planned(t.mapping@, wiring, controls, arena, t.mapping@.len() as int);
    &&& s.reference.id == index
    &&& s.reference.name@ == name
    &&& s.mapping@.len() == plan.len()
    &&& forall|k: int|
        0 <= k < plan.len() ==> mapping_built(#[trigger] s.mapping[k], plan[k], wiring, deck)
}

/// The definition `d` is what the wiring, the controls and the setups
/// configure: the key table of the wiring, no key under a mapping yet, a
/// button for each control and a setup for each configured setup, in their
/// order, and the first setup current.
pub open spec fn definition_built(
    d: DeckDeviceSetup,
    wiring: Seq<(String, PhysicalKeyTemplate)>,
    controls: Seq<(String, ButtonTemplate)>,
    setups: Seq<(String, SetupTemplate)>,
    plan: Plan,
) -> bool {
    &&& wiring_built(d.wiring@, wiring)
    &&& d.current_key_map@.len() == d.wiring@.len()
    &&& forall|k: int| 0 <= k < d.current_key_map@.len() ==> (#[trigger] d.current_key_map[k]) is None
    &&& d.current_setup == 0
    &&& d.button_arena@.len() == controls.len()
    &&& forall|i: int|
        0 <= i < controls.len() ==> button_built(
            #[trigger] d.button_arena[i],
            ButtonId { deck: plan.deck, index: i as usize },
            controls[i].0@,
            controls[i].1,
            controls[i].1.state_table(),
            plan,
        )
    &&& d.setup_arena@.len() == setups.len()
    &&& forall|i: int|
        0 <= i < setups.len() ==> setup_built(
            #[trigger] d.setup_arena[i],
            i,
            setups[i].0@,
            setups[i].1,
            wiring,
            names_of(controls),
            d.button_arena@,
            plan.deck,
        )
}

/// What building gives for the wiring, the controls and the setups. A key
/// id that no key table has a place for is refused with the name of the
/// first such key. Else a key id that is wired twice is refused, with the
/// first id that comes a second time. Else the definition is built.
pub open spec fn build_outcome(
    r: Result<DeckDeviceSetup, DeckError>,
    wiring: Seq<(String, PhysicalKeyTemplate)>,
    controls: Seq<(String, ButtonTemplate)>,
    setups: Seq<(String, SetupTemplate)>,
    plan: Plan,
) -> bool {
    match r {
        Ok(d) => {
            &&& forall|i: int| 0 <= i < wiring.len() ==> (#[trigger] wiring[i]).1.id != usize::MAX
            &&& forall|j: int| 0 <= j < wiring.len() ==> !repeats_at(wiring, j)
            &&& definition_built(d, wiring, controls, setups, plan)
            &&& d.wf(plan.deck)
        },
        Err(DeckError::InvalidKey(name)) => exists|i: int|
            first_overflow(wiring, i) && name@ == wiring[i].0@,
        Err(DeckError::Message(text)) => {
            &&& forall|i: int| 0 <= i < wiring.len() ==> (#[trigger] wiring[i]).1.id != usize::MAX
            &&& exists|j: int|
                first_repeat(wiring, j) && text@ == "duplicate id: "@ + decimal(
                    wiring[j].1.id as nat,
                )
        },
        Err(_) => false,
    }
}

/// A table of `n` empty places.
fn empty_table<T>(n: usize) -> (table: Vec<Option<T>>)
    ensures
        table@.len() == n,
        forall|k: int| 0 <= k < n ==> (#[trigger] table[k]) is None,
{
    let mut table: Vec<Option<T>> = Vec::new();
    let mut k: usize = 0;
    while k < n
        invariant
            k <= n,
            table@.len() == k,
            forall|j: int| 0 <= j < k ==> (#[trigger] table[j]) is None,
        decreases n - k,
    {
        table.push(None);
        k += 1;
    }
    table
}

/// Builds the key table of a wiring.
pub fn build_wiring(wiring: &Vec<(&String, &PhysicalKeyTemplate)>) -> (r: Result<
    Vec<Option<PhysicalKey>>,
    DeckError,
>)
    ensures
        match r {
            Ok(table) => {
                &&& forall|i: int|
                    0 <= i < wiring.len() ==> (#[trigger] owned(wiring@)[i]).1.id != usize::MAX
                &&& forall|j: int| 0 <= j < wiring.len() ==> !repeats_at(owned(wiring@), j)
                &&& wiring_built(table@, owned(wiring@))
            },
            Err(DeckError::InvalidKey(name)) => exists|i: int|
                first_overflow(owned(wiring@), i) && name@ == owned(wiring@)[i].0@,
            Err(DeckError::Message(text)) => {
                &&& forall|i: int|
                    0 <= i < wiring.len() ==> (#[trigger] owned(wiring@)[i]).1.id != usize::MAX
                &&& exists|j: int|
                    first_repeat(owned(wiring@), j) && text@ == "duplicate id: "@ + decimal(
                        owned(wiring@)[j].1.id as nat,
                    )
            },
            Err(_) => false,
        },
{
    let ghost w = owned(wiring@);
    let mut maxid: usize = 127;
    let mut i: usize = 0;
    while i < wiring.len()
        invariant
            i <= wiring.len(),
            w == owned(wiring@),
            i == 0 ==> maxid == 127,
            i > 0 ==> exists|j: int| 0 <= j < i && #[trigger] w[j].1.id == maxid,
            forall|j: int| 0 <= j < i ==> #[trigger] w[j].1.id <= maxid,
            forall|j: int| 0 <= j < i ==> (#[trigger] w[j]).1.id != usize::MAX,
        decreases wiring.len() - i,
    {
        let (name, pt) = wiring[i];
        if pt.id == usize::MAX {
            assert(first_overflow(w, i as int));
            return Err(DeckError::InvalidKey(name.clone()));
        }
        if i == 0 || pt.id > maxid {
            maxid = pt.id;
        }
        i += 1;
    }
    let mut phys: Vec<Option<PhysicalKey>> = empty_table(maxid + 1);
    let mut i: usize = 0;
    while i < wiring.len()
        invariant
            i <= wiring.len(),
            w == owned(wiring@),
            phys@.len() == maxid + 1,
            forall|j: int| 0 <= j < wiring.len() ==> #[trigger] w[j].1.id <= maxid,
            forall|j: int| 0 <= j < wiring.len() ==> (#[trigger] w[j]).1.id != usize::MAX,
            forall|j: int| 0 <= j < i ==> !repeats_at(w, j),
            forall|k: int|
                0 <= k < phys@.len() ==> match #[trigger] phys[k] {
                    Some(key) => key.id == k && exists|j: int|
                        0 <= j < i && (#[trigger] w[j]).1.id == k && key.name@ == w[j].0@,
                    None => forall|j: int| 0 <= j < i ==> (#[trigger] w[j]).1.id != k,
                },
        decreases wiring.len() - i,
    {
        let (name, pt) = wiring[i];
        assert(w[i as int].1.id == pt.id && w[i as int].0 == *name);
        let p = match pt.into_key(name.as_str()) {
            Ok(p) => p,
            Err(e) => {
                return Err(e);
            },
        };
        if phys[p.id].is_some() {
            let mut text = "duplicate id: ".to_owned();
            let digits = decimal_text(p.id);
            vstd::string::StringExecFns::append(&mut text, digits.as_str());
            proof {
                assert(first_repeat(w, i as int));
            }
            return Err(DeckError::Message(text));
        }
        let id = p.id;
        phys[id] = Some(p);
        i += 1;
    }
    Ok(phys)
}

/// Builds the setup at `index` of the configured setups: its reference and
/// the mappings that its lines resolve to.
pub fn build_setup(
    data: &BuilderData,
    wiring: &Vec<(&String, &PhysicalKeyTemplate)>,
    controls: &Vec<(&String, &ButtonTemplate)>,
    arena: &Vec<Button>,
    index: usize,
) -> (s: ButtonSetup)
    requires
        index < data.setups.len(),
        arena.len() == controls.len(),
    ensures
        setup_built(
            s,
            index as int,
            owned(data.setups@)[index as int].0@,
            owned(data.setups@)[index as int].1,
            owned(wiring@),
            names_of(owned(controls@)),
            arena@,
            data.deck,
        ),
        forall|k: int|
            0 <= k < s.mapping@.len() ==> wired(owned(wiring@), (#[trigger] s.mapping[k]).key.id),
{
    let (name, st) = data.setups[index];
    let ghost w = owned(wiring@);
    let ghost names = names_of(owned(controls@));
    let ghost lines = st.mapping@;
    let mut mapping: Vec<ButtonMapping> = Vec::new();
    let mut n: usize = 0;
    while n < st.mapping.len()
        invariant
            n <= st.mapping.len(),
            lines == st.mapping@,
            w == owned(wiring@),
            names == names_of(owned(controls@)),
            arena.len() == controls.len(),
            mapping@.len() == planned(lines, w, names, arena@, n as int).len(),
            forall|k: int|
                0 <= k < mapping@.len() ==> mapping_built(
                    #[trigger] mapping[k],
                    planned(lines, w, names, arena@, n as int)[k],
                    w,
                    data.deck,
                ),
            forall|k: int| 0 <= k < mapping@.len() ==> wired(w, (#[trigger] mapping[k]).key.id),
        decreases st.mapping.len() - n,
    {
        let line = &st.mapping[n];
        let b = find_entry(controls, line.1.control.as_str());
        let p = find_entry(wiring, line.0.as_str());
        if let Some(bi) = b {
            let state = match &line.1.state {
                Some(sn) => arena[bi].get_state_id(sn.as_str()),
                None => None,
            };
            if let Some(ki) = p {
                let (key_name, pt) = wiring[ki];
                let key = PhysicalKey { id: pt.id, name: key_name.clone() };
                mapping.push(ButtonMapping { key, button: ButtonId::new(data.deck, bi), state });
            }
        }
        n += 1;
    }
    ButtonSetup { reference: SetupRef { id: index, name: name.clone() }, mapping }
}

/// Builds the definition that the listed wiring and controls and the
/// setups of `data` configure.
pub fn build_definition(
    data: &BuilderData,
    wiring: &Vec<(&String, &PhysicalKeyTemplate)>,
    controls: &Vec<(&String, &ButtonTemplate)>,
) -> (r: Result<DeckDeviceSetup, DeckError>)
    ensures
        build_outcome(r, owned(wiring@), owned(controls@), owned(data.setups@), data.plan()),
{
    let ghost w = owned(wiring@);
    let ghost cs = owned(controls@);
    let ghost ss = owned(data.setups@);
    let phys = match build_wiring(wiring) {
        Ok(table) => table,
        Err(e) => {
            return Err(e);
        },
    };
    let mut button_arena: Vec<Button> = Vec::new();
    let mut i: usize = 0;
    while i < controls.len()
        invariant
            i <= controls.len(),
            cs == owned(controls@),
            button_arena@.len() == i,
            forall|j: int|
                0 <= j < i ==> (#[trigger] button_arena[j]).wf() && button_built(
                    button_arena[j],
                    ButtonId { deck: data.deck, index: j as usize },
                    cs[j].0@,
                    cs[j].1,
                    cs[j].1.state_table(),
                    data.plan(),
                ),
        decreases controls.len() - i,
    {
        match build_button(data, controls, i) {
            Ok(b) => {
                button_arena.push(b);
            },
            Err(e) => {
                return Err(e);
            },
        }
        i += 1;
    }
    let mut setup_arena: Vec<ButtonSetup> = Vec::new();
    let mut i: usize = 0;
    while i < data.setups.len()
        invariant
            i <= data.setups.len(),
            w == owned(wiring@),
            cs == owned(controls@),
            ss == owned(data.setups@),
            button_arena@.len() == controls.len(),
            setup_arena@.len() == i,
            forall|j: int|
                0 <= j < i ==> setup_built(
                    #[trigger] setup_arena[j],
                    j,
                    ss[j].0@,
                    ss[j].1,
                    w,
                    names_of(cs),
                    button_arena@,
                    data.deck,
                ),
            forall|j: int, k: int|
                0 <= j < i && 0 <= k < setup_arena[j].mapping@.len() ==> wired(
                    w,
                    (#[trigger] setup_arena[j].mapping[k]).key.id,
                ),
        decreases data.setups.len() - i,
    {
        let s = build_setup(data, wiring, controls, &button_arena, i);
        setup_arena.push(s);
        i += 1;
    }
    let ccm: Vec<Option<ButtonMapping>> = empty_table(phys.len());
    let d = DeckDeviceSetup {
        button_arena,
        current_key_map: ccm,
        wiring: phys,
        setup_arena,
        current_setup: 0,
    };
    Ok(d)
}

/// The controls that a build goes by: those of the device template, or
/// else those of the configuration file, or else none.
pub open spec fn chosen_controls(t: ButtonDeckTemplate, file: DeckJson) -> Seq<
    (String, ButtonTemplate),
> {
    match t.controls {
        Some(m) => control_entries(m),
        None => match file.controls {
            Some(m) => control_entries(m),
            None => Seq::<(String, ButtonTemplate)>::empty(),
        },
    }
}

/// The setups that a build goes by: those of the device template, or else
/// those of the configuration file, or else none.
pub open spec fn chosen_setups(t: ButtonDeckTemplate, file: DeckJson) -> Seq<
    (String, SetupTemplate),
> {
    match t.setups {
        Some(m) => setup_entries(m),
        None => match file.setups {
            Some(m) => setup_entries(m),
            None => Seq::<(String, SetupTemplate)>::empty(),
        },
    }
}

/// Builds the definition of the deck `deck` for a device from the template
/// of its model. Controls and setups that the template does not bring are
/// taken from the configuration file.
pub fn build_buttondeck(
    deck: DeckId,
    home: &str,
    functions: &Vec<String>,
    deckjson: &DeckJson,
    device_template: &ButtonDeckTemplate,
) -> (r: Result<DeckDeviceSetup, DeckError>)
    ensures
        build_outcome(
            r,
            wiring_entries(device_template.wiring),
            chosen_controls(*device_template, *deckjson),
            chosen_setups(*device_template, *deckjson),
            Plan {
                deck,
                home: home@,
                functions: texts(functions@),
                setups: names_of(chosen_setups(*device_template, *deckjson)),
            },
        ),
{
    let wiring = wiring_list(&device_template.wiring);
    let setups = match &device_template.setups {
        Some(m) => setup_list(m),
        None => match &deckjson.setups {
            Some(m) => setup_list(m),
            None => Vec::new(),
        },
    };
    let controls = match &device_template.controls {
        Some(m) => control_list(m),
        None => match &deckjson.controls {
            Some(m) => control_list(m),
            None => Vec::new(),
        },
    };
    assert(owned(controls@) =~= chosen_controls(*device_template, *deckjson));
    let data = BuilderData { deck, home, functions, setups: &setups };
    build_definition(&data, &wiring, &controls)
}

/// The template for the device model `model`: the one filed under the
/// model's name, or else the template for any device.
pub fn select_template(
    devices: Option<Vec<(String, ButtonDeckTemplate)>>,
    deck: Option<ButtonDeckTemplate>,
    model: &str,
) -> (t: Option<ButtonDeckTemplate>)
    ensures
        t == match devices {
            Some(dv) => match position(names_of(dv@), model@) {
                Some(i) => Some(dv[i].1),
                None => deck,
            },
            None => deck,
        },
{
    match devices {
        Some(mut dv) => {
            let ghost all = dv@;
            let wanted = model.to_owned();
            let mut i: usize = 0;
            while i < dv.len()
                invariant
                    i <= dv.len(),
                    dv@ == all,
                    devices matches Some(given) && given@ == all,
                    wanted@ == model@,
                    forall|j: int| 0 <= j < i ==> names_of(all)[j] != model@,
                decreases dv.len() - i,
            {
                if dv[i].0 == wanted {
                    proof {
                        lemma_position_found(names_of(all), model@, i as int);
                    }
                    let found = dv.remove(i);
                    return Some(found.1);
                }
                i += 1;
            }
            proof {
                lemma_position_absent(names_of(all), model@);
            }
            deck
        },
        None => deck,
    }
}

} // verus!
