use buttondeck::setup::build_button;
use buttondeck::setup::build_buttondeck;
use buttondeck::setup::build_definition;
use buttondeck::setup::build_setup;
use buttondeck::setup::build_wiring;
use buttondeck::setup::entries_distinct;
use buttondeck::setup::find_entry;
use buttondeck::setup::select_template;
use buttondeck::setup::state_for_opt_name;
use buttondeck::setup::BuilderData;
use buttondeck::setup::ButtonDeckTemplate;
use buttondeck::setup::ButtonTemplate;
use buttondeck::setup::DeckJson;
use buttondeck::setup::PhysicalKeyTemplate;
use buttondeck::setup::ReferenceTemplate;
use buttondeck::setup::SetupTemplate;
use buttondeck::setup::StateTemplate;
use buttondeck::ButtonId;
use buttondeck::ButtonValue;
use buttondeck::ConfigValue;
use buttondeck::DeckError;
use buttondeck::DeckId;
use buttondeck::DeckIdRegistry;
use indexmap::IndexMap;

fn deck_id() -> DeckId {
    DeckIdRegistry::new().issue().unwrap()
}

fn text(s: &str) -> Option<String> {
    Some(String::from(s))
}

fn control() -> ButtonTemplate {
    ButtonTemplate {
        label: None,
        color: None,
        image: None,
        value: ConfigValue::Null,
        on_up: None,
        on_down: None,
        on_value: None,
        switch_button_state: None,
        switch_deck_setup: None,
        states: None,
    }
}

fn wiring(keys: &[(&str, usize)]) -> IndexMap<String, PhysicalKeyTemplate> {
    let mut w = IndexMap::new();
    for (name, id) in keys {
        w.insert(String::from(*name), PhysicalKeyTemplate { id: *id });
    }
    w
}

fn template(keys: &[(&str, usize)]) -> ButtonDeckTemplate {
    ButtonDeckTemplate { label: None, wiring: wiring(keys), controls: None, setups: None }
}

fn line(key: &str, control: &str, state: Option<&str>) -> (String, ReferenceTemplate) {
    (
        String::from(key),
        ReferenceTemplate { control: String::from(control), state: state.map(String::from) },
    )
}

#[test]
fn a_key_template_becomes_a_key() {
    let key = PhysicalKeyTemplate { id: 12 }.into_key("pad").ok().unwrap();
    assert_eq!(key.id, 12);
    assert_eq!(key.name, "pad");
}

#[test]
fn the_key_table_reaches_up_to_the_greatest_id() {
    let t = template(&[("a", 2), ("b", 7), ("c", 0)]);
    let d = build_buttondeck(deck_id(), "h", &Vec::new(), &DeckJson::default(), &t).ok().unwrap();
    assert_eq!(d.wiring.len(), 8);
    assert_eq!(d.current_key_map.len(), 8);
    assert!(d.current_key_map.iter().all(|m| m.is_none()));
    let names: Vec<Option<String>> =
        d.wiring.iter().map(|k| k.as_ref().map(|k| k.name.clone())).collect();
    assert_eq!(names, vec![text("c"), None, text("a"), None, None, None, None, text("b")]);
    assert_eq!(d.wiring[7].as_ref().map(|k| k.id), Some(7));
    assert_eq!(d.current_setup, 0);
    assert!(d.button_arena.is_empty());
    assert!(d.setup_arena.is_empty());
}

#[test]
fn without_wiring_the_key_table_has_128_places() {
    let t = template(&[]);
    let d = build_buttondeck(deck_id(), "h", &Vec::new(), &DeckJson::default(), &t).ok().unwrap();
    assert_eq!(d.wiring.len(), 128);
    assert_eq!(d.current_key_map.len(), 128);
    assert!(d.wiring.iter().all(|k| k.is_none()));
}

#[test]
fn a_key_id_wired_twice_is_refused() {
    let t = template(&[("a", 3), ("b", 12), ("c", 3), ("d", 12)]);
    let r = build_buttondeck(deck_id(), "h", &Vec::new(), &DeckJson::default(), &t);
    match r {
        Err(DeckError::Message(m)) => assert_eq!(m, "duplicate id: 3"),
        other => panic!("not refused: {:?}", other),
    }
    let t = template(&[("a", 120), ("b", 0), ("c", 120)]);
    let r = build_buttondeck(deck_id(), "h", &Vec::new(), &DeckJson::default(), &t);
    match r {
        Err(e) => assert_eq!(e.message(), "message `duplicate id: 120`"),
        Ok(_) => panic!("not refused"),
    }
}

#[test]
fn a_key_id_without_a_place_is_refused() {
    let w = wiring(&[("a", 1), ("far", usize::MAX), ("b", 1), ("farther", usize::MAX)]);
    let list: Vec<(&String, &PhysicalKeyTemplate)> = w.iter().collect();
    match build_wiring(&list) {
        Err(DeckError::InvalidKey(name)) => assert_eq!(name, "far"),
        other => panic!("not refused: {:?}", other),
    }
}

#[test]
fn wiring_from_a_list() {
    let a = String::from("a");
    let b = String::from("b");
    let ka = PhysicalKeyTemplate { id: 1 };
    let kb = PhysicalKeyTemplate { id: 0 };
    let table = build_wiring(&vec![(&a, &ka), (&b, &kb)]).ok().unwrap();
    assert_eq!(table.len(), 2);
    assert_eq!(table[0].as_ref().unwrap().name, "b");
    assert_eq!(table[1].as_ref().unwrap().name, "a");
    assert_eq!(find_entry(&vec![(&a, &ka), (&b, &kb)], "b"), Some(1));
    assert_eq!(find_entry(&vec![(&a, &ka), (&a, &kb)], "a"), Some(0));
    assert_eq!(find_entry(&vec![(&a, &ka), (&b, &kb)], "c"), None);
}

#[test]
fn a_control_without_states_gets_a_placeholder() {
    let mut controls = IndexMap::new();
    let mut plain = control();
    plain.color = text("#010203");
    plain.value = ConfigValue::String(String::from("v"));
    controls.insert(String::from("plain"), plain);
    let mut t = template(&[("a", 0)]);
    t.controls = Some(controls);
    let id = deck_id();
    let d = build_buttondeck(id, "h", &Vec::new(), &DeckJson::default(), &t).ok().unwrap();
    assert_eq!(d.button_arena.len(), 1);
    let b = &d.button_arena[0];
    assert_eq!(b.id, ButtonId::new(id, 0));
    assert_eq!(b.name, "plain");
    assert_eq!(b.label, "plain");
    assert!(b.physical.is_none());
    assert_eq!(b.states.len(), 1);
    assert_eq!(b.states[0].name, "default");
    assert!(b.states[0].color.is_none());
    assert!(matches!(b.states[0].value, ButtonValue::Unset));
    assert_eq!(b.states[0].id.index, 0);
    assert_eq!(b.states[0].id.button, b.id);
    assert_eq!(b.current_state.index, 0);
    assert_eq!(b.default_state.index, 0);
    assert_eq!(b.defaults.name, "default");
    assert_eq!(b.defaults.color.map(|c| c.rgb), Some(0x010203));
    assert_eq!(b.effective_color().map(|c| c.rgb), Some(0x010203));
    assert!(matches!(b.effective_value(), ButtonValue::String(v) if v == "v"));
}

#[test]
fn names_are_resolved_to_places() {
    let functions = vec![String::from("f"), String::from("g"), String::from("f")];
    let mut states = IndexMap::new();
    let mut one = StateTemplate::default();
    one.on_down = text("g");
    one.on_up = text("f");
    one.switch_button_state = text("two");
    one.switch_deck_setup = text("second");
    one.image = text("one.png");
    one.value = ConfigValue::Bool(true);
    states.insert(String::from("one"), one);
    let mut two = StateTemplate::default();
    two.on_down = text("missing");
    two.switch_button_state = text("missing");
    two.switch_deck_setup = text("missing");
    two.value = ConfigValue::Array;
    states.insert(String::from("two"), two);
    let mut c = control();
    c.label = text("Label");
    c.switch_button_state = text("one");
    c.states = Some(states);
    let mut controls = IndexMap::new();
    controls.insert(String::from("other"), control());
    controls.insert(String::from("c"), c);
    let mut setups = IndexMap::new();
    setups.insert(String::from("first"), SetupTemplate { label: None, mapping: Vec::new() });
    setups.insert(String::from("second"), SetupTemplate { label: None, mapping: Vec::new() });
    let mut t = template(&[("a", 0)]);
    t.controls = Some(controls);
    t.setups = Some(setups);

    let id = deck_id();
    let d = build_buttondeck(id, "home", &functions, &DeckJson::default(), &t).ok().unwrap();
    let b = &d.button_arena[1];
    assert_eq!(b.id, ButtonId::new(id, 1));
    assert_eq!(b.label, "Label");
    assert_eq!(b.states.len(), 2);
    let one = &b.states[0];
    assert_eq!(one.name, "one");
    assert_eq!(one.on_button_down.as_ref().map(|f| (f.id, f.name.clone())), Some((1, String::from("g"))));
    assert_eq!(one.on_button_up.as_ref().map(|f| f.id), Some(0));
    assert_eq!(one.switch_button_state.map(|s| (s.button, s.index)), Some((b.id, 1)));
    assert_eq!(one.switch_deck_setup.map(|s| (s.deck, s.index)), Some((id, 1)));
    let expected = std::path::Path::new("home").join("one.png");
    assert_eq!(one.image.as_ref().map(|i| i.path.clone()), Some(expected.to_string_lossy().into_owned()));
    assert!(matches!(one.value, ButtonValue::Bool(true)));
    let two = &b.states[1];
    assert_eq!(two.id.index, 1);
    assert!(two.on_button_down.is_none());
    assert!(two.switch_button_state.is_none());
    assert!(two.switch_deck_setup.is_none());
    assert!(matches!(&two.value, ButtonValue::Error(_)));
    assert_eq!(b.defaults.switch_button_state.map(|s| s.index), Some(0));
    assert_eq!(d.setup_arena.len(), 2);
    assert_eq!(d.setup_arena[1].reference.id, 1);
    assert_eq!(d.setup_arena[1].reference.name, "second");
}

#[test]
fn lines_that_resolve_to_nothing_are_left_out() {
    let mut states = IndexMap::new();
    states.insert(String::from("s0"), StateTemplate::default());
    states.insert(String::from("s1"), StateTemplate::default());
    let mut c = control();
    c.states = Some(states);
    let mut controls = IndexMap::new();
    controls.insert(String::from("plain"), control());
    controls.insert(String::from("c"), c);
    let mut setups = IndexMap::new();
    setups.insert(
        String::from("only"),
        SetupTemplate {
            label: None,
            mapping: vec![
                line("k5", "c", Some("s1")),
                line("nokey", "c", None),
                line("k2", "nobody", None),
                line("k2", "plain", Some("nostate")),
                line("k5", "plain", Some("default")),
            ],
        },
    );
    let mut t = template(&[("k2", 2), ("k5", 5)]);
    t.controls = Some(controls);
    t.setups = Some(setups);
    let id = deck_id();
    let d = build_buttondeck(id, "h", &Vec::new(), &DeckJson::default(), &t).ok().unwrap();
    let lines: Vec<(usize, String, usize, Option<usize>)> = d.setup_arena[0]
        .mapping
        .iter()
        .map(|m| (m.key.id, m.key.name.clone(), m.button.index, m.state.map(|s| s.index)))
        .collect();
    assert_eq!(
        lines,
        vec![
            (5, String::from("k5"), 1, Some(1)),
            (2, String::from("k2"), 0, None),
            (5, String::from("k5"), 0, Some(0)),
        ]
    );
    assert!(d.setup_arena[0].mapping.iter().all(|m| m.button.deck == id));
}

#[test]
fn the_template_goes_before_the_file() {
    let mut file = DeckJson::default();
    let mut file_controls = IndexMap::new();
    file_controls.insert(String::from("from_file"), control());
    file.controls = Some(file_controls);
    let mut file_setups = IndexMap::new();
    file_setups.insert(String::from("file_setup"), SetupTemplate { label: None, mapping: Vec::new() });
    file.setups = Some(file_setups);

    let t = template(&[("a", 0)]);
    let d = build_buttondeck(deck_id(), "h", &Vec::new(), &file, &t).ok().unwrap();
    assert_eq!(d.button_arena[0].name, "from_file");
    assert_eq!(d.setup_arena[0].reference.name, "file_setup");

    let mut t = template(&[("a", 0)]);
    let mut own = IndexMap::new();
    own.insert(String::from("own"), control());
    t.controls = Some(own);
    let d = build_buttondeck(deck_id(), "h", &Vec::new(), &file, &t).ok().unwrap();
    assert_eq!(d.button_arena.len(), 1);
    assert_eq!(d.button_arena[0].name, "own");
    assert_eq!(d.setup_arena[0].reference.name, "file_setup");
}

#[test]
fn building_from_lists() {
    let id = deck_id();
    let functions = vec![String::from("f")];
    let setup_name = String::from("s");
    let setup = SetupTemplate { label: None, mapping: vec![line("k", "c", None)] };
    let setups = vec![(&setup_name, &setup)];
    let data = BuilderData { deck: id, home: "h", functions: &functions, setups: &setups };
    let key_name = String::from("k");
    let key = PhysicalKeyTemplate { id: 4 };
    let wiring = vec![(&key_name, &key)];
    let control_name = String::from("c");
    let mut c = control();
    c.on_down = text("f");
    c.switch_deck_setup = text("s");
    let controls = vec![(&control_name, &c)];

    assert_eq!(data.setup_for_opt_name(&text("s")).map(|s| s.index), Some(0));
    assert!(data.setup_for_opt_name(&text("t")).is_none());
    assert!(data.setup_for_opt_name(&None).is_none());
    assert_eq!(data.get_button_fn_ref(&text("f")).map(|f| f.id), Some(0));
    assert!(data.get_button_fn_ref(&text("h")).is_none());

    let b = build_button(&data, &controls, 0).ok().unwrap();
    assert_eq!(b.name, "c");
    assert_eq!(b.defaults.on_button_down.as_ref().map(|f| f.id), Some(0));
    assert_eq!(b.defaults.switch_deck_setup.map(|s| s.index), Some(0));
    match build_button(&data, &controls, 1) {
        Err(DeckError::Message(m)) => assert_eq!(m, "Internal Error(build_button#1)"),
        other => panic!("built: {:?}", other),
    }

    let arena = vec![b];
    let s = build_setup(&data, &wiring, &controls, &arena, 0);
    assert_eq!(s.reference.name, "s");
    assert_eq!(s.mapping.len(), 1);
    assert_eq!(s.mapping[0].key.id, 4);

    let d = build_definition(&data, &wiring, &controls).ok().unwrap();
    assert_eq!(d.wiring.len(), 5);
    assert_eq!(d.setup_arena[0].mapping[0].button, ButtonId::new(id, 0));

    let state_name = String::from("x");
    let state = StateTemplate::default();
    let states = vec![(&state_name, &state)];
    let button = ButtonId::new(id, 3);
    assert_eq!(state_for_opt_name(&states, button, &text("x")).map(|s| (s.button, s.index)), Some((button, 0)));
    assert!(state_for_opt_name(&states, button, &text("y")).is_none());
}

#[test]
fn the_template_of_the_model_is_selected() {
    let devices = vec![
        (String::from("stream_deck"), template(&[("a", 1)])),
        (String::from("stream_deck_mini"), template(&[("b", 2)])),
        (String::from("stream_deck_mini"), template(&[("c", 3)])),
    ];
    let any = template(&[("any", 9)]);
    let t = select_template(Some(devices), Some(any), "stream_deck_mini").unwrap();
    assert_eq!(t.wiring.get_index(0).map(|(n, k)| (n.clone(), k.id)), Some((String::from("b"), 2)));

    let devices = vec![(String::from("stream_deck"), template(&[("a", 1)]))];
    let any = template(&[("any", 9)]);
    let t = select_template(Some(devices), Some(any), "stream_deck_xl").unwrap();
    assert_eq!(t.wiring.get_index(0).map(|(n, _)| n.clone()), Some(String::from("any")));

    let t = select_template(None, Some(template(&[("any", 9)])), "x").unwrap();
    assert_eq!(t.wiring.len(), 1);
    assert!(select_template(None, None, "x").is_none());
    assert!(select_template(Some(Vec::new()), None, "x").is_none());
}

#[test]
fn tables_hold_no_name_twice() {
    let table = SetupTemplate {
        label: None,
        mapping: vec![line("a", "x", None), line("b", "x", None), line("c", "y", None)],
    };
    assert!(table.is_wf());
    let twice = SetupTemplate {
        label: None,
        mapping: vec![line("a", "x", None), line("b", "x", None), line("a", "y", None)],
    };
    assert!(!twice.is_wf());
    assert!(SetupTemplate { label: None, mapping: Vec::new() }.is_wf());

    let mut file = DeckJson::default();
    assert!(file.is_wf());
    file.devices = Some(vec![
        (String::from("m1"), template(&[])),
        (String::from("m2"), template(&[])),
    ]);
    assert!(file.is_wf());
    file.devices = Some(vec![
        (String::from("m1"), template(&[])),
        (String::from("m2"), template(&[])),
        (String::from("m2"), template(&[])),
    ]);
    assert!(!file.is_wf());
    assert!(entries_distinct(&vec![(String::from("only"), 1u8)]));
    assert!(!entries_distinct(&vec![(String::new(), 1u8), (String::new(), 2u8)]));
}
