use buttondeck::Button;
use buttondeck::ButtonColor;
use buttondeck::ButtonId;
use buttondeck::ButtonImage;
use buttondeck::ButtonState;
use buttondeck::ButtonValue;
use buttondeck::ConfigValue;
use buttondeck::DeckId;
use buttondeck::DeckIdRegistry;
use buttondeck::FnRef;
use buttondeck::PhysicalKey;
use buttondeck::SetupId;
use buttondeck::StateId;

fn deck_id() -> DeckId {
    DeckIdRegistry::new().issue().unwrap()
}

fn state(button: ButtonId, index: usize, name: &str) -> ButtonState {
    ButtonState::named(StateId { button, index }, name)
}

/// A button with the states "a" (colour set), "b" (nothing set) and "c".
fn button() -> Button {
    let id = ButtonId::new(deck_id(), 0);
    let mut a = state(id, 0, "a");
    a.color = Some(ButtonColor { rgb: 0xff0000 });
    a.image = Some(ButtonImage { path: String::from("a.png") });
    a.value = ButtonValue::Bool(true);
    let b = state(id, 1, "b");
    let c = state(id, 2, "c");
    let mut defaults = state(id, 0, "default");
    defaults.color = Some(ButtonColor { rgb: 0x0000ff });
    defaults.image = Some(ButtonImage { path: String::from("default.png") });
    defaults.value = ButtonValue::String(String::from("fallback"));
    Button {
        id,
        name: String::from("mute"),
        label: String::from("Mute"),
        physical: None,
        defaults,
        default_state: StateId { button: id, index: 0 },
        current_state: StateId { button: id, index: 0 },
        states: vec![a, b, c],
    }
}

#[test]
fn effective_color_is_the_states_own_when_set() {
    let b = button();
    assert_eq!(b.effective_color().map(|c| c.rgb), Some(0xff0000));
    assert_eq!(b.effective_image().map(|i| i.path.clone()), Some(String::from("a.png")));
    assert!(matches!(b.effective_value(), ButtonValue::Bool(true)));
}

#[test]
fn effective_color_falls_back_to_the_defaults() {
    let mut b = button();
    assert!(b.switch_state_by_name("b"));
    assert_eq!(b.effective_color().map(|c| c.rgb), Some(0x0000ff));
    assert_eq!(b.effective_image().map(|i| i.path.clone()), Some(String::from("default.png")));
    assert!(matches!(b.effective_value(), ButtonValue::String(s) if s == "fallback"));
}

#[test]
fn what_neither_sets_is_absent() {
    let mut b = button();
    b.defaults.color = None;
    b.defaults.image = None;
    b.defaults.value = ButtonValue::Unset;
    b.switch_state_by_name("b");
    assert!(b.effective_color().is_none());
    assert!(b.effective_image().is_none());
    assert!(matches!(b.effective_value(), ButtonValue::Unset));
    assert!(b.effective_button_down().is_none());
    assert!(b.effective_button_up().is_none());
    assert!(b.effective_switch_button_state().is_none());
    assert!(b.effective_switch_deck_setup().is_none());
}

#[test]
fn handlers_and_switches_fall_back_too() {
    let mut b = button();
    let deck = b.id.deck;
    b.defaults.on_button_down = Some(FnRef { id: 4, name: String::from("down") });
    b.defaults.on_button_up = Some(FnRef { id: 5, name: String::from("up") });
    b.defaults.switch_button_state = Some(StateId { button: b.id, index: 2 });
    b.defaults.switch_deck_setup = Some(SetupId { deck, index: 1 });
    b.states[0].on_button_down = Some(FnRef { id: 7, name: String::from("own") });
    b.states[0].switch_deck_setup = Some(SetupId { deck, index: 3 });
    assert_eq!(b.effective_button_down().map(|f| f.id), Some(7));
    assert_eq!(b.effective_button_up().map(|f| f.id), Some(5));
    assert_eq!(b.effective_switch_button_state().map(|s| s.index), Some(2));
    assert_eq!(b.effective_switch_deck_setup().map(|s| s.index), Some(3));
}

#[test]
fn current_state_stays_in_range_over_toggles_and_switches() {
    let mut b = button();
    let id = b.id;
    let other = ButtonId::new(id.deck, 9);
    for round in 0..4 {
        b.toggle_state();
        assert!(b.current_state.index < b.states.len());
        b.switch_state2(StateId { button: id, index: 2 + round });
        assert!(b.current_state.index < b.states.len());
        b.switch_state2(StateId { button: other, index: 1 });
        assert!(b.current_state.index < b.states.len());
        b.switch_state_by_name("nowhere");
        assert!(b.current_state.index < b.states.len());
        b.switch_state_by_name("c");
        assert!(b.current_state.index < b.states.len());
        b.switch_state_action();
        assert!(b.current_state.index < b.states.len());
        assert_eq!(b.current_state().name, b.states[b.current_state.index].name);
    }
}

#[test]
fn toggle_goes_between_the_first_two_states() {
    let mut b = button();
    assert!(b.toggle_state());
    assert_eq!(b.current_state.index, 1);
    assert!(b.toggle_state());
    assert_eq!(b.current_state.index, 0);
    b.switch_state_by_name("c");
    assert_eq!(b.current_state.index, 2);
    assert!(b.toggle_state());
    assert_eq!(b.current_state.index, 0);
}

#[test]
fn toggle_on_a_single_state_changes_nothing() {
    let mut b = button();
    b.states.truncate(1);
    assert!(!b.toggle_state());
    assert_eq!(b.current_state.index, 0);
}

#[test]
fn switch_reports_whether_the_state_changed() {
    let mut b = button();
    let id = b.id;
    assert!(!b.switch_state2(StateId { button: id, index: 0 }));
    assert!(b.switch_state2(StateId { button: id, index: 1 }));
    assert!(!b.switch_state2(StateId { button: id, index: 1 }));
    assert!(!b.switch_state2(StateId { button: id, index: 3 }));
    assert_eq!(b.current_state.index, 1);
    assert!(!b.switch_state_by_name("b"));
    assert!(b.switch_state_by_name("a"));
}

#[test]
fn a_state_of_another_button_is_refused() {
    let mut b = button();
    let stranger = ButtonId::new(b.id.deck, 1);
    assert!(b.state(StateId { button: stranger, index: 1 }).is_none());
    assert!(b.state_mut(StateId { button: stranger, index: 1 }).is_none());
    assert!(!b.switch_state2(StateId { button: stranger, index: 1 }));
    assert_eq!(b.current_state.index, 0);
    let own = StateId { button: b.id, index: 1 };
    assert_eq!(b.state(own).map(|s| s.name.clone()), Some(String::from("b")));
}

#[test]
fn a_state_of_another_deck_is_refused() {
    let mut registry = DeckIdRegistry::new();
    let first = registry.issue().unwrap();
    let second = registry.issue().unwrap();
    assert_ne!(first, second);
    assert_eq!(first.index() + 1, second.index());
    let mut b = button();
    b.id = ButtonId::new(first, 0);
    let foreign = StateId { button: ButtonId::new(second, 0), index: 1 };
    assert!(b.state(foreign).is_none());
}

#[test]
fn switch_state_action_follows_the_current_state() {
    let mut b = button();
    let id = b.id;
    b.states[0].switch_button_state = Some(StateId { button: id, index: 1 });
    b.states[1].switch_button_state = Some(StateId { button: id, index: 0 });
    assert!(b.switch_state_action());
    assert_eq!(b.current_state.index, 1);
    assert!(b.switch_state_action());
    assert_eq!(b.current_state.index, 0);
    b.switch_state_by_name("c");
    assert!(!b.switch_state_action());
    assert_eq!(b.current_state.index, 2);
}

#[test]
fn states_are_found_by_name() {
    let mut b = button();
    assert_eq!(b.get_state_id("b").map(|s| s.index), Some(1));
    assert!(b.get_state_id("z").is_none());
    b.states[2].name = String::from("a");
    assert_eq!(b.get_state_id("a").map(|s| s.index), Some(0));
    assert!(b.state_by_name_mut("c").is_none());
    b.state_by_name_mut("b").unwrap().color = Some(ButtonColor { rgb: 7 });
    assert_eq!(b.states[1].color.map(|c| c.rgb), Some(7));
}

#[test]
fn image_and_value_are_set_on_the_named_state() {
    let mut b = button();
    assert!(b.set_state_image("b", Some(ButtonImage { path: String::from("b.png") })).is_ok());
    assert_eq!(b.states[1].image.as_ref().map(|i| i.path.clone()), Some(String::from("b.png")));
    assert_eq!(b.states[0].image.as_ref().map(|i| i.path.clone()), Some(String::from("a.png")));
    assert!(b.set_state_image("a", None).is_ok());
    assert!(b.states[0].image.is_none());
    assert!(b.set_state_value("c", ButtonValue::OnOff).is_ok());
    assert!(matches!(b.states[2].value, ButtonValue::OnOff));
    assert!(b.set_state_value("missing", ButtonValue::OnOff).is_ok());
    assert!(matches!(b.states[1].value, ButtonValue::Unset));
}

#[test]
fn assigned_key_is_the_key_bound() {
    let mut b = button();
    assert!(b.assigned_key().is_none());
    b.physical = Some(PhysicalKey { id: 3, name: String::from("k3") });
    let key = b.assigned_key().unwrap();
    assert_eq!(key.id, 3);
    assert_eq!(key.name, "k3");
    assert!(key == PhysicalKey { id: 3, name: String::from("other") });
    assert!(key != PhysicalKey { id: 4, name: String::from("k3") });
}

#[test]
fn values_render_as_text() {
    assert_eq!(ButtonValue::Unset.to_string(), "");
    assert_eq!(ButtonValue::Bool(true).to_string(), "true");
    assert_eq!(ButtonValue::Bool(false).to_string(), "false");
    assert_eq!(ButtonValue::OnOff.to_string(), "on/off");
    assert_eq!(ButtonValue::String(String::from("x y")).to_string(), "x y");
    assert_eq!(ButtonValue::Number.to_string(), "TODO");
    assert_eq!(ButtonValue::Error(String::from("bad \"x\"")).to_string(), "Error: \"bad \\\"x\\\"\"");
}

#[test]
fn configured_values_become_button_values() {
    assert!(matches!(ButtonValue::from_config(ConfigValue::Null), ButtonValue::Unset));
    assert!(matches!(ButtonValue::from_config(ConfigValue::Bool(true)), ButtonValue::Bool(true)));
    assert!(matches!(ButtonValue::from_config(ConfigValue::Number), ButtonValue::Unset));
    assert!(matches!(
        ButtonValue::from_config(ConfigValue::String(String::from("v"))),
        ButtonValue::String(s) if s == "v"
    ));
    assert!(matches!(
        ButtonValue::from_config(ConfigValue::Array),
        ButtonValue::Error(e) if e == "Arrays are not supported in ButtonValue"
    ));
    assert!(matches!(
        ButtonValue::from_config(ConfigValue::Object),
        ButtonValue::Error(e) if e == "Objects are not supported in ButtonValue"
    ));
    assert!(matches!(ButtonValue::default(), ButtonValue::Unset));
}

#[test]
fn images_come_from_paths() {
    assert!(ButtonImage::from_path("icons/a.png", false).is_none());
    assert_eq!(ButtonImage::from_path("icons/a.png", true).unwrap().path, "icons/a.png");
    assert!(ButtonImage::from_option_string("home", &None).is_none());
    let joined = ButtonImage::from_option_string("home", &Some(String::from("a.png"))).unwrap();
    let expected = std::path::Path::new("home").join("a.png");
    assert_eq!(joined.path, expected.to_string_lossy());
    assert_ne!(joined.path, "home");
    assert_ne!(joined.path, "a.png");
}

#[test]
fn colours_come_from_optional_text() {
    assert!(ButtonColor::from_option_string(&None).is_none());
    assert_eq!(
        ButtonColor::from_option_string(&Some(String::from("#00ff00"))).map(|c| c.rgb),
        Some(0x00ff00)
    );
    let parsed: ButtonColor = "#102030".parse().ok().unwrap();
    assert_eq!(parsed.rgb, 0x102030);
}
