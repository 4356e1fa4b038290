use buttondeck::lookup::find_name;
use buttondeck::text::decimal_text;
use buttondeck::ButtonClass;
use buttondeck::ButtonId;
use buttondeck::ButtonSetup;
use buttondeck::DeckDeviceSetup;
use buttondeck::DeckError;
use buttondeck::DeckIdRegistry;
use buttondeck::DeviceEventType;
use buttondeck::DeviceFamily;
use buttondeck::DeviceKind;
use buttondeck::DeviceSpecs;
use buttondeck::FnRef;
use buttondeck::SetupRef;

#[test]
fn deck_ids_are_issued_in_sequence() {
    let mut registry = DeckIdRegistry::new();
    let a = registry.issue().unwrap();
    let b = registry.issue().unwrap();
    let c = registry.issue().unwrap();
    assert_eq!((a.index(), b.index(), c.index()), (1, 2, 3));
    assert_ne!(a, b);
    assert_eq!(ButtonId::new(a, 5), ButtonId { deck: a, index: 5 });
    assert_ne!(ButtonId::new(a, 5), ButtonId::new(b, 5));
}

#[test]
fn numbers_render_in_decimal() {
    assert_eq!(decimal_text(0), "0");
    assert_eq!(decimal_text(7), "7");
    assert_eq!(decimal_text(10), "10");
    assert_eq!(decimal_text(1203), "1203");
    assert_eq!(decimal_text(9876543210), "9876543210");
    assert_eq!(decimal_text(usize::MAX), usize::MAX.to_string());
}

#[test]
fn errors_render_as_text() {
    assert_eq!(DeckError::Message(String::from("m")).message(), "message `m`");
    assert_eq!(DeckError::InvalidRef.message(), "button ref error");
    assert_eq!(DeckError::InvalidKey(String::from("k9")).message(), "button key error k9");
    assert_eq!(DeckError::NoDirectory.message(), "no directory");
    assert_eq!(DeckError::NoDevice.message(), "no device");
    assert_eq!(DeckError::NoHidApi.message(), "no hid api");
    assert_eq!(DeckError::Disconnected.message(), "disconnected");
    assert!(DeckError::Disconnected.is_disconnected());
    assert!(!DeckError::NoDevice.is_disconnected());
}

#[test]
fn device_kinds_have_their_family() {
    for kind in [
        DeviceKind::GenericMidi,
        DeviceKind::AkaiFire,
        DeviceKind::TouchOSC,
        DeviceKind::KorgNanoKontrol2,
    ] {
        let specs = kind.get_specs();
        assert_eq!(specs.family, DeviceFamily::Midi);
        assert!(specs.midi_in.is_none());
        assert!(specs.midi_out.is_none());
    }
    for kind in [
        DeviceKind::StreamDeck,
        DeviceKind::StreamDeckOriginal,
        DeviceKind::StreamDeckOriginalV2,
        DeviceKind::StreamDeckMini,
        DeviceKind::StreamDeckXL,
        DeviceKind::StreamDeckMK2,
    ] {
        assert_eq!(kind.get_specs().family, DeviceFamily::Streamdeck);
    }
    assert_eq!(DeviceKind::default(), DeviceKind::StreamDeck);
    assert_eq!(DeviceFamily::default(), DeviceFamily::Streamdeck);
    assert_eq!(DeviceSpecs::default().family, DeviceFamily::Streamdeck);
    assert_ne!(ButtonClass::MidiNote, ButtonClass::MidiCcValue);
    assert_ne!(DeviceEventType::ButtonDown, DeviceEventType::ButtonUp);
}

#[test]
fn defaults_of_the_definition() {
    let r = SetupRef::default();
    assert_eq!((r.id, r.name.as_str()), (0, "default"));
    let copy = r.clone();
    assert_eq!((copy.id, copy.name), (0, String::from("default")));
    let s = ButtonSetup::default();
    assert_eq!(s.reference.name, "default");
    assert!(s.mapping.is_empty());
    let d = DeckDeviceSetup::default();
    assert!(d.button_arena.is_empty() && d.setup_arena.is_empty());
    assert!(d.current_key_map.is_empty() && d.wiring.is_empty());
    assert_eq!(d.current_setup, 0);
    let f = FnRef { id: 2, name: String::from("f") }.clone();
    assert_eq!((f.id, f.name), (2, String::from("f")));
}

#[test]
fn names_are_found_first_come() {
    let names = vec![String::from("a"), String::from("b"), String::from("a")];
    assert_eq!(find_name(&names, "a"), Some(0));
    assert_eq!(find_name(&names, "b"), Some(1));
    assert_eq!(find_name(&names, "c"), None);
    assert_eq!(find_name(&Vec::new(), "a"), None);
}
