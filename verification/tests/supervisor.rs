use buttondeck::device::streamdeck::PollResult;
use buttondeck::device::streamdeck::StreamDeckDevice;
use buttondeck::device::streamdeck::StreamDeckKind;
use buttondeck::setup::build_buttondeck;
use buttondeck::setup::ButtonDeckTemplate;
use buttondeck::setup::ButtonTemplate;
use buttondeck::setup::DeckJson;
use buttondeck::setup::PhysicalKeyTemplate;
use buttondeck::setup::ReferenceTemplate;
use buttondeck::setup::SetupTemplate;
use buttondeck::setup::StateTemplate;
use buttondeck::supervisor::Action;
use buttondeck::supervisor::Phase;
use buttondeck::supervisor::Signal;
use buttondeck::supervisor::Supervisor;
use buttondeck::supervisor::RETRY_PAUSE_MS;
use buttondeck::ButtonDeck;
use buttondeck::ConfigValue;
use buttondeck::DeckDeviceSetup;
use buttondeck::DeckError;
use buttondeck::DeckEvent;
use buttondeck::DeckId;
use buttondeck::DeckIdRegistry;
use buttondeck::DeviceEvent;
use buttondeck::Dispatch;
use indexmap::IndexMap;

/// One key, one button "mute" with the states "off" and "on", one setup.
fn definition(id: DeckId) -> DeckDeviceSetup {
    let mut wiring = IndexMap::new();
    wiring.insert(String::from("key0"), PhysicalKeyTemplate { id: 0 });
    let mut off = StateTemplate::default();
    off.color = Some(String::from("#ff0000"));
    off.switch_button_state = Some(String::from("on"));
    let mut on = StateTemplate::default();
    on.color = Some(String::from("#00ff00"));
    let mut states = IndexMap::new();
    states.insert(String::from("off"), off);
    states.insert(String::from("on"), on);
    let mute = ButtonTemplate {
        label: None,
        color: None,
        image: None,
        value: ConfigValue::Null,
        on_up: None,
        on_down: None,
        on_value: None,
        switch_button_state: None,
        switch_deck_setup: None,
        states: Some(states),
    };
    let mut controls = IndexMap::new();
    controls.insert(String::from("mute"), mute);
    let mut setups = IndexMap::new();
    setups.insert(
        String::from("default"),
        SetupTemplate {
            label: None,
            mapping: vec![(
                String::from("key0"),
                ReferenceTemplate { control: String::from("mute"), state: None },
            )],
        },
    );
    let t = ButtonDeckTemplate { label: None, wiring, controls: Some(controls), setups: Some(setups) };
    build_buttondeck(id, "h", &Vec::new(), &DeckJson::default(), &t).ok().unwrap()
}

#[test]
fn discovery_is_retried_after_a_pause() {
    let mut s = Supervisor::new();
    assert_eq!(s.phase, Phase::WaitDevice);
    assert_eq!(s.first_action(), Action::Discover(0));
    assert_eq!(s.step(Signal::NoDeviceFound), Action::Discover(3000));
    assert_eq!(s.step(Signal::NoDeviceFound), Action::Discover(RETRY_PAUSE_MS));
    assert_eq!(s.phase, Phase::WaitDevice);
    assert_eq!(s.step(Signal::DeviceFound), Action::Build);
    assert_eq!(s.phase, Phase::WaitDevice);
    assert_eq!(s.step(Signal::BuildFailed), Action::Discover(3000));
    assert_eq!(s.phase, Phase::WaitDevice);
    assert_eq!(s.step(Signal::DeviceFound), Action::Build);
    assert_eq!(s.step(Signal::DefinitionBuilt), Action::Connect);
    assert_eq!(s.phase, Phase::Connected);
}

#[test]
fn only_disconnected_ends_a_connection() {
    let mut s = Supervisor { phase: Phase::Connected };
    assert_eq!(s.step(Signal::EventDone), Action::Receive);
    assert_eq!(s.step(Signal::EventFailed(DeckError::InvalidRef)), Action::Receive);
    assert_eq!(s.step(Signal::EventFailed(DeckError::Message(String::from("m")))), Action::Receive);
    assert_eq!(s.step(Signal::EventFailed(DeckError::NoDevice)), Action::Receive);
    assert_eq!(s.step(Signal::ReceiveFailed), Action::Receive);
    assert_eq!(s.step(Signal::NoDeviceFound), Action::Receive);
    assert_eq!(s.phase, Phase::Connected);
    assert_eq!(s.step(Signal::EventFailed(DeckError::Disconnected)), Action::Discover(3000));
    assert_eq!(s.phase, Phase::WaitDevice);
    assert_eq!(s.step(Signal::EventDone), Action::Discover(3000));
    assert_eq!(s.phase, Phase::WaitDevice);
}

#[test]
fn connecting_installs_the_definition_and_activates_the_first_setup() {
    let id = DeckIdRegistry::new().issue().unwrap();
    let mut deck: ButtonDeck<()> = ButtonDeck::new(id, String::from("h"), Vec::new(), None);
    deck.connect(definition(id));
    assert_eq!(deck.ddsetup.current_setup, 0);
    assert_eq!(deck.ddsetup.button_arena[0].physical.as_ref().map(|k| k.id), Some(0));
    let commands = deck.take_commands();
    assert_eq!(commands.len(), 1);
    assert!(matches!(&commands[0], DeviceEvent::SetColor(0, c) if c.rgb == 0xff0000));

    let mut empty: ButtonDeck<()> = ButtonDeck::new(id, String::from("h"), Vec::new(), None);
    empty.connect(DeckDeviceSetup::default());
    assert!(empty.outbox.is_empty());
}

#[test]
fn a_reconnect_starts_from_a_fresh_definition() {
    let id = DeckIdRegistry::new().issue().unwrap();
    let mut deck: ButtonDeck<()> = ButtonDeck::new(id, String::from("h"), Vec::new(), None);
    let mut supervisor = Supervisor::new();
    let mut adapter = StreamDeckDevice::new(StreamDeckKind::Original);
    let mut log = Vec::new();

    assert_eq!(supervisor.step(Signal::DeviceFound), Action::Build);
    assert_eq!(supervisor.step(Signal::DefinitionBuilt), Action::Connect);
    deck.connect(definition(id));
    log.push(String::from("connected"));

    let polls = vec![PollResult::Buttons(vec![1]), PollResult::Failed, PollResult::Buttons(vec![0])];
    let mut queue = Vec::new();
    for poll in polls {
        let polled = adapter.on_poll(poll);
        queue.extend(polled.events);
        if polled.stop {
            break;
        }
    }
    assert_eq!(queue.iter().filter(|e| matches!(e, DeckEvent::Disconnected)).count(), 1);

    let mut action = Action::Receive;
    for event in queue {
        assert_eq!(action, Action::Receive);
        let signal = match deck.run_event(event) {
            Ok(Dispatch::Done) => Signal::EventDone,
            Ok(other) => panic!("unexpected {:?}", other),
            Err(e) => Signal::EventFailed(e),
        };
        action = supervisor.step(signal);
        log.push(format!("{:?}", action));
    }
    assert_eq!(log, vec!["connected", "Receive", "Discover(3000)"]);
    assert_eq!(supervisor.phase, Phase::WaitDevice);
    assert_eq!(deck.ddsetup.button_arena[0].current_state.index, 1);

    assert_eq!(supervisor.step(Signal::NoDeviceFound), Action::Discover(3000));
    assert_eq!(supervisor.step(Signal::DeviceFound), Action::Build);
    assert_eq!(supervisor.step(Signal::DefinitionBuilt), Action::Connect);
    deck.take_commands();
    deck.connect(definition(id));
    assert_eq!(supervisor.phase, Phase::Connected);
    assert_eq!(deck.ddsetup.current_setup, 0);
    assert_eq!(deck.ddsetup.button_arena[0].current_state.index, 0);
    assert_eq!(deck.ddsetup.button_arena[0].physical.as_ref().map(|k| k.id), Some(0));
    let commands = deck.take_commands();
    assert_eq!(commands.len(), 1);
    assert!(matches!(&commands[0], DeviceEvent::SetColor(0, c) if c.rgb == 0xff0000));
}
