//! Runtime for button decks: programmable keypads and MIDI control surfaces.
//!
//! The crate holds the in-memory model of a deck (buttons, their states,
//! setups and the wiring of physical keys), the rules that resolve what a
//! button shows and does, the switching of setups, the dispatch of events and
//! the decisions of the device adapters and of the reconnect supervisor.
//! Blocking device access, threads and channels are left to the caller, which
//! feeds events in and carries the queued device commands out.

pub mod button;
pub mod color;
pub mod deck;
pub mod device;
pub mod dispatch;
pub mod error;
pub mod hardware;
pub mod ids;
pub mod lookup;
pub mod setup;
pub mod supervisor;
pub mod switching;
pub mod text;

pub use button::Button;
pub use button::ButtonImage;
pub use button::ButtonState;
pub use button::ButtonValue;
pub use button::ConfigValue;
pub use color::ButtonColor;
pub use deck::ButtonDeck;
pub use deck::ButtonMapping;
pub use deck::ButtonSetup;
pub use deck::DeckDeviceSetup;
pub use deck::FnRef;
pub use deck::SetupRef;
pub use device::DeviceEvent;
pub use device::DeviceEventType;
pub use device::PhysicalKey;
pub use device::SendMidi;
pub use dispatch::DeckEvent;
pub use dispatch::Dispatch;
pub use dispatch::FnArg;
pub use error::DeckError;
pub use hardware::ButtonClass;
pub use hardware::DeviceFamily;
pub use hardware::DeviceKind;
pub use hardware::DeviceSpecs;
pub use ids::ButtonId;
pub use ids::DeckId;
pub use ids::DeckIdRegistry;
pub use ids::SetupId;
pub use ids::StateId;
