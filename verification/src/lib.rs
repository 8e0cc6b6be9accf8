//! Host-side logic of a six-key macro keypad: the key vocabulary, the binary
//! encoding of key combinations, the framing of the serial commands, and the
//! monitor that picks which profile the device should carry.
pub mod editor;
pub mod encoding;
pub mod error;
pub mod keys;
pub mod panel;
pub mod press;
pub mod profile;
pub mod protocol;
pub mod watchdog;

pub use encoding::{key_to_bytes, modifier_key_to_bytes, optional_key_bytes};
pub use error::KeypadError;
pub use keys::{index_to_key, Key, ModifierKey};
pub use press::{KeyCombo, KeyPress, KeyPressBuilder};
pub use profile::Profile;
pub use protocol::FlashCommand;
pub use watchdog::{program_is_running, AutoSwitcher, State, WatchDog};
