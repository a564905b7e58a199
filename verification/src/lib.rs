//! A declarative configuration format for a game's static content.
//!
//! The crate models a configuration document as a tree of plain values
//! ([`value::DocValue`]), decodes it into a validated [`config::ConfigDTO`]
//! (assets, user-defined types, actions, key bindings, a scene-node forest
//! and terrain settings), and checks the user-defined type registry for
//! unknown and circular custom-type references before a document is
//! accepted.
//!
//! Engine-native leaf values (3D vectors, colors, transforms, key codes,
//! asset identifiers) are carried as plain values: floating-point leaves as
//! IEEE-754 bit patterns, identifiers and key codes as strings. Adapters
//! outside this crate translate between these plain carriers and a specific
//! engine or wire format.

pub mod action;
pub mod asset;
pub mod config;
pub mod decode;
pub mod encode;
pub mod error;
pub mod hierarchy;
pub mod keybind;
pub mod nodes;
pub mod roundtrip;
pub mod terrain;
pub mod types;
pub mod validate;
pub mod value;

pub use action::ActionDTO;
pub use asset::AssetDTO;
pub use config::ConfigDTO;
pub use error::GameConfigError;
pub use keybind::KeyBindDTO;
pub use types::{Type, TypeDTO};
