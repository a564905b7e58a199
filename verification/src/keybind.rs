//! Key bindings: a key code and an optional human-readable description.

use vstd::prelude::*;

verus! {

/// A key binding. The key code is engine-native and opaque to this crate;
/// it is carried by its wire name (for example `KeyA`).
#[derive(Debug, Clone, PartialEq)]
pub struct KeyBindDTO {
    pub description: Option<String>,
    pub key: String,
}

/// The mathematical model of a [`KeyBindDTO`].
pub struct KeyBindView {
    pub description: Option<Seq<char>>,
    pub key: Seq<char>,
}

impl View for KeyBindDTO {
    type V = KeyBindView;

    open spec fn view(&self) -> KeyBindView {
        KeyBindView {
            description: match &self.description {
                Some(s) => Some(s@),
                None => None,
            },
            key: self.key@,
        }
    }
}

} // verus!
