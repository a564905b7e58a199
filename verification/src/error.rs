//! Errors reported when a configuration document is rejected.
//!
//! A document is either fully valid or entirely rejected: every error here
//! is terminal for the document being loaded. [`ConfigError`] is the
//! structured taxonomy; [`GameConfigError`] carries the single
//! human-readable message surfaced to callers.

use vstd::prelude::*;
use vstd::string::StringExecFns;

verus! {

/// The structured error taxonomy for a rejected document.
#[derive(Debug, Clone)]
pub enum ConfigError {
    /// A custom field type names a type not present in the registry.
    UnknownTypeReference { from: String, field: String, to: String },
    /// The custom-type reference graph contains a cycle.
    CircularDependency { a: String, b: String },
    /// A map-keyed section contains a repeated key.
    DuplicateKey { section: String, key: String },
    /// A missing required field, unrecognized tag discriminant, or
    /// type-mismatched literal, located by a context name and a field name.
    StructuralDecodeError { context: String, field: String },
}

/// The mathematical model of a [`ConfigError`]: the same variants over
/// sequences of characters.
pub enum ConfigErrorView {
    UnknownTypeReference { from: Seq<char>, field: Seq<char>, to: Seq<char> },
    CircularDependency { a: Seq<char>, b: Seq<char> },
    DuplicateKey { section: Seq<char>, key: Seq<char> },
    StructuralDecodeError { context: Seq<char>, field: Seq<char> },
}

impl View for ConfigError {
    type V = ConfigErrorView;

    open spec fn view(&self) -> ConfigErrorView {
        match self {
            ConfigError::UnknownTypeReference { from, field, to } => {
                ConfigErrorView::UnknownTypeReference { from: from@, field: field@, to: to@ }
            },
            ConfigError::CircularDependency { a, b } => {
                ConfigErrorView::CircularDependency { a: a@, b: b@ }
            },
            ConfigError::DuplicateKey { section, key } => {
                ConfigErrorView::DuplicateKey { section: section@, key: key@ }
            },
            ConfigError::StructuralDecodeError { context, field } => {
                ConfigErrorView::StructuralDecodeError { context: context@, field: field@ }
            },
        }
    }
}

/// The message a rejected document surfaces for each error.
pub open spec fn spec_error_message(e: ConfigErrorView) -> Seq<char> {
    match e {
        ConfigErrorView::UnknownTypeReference { from, field, to } => {
            "Unknown custom type for field "@ + field + ": "@ + to
        },
        ConfigErrorView::CircularDependency { a, b } => "Circular include: "@ + a + " -> "@ + b,
        ConfigErrorView::DuplicateKey { section, key } => {
            "Duplicate key in "@ + section + ": "@ + key
        },
        ConfigErrorView::StructuralDecodeError { context, field } => {
            "Structural decode error at "@ + context + ": "@ + field
        },
    }
}

/// The terminal error surfaced to a caller: a single human-readable message.
#[derive(Debug)]
pub struct GameConfigError {
    message: String,
}

impl GameConfigError {
    /// The message carried by this error.
    pub closed spec fn spec_message(&self) -> Seq<char> {
        self.message@
    }

    /// Wraps a ready-made message.
    pub fn with_string(message: String) -> (r: Self)
        ensures
            r.spec_message() == message@,
    {
        Self { message }
    }

    /// Hands the message back for display.
    pub fn get_message(&self) -> (r: &str)
        ensures
            r@ == self.spec_message(),
    {
        self.message.as_str()
    }
}

impl ConfigError {
    /// Formats this error as the message surfaced to callers.
    pub fn to_error(&self) -> (r: GameConfigError)
        ensures
            r.spec_message() == spec_error_message(self@),
    {
        match self {
            ConfigError::UnknownTypeReference { from: _, field, to } => {
                let mut m = "Unknown custom type for field ".to_owned();
                m.append(field.as_str());
                m.append(": ");
                m.append(to.as_str());
                GameConfigError::with_string(m)
            },
            ConfigError::CircularDependency { a, b } => {
                let mut m = "Circular include: ".to_owned();
                m.append(a.as_str());
                m.append(" -> ");
                m.append(b.as_str());
                GameConfigError::with_string(m)
            },
            ConfigError::DuplicateKey { section, key } => {
                let mut m = "Duplicate key in ".to_owned();
                m.append(section.as_str());
                m.append(": ");
                m.append(key.as_str());
                GameConfigError::with_string(m)
            },
            ConfigError::StructuralDecodeError { context, field } => {
                let mut m = "Structural decode error at ".to_owned();
                m.append(context.as_str());
                m.append(": ");
                m.append(field.as_str());
                GameConfigError::with_string(m)
            },
        }
    }
}

} // verus!
