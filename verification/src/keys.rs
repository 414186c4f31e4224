//! Data model: the converted key-or-button value and the input-validation
//! errors, with their mathematical views.

use vstd::prelude::*;

use crate::strutil::str_eq;

verus! {

/// A converted token: either a keyboard key or a pointing-device button,
/// holding the canonical output identifier.
#[derive(Debug, Clone)]
pub enum KeyOrButton {
    Key(String),
    Button(String),
}

/// Mathematical view of [`KeyOrButton`]: the same two variants over `Seq<char>`.
pub enum KeyOrButtonView {
    Key(Seq<char>),
    Button(Seq<char>),
}

impl View for KeyOrButton {
    type V = KeyOrButtonView;

    open spec fn view(&self) -> KeyOrButtonView {
        match self {
            KeyOrButton::Key(s) => KeyOrButtonView::Key(s@),
            KeyOrButton::Button(s) => KeyOrButtonView::Button(s@),
        }
    }
}

impl DeepView for KeyOrButton {
    type V = KeyOrButtonView;

    open spec fn deep_view(&self) -> KeyOrButtonView {
        self.view()
    }
}

impl PartialEq for KeyOrButton {
    fn eq(&self, other: &Self) -> bool {
        match (self, other) {
            (KeyOrButton::Key(a), KeyOrButton::Key(b)) => str_eq(a.as_str(), b.as_str()),
            (KeyOrButton::Button(a), KeyOrButton::Button(b)) => str_eq(a.as_str(), b.as_str()),
            _ => false,
        }
    }
}

impl Eq for KeyOrButton {
}

impl vstd::std_specs::cmp::PartialEqSpecImpl for KeyOrButton {
    open spec fn obeys_eq_spec() -> bool {
        true
    }

    open spec fn eq_spec(&self, other: &Self) -> bool {
        self@ == other@
    }
}

/// An ordered list of canonical modifier identifiers; may be empty. Order is
/// irrelevant to meaning but preserved for determinism.
pub type ModifierList = Vec<String>;

/// One remapped entry: a key or button together with its modifier list.
pub type KeySpec = (KeyOrButton, ModifierList);

/// Why a token was rejected; each variant carries the offending raw substring.
#[derive(Debug, Clone)]
pub enum ConvError {
    /// A token lacks the two-part `Category::Identifier` shape.
    MalformedToken(String),
    /// A `KeyCode` identifier that the key table does not hold.
    UnknownKeyCode(String),
    /// A `PointingButton` identifier that the button table does not hold.
    UnknownButton(String),
    /// A category other than `KeyCode` or `PointingButton` where a key token
    /// was expected.
    NotAKeyCode(String),
    /// A modifier identifier that the modifier table does not hold.
    UnknownModifier(String),
    /// A category other than `ModifierFlag`, without the legacy `VK_` prefix,
    /// where a modifier token was expected.
    NotAModifier(String),
    /// A modifier token that split into no pieces at all.
    EmptyModifierList(String),
}

/// Mathematical view of [`ConvError`]: the same variants over `Seq<char>`.
pub enum ConvErrorView {
    MalformedToken(Seq<char>),
    UnknownKeyCode(Seq<char>),
    UnknownButton(Seq<char>),
    NotAKeyCode(Seq<char>),
    UnknownModifier(Seq<char>),
    NotAModifier(Seq<char>),
    EmptyModifierList(Seq<char>),
}

impl View for ConvError {
    type V = ConvErrorView;

    open spec fn view(&self) -> ConvErrorView {
        match self {
            ConvError::MalformedToken(s) => ConvErrorView::MalformedToken(s@),
            ConvError::UnknownKeyCode(s) => ConvErrorView::UnknownKeyCode(s@),
            ConvError::UnknownButton(s) => ConvErrorView::UnknownButton(s@),
            ConvError::NotAKeyCode(s) => ConvErrorView::NotAKeyCode(s@),
            ConvError::UnknownModifier(s) => ConvErrorView::UnknownModifier(s@),
            ConvError::NotAModifier(s) => ConvErrorView::NotAModifier(s@),
            ConvError::EmptyModifierList(s) => ConvErrorView::EmptyModifierList(s@),
        }
    }
}

impl DeepView for ConvError {
    type V = ConvErrorView;

    open spec fn deep_view(&self) -> ConvErrorView {
        self.view()
    }
}

impl PartialEq for ConvError {
    fn eq(&self, other: &Self) -> bool {
        match (self, other) {
            (ConvError::MalformedToken(a), ConvError::MalformedToken(b)) => str_eq(a.as_str(), b.as_str()),
            (ConvError::UnknownKeyCode(a), ConvError::UnknownKeyCode(b)) => str_eq(a.as_str(), b.as_str()),
            (ConvError::UnknownButton(a), ConvError::UnknownButton(b)) => str_eq(a.as_str(), b.as_str()),
            (ConvError::NotAKeyCode(a), ConvError::NotAKeyCode(b)) => str_eq(a.as_str(), b.as_str()),
            (ConvError::UnknownModifier(a), ConvError::UnknownModifier(b)) => str_eq(a.as_str(), b.as_str()),
            (ConvError::NotAModifier(a), ConvError::NotAModifier(b)) => str_eq(a.as_str(), b.as_str()),
            (ConvError::EmptyModifierList(a), ConvError::EmptyModifierList(b)) => str_eq(a.as_str(), b.as_str()),
            _ => false,
        }
    }
}

impl Eq for ConvError {
}

impl vstd::std_specs::cmp::PartialEqSpecImpl for ConvError {
    open spec fn obeys_eq_spec() -> bool {
        true
    }

    open spec fn eq_spec(&self, other: &Self) -> bool {
        self@ == other@
    }
}

} // verus!
