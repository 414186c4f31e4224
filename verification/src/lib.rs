//! Conversion of legacy XML-format keyboard-remapping tokens into the string
//! identifiers used by the newer JSON-based remapping format.

pub mod convert;
pub mod keys;
pub mod laws;
pub mod strutil;
pub mod tables;

pub use convert::collect_keys;
pub use convert::convert_key_or_button;
pub use convert::convert_modifier_flags;
pub use keys::ConvError;
pub use keys::KeyOrButton;
pub use keys::KeySpec;
pub use keys::ModifierList;
