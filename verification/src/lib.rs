//! Typed vocabulary of rich-text formatting attributes.
//!
//! An [`Attribute`] is an immutable (key, value, scope) triple. Keys form a
//! closed enumeration, each statically classified into one scope; raw scalar
//! values are normalized so that every "no effect" input (false, zero, the
//! empty string) collapses to one canonical absent representation.

pub mod attribute;
pub mod json;
pub mod key;
pub mod value;

pub use attribute::Attribute;
pub use key::is_block_except_header;
pub use key::scope_of;
pub use key::wire_name;
pub use key::AttributeKey;
pub use key::AttributeScope;
pub use value::AttributeValue;
