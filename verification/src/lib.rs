//! A dual-representation buffer for octet data that is usually, but not
//! always, valid UTF-8 text.
//!
//! Protocol data such as header values or path segments is mostly text, yet
//! must never be rejected or mangled when it is not. The [`MaybeUtf8`] tagged
//! union holds either a payload validated as UTF-8 text or an arbitrary byte
//! sequence, classifies itself once at construction, and exposes one uniform
//! surface for inspection, append-style mutation, comparison, and conversion.

pub mod buffer;
pub mod encoding;

pub use buffer::MaybeUtf8;
pub use buffer::MaybeUtf8Owned;
pub use buffer::MaybeUtf8Slice;
