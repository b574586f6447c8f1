//! An immutable UTF-8 string family with three storage disciplines:
//! heap-owned buffers, references to permanently-live text, and
//! lifetime-bound borrows.  Equality and ordering are always computed
//! over the character content, never over the storage mode, so values
//! of different modes holding the same text are interchangeable.

pub mod laws;
pub mod order;
pub mod string;
pub mod string_cow;
pub mod string_ref;

pub use order::lex_cmp;
pub use order::str_compare;
pub use order::str_eq;
pub use string::SString;
pub use string::SStringInner;
pub use string::spec_owned;
pub use string::spec_singleton;
pub use string_cow::SStringCow;
pub use string_cow::SStringCowInner;
pub use string_ref::SStringRef;
pub use string_ref::SStringRefInner;
