//! An immutable UTF-8 string that stores its text either in a
//! heap-allocated buffer it owns, or as a reference to permanently-live
//! text (such as a compiled-in constant).  No operation mutates stored
//! content, and equality and ordering are computed over the character
//! content alone, never over the storage mode.

use vstd::prelude::*;
use core::cmp::Ordering;
use crate::order::lex_cmp;
use crate::order::str_compare;
use crate::order::str_eq;
use crate::string_ref::SStringRef;
use crate::string_cow::SStringCow;
use crate::string_cow::SStringCowInner;

verus! {

/// Storage of a [`SString`]: an owned heap buffer, or a reference to
/// text that lives for the remainder of the process.
#[derive(Debug)]
pub enum SStringInner {
    Owned(String),
    Singleton(&'static str),
}

/// A UTF-8 encoded, immutable string.
#[derive(Debug)]
pub struct SString {
    pub inner: SStringInner,
}

impl View for SString {
    type V = Seq<char>;

    open spec fn view(&self) -> Seq<char> {
        match self.inner {
            SStringInner::Owned(s) => s@,
            SStringInner::Singleton(s) => s@,
        }
    }
}

/// The value that wraps `s` in owned-buffer storage.
pub open spec fn spec_owned(s: String) -> SString {
    SString { inner: SStringInner::Owned(s) }
}

/// The value that wraps `s` in permanent-reference storage.
pub open spec fn spec_singleton(s: &'static str) -> SString {
    SString { inner: SStringInner::Singleton(s) }
}

impl SString {
    /// True when the value holds its own heap buffer.
    pub open spec fn is_owned(&self) -> bool {
        self.inner is Owned
    }

    /// True when the value points at permanently-live text.
    pub open spec fn is_singleton(&self) -> bool {
        self.inner is Singleton
    }

    /// Create a new empty `SString`.  Uses permanent-reference storage,
    /// so no allocation is performed.
    pub fn new() -> (r: Self)
        ensures
            r@ == Seq::<char>::empty(),
            r.is_singleton(),
    {
        Self::default()
    }

    /// Create an owned `SString`, taking ownership of the buffer.
    pub fn owned(other: String) -> (r: Self)
        ensures
            r == spec_owned(other),
            r@ == other@,
            r.is_owned(),
    {
        SString { inner: SStringInner::Owned(other) }
    }

    /// Create a reference to `'static` data; no allocation, no copy.
    pub fn singleton(other: &'static str) -> (r: Self)
        ensures
            r == spec_singleton(other),
            r@ == other@,
            r.is_singleton(),
    {
        SString { inner: SStringInner::Singleton(other) }
    }

    /// Get a reference view of the `SString`.  Owned storage is seen as
    /// a borrow of this value; permanent storage keeps its reference.
    pub fn as_ref(&self) -> (r: SStringRef<'_>)
        ensures
            r@ == self@,
            r.is_singleton() == self.is_singleton(),
    {
        match &self.inner {
            SStringInner::Owned(s) => SStringRef::borrow(s.as_str()),
            SStringInner::Singleton(s) => SStringRef::singleton(s),
        }
    }

    /// Extract a string slice containing the entire `SString`.
    pub fn as_str(&self) -> (r: &str)
        ensures
            r@ == self@,
    {
        match &self.inner {
            SStringInner::Owned(s) => s.as_str(),
            SStringInner::Singleton(s) => s,
        }
    }

    /// Convert to a mutable string, cloning the data only if the value
    /// does not already own its buffer.
    pub fn into_mut(self) -> (r: String)
        ensures
            r@ == self@,
    {
        match self.inner {
            SStringInner::Owned(s) => s,
            SStringInner::Singleton(s) => s.to_owned(),
        }
    }

    /// Report whether the value currently holds its own heap buffer.
    pub fn owns_buffer(&self) -> (r: bool)
        ensures
            r == self.is_owned(),
    {
        matches!(self.inner, SStringInner::Owned(_))
    }

    /// Total order by content; storage mode never enters the comparison.
    pub fn cmp(&self, other: &Self) -> (r: Ordering)
        ensures
            r == lex_cmp(self@, other@),
    {
        str_compare(self.as_str(), other.as_str())
    }
}

impl Clone for SString {
    /// Duplicate the storage tag: a permanent reference is copied
    /// cheaply, an owned buffer is cloned.
    fn clone(&self) -> (r: Self)
        ensures
            r == *self,
    {
        match &self.inner {
            SStringInner::Owned(s) => SString { inner: SStringInner::Owned(s.clone()) },
            SStringInner::Singleton(s) => SString { inner: SStringInner::Singleton(*s) },
        }
    }
}

impl Default for SString {
    /// The empty string, in permanent-reference storage.
    fn default() -> (r: Self)
        ensures
            r@ == Seq::<char>::empty(),
            r.is_singleton(),
    {
        proof {
            reveal_strlit("");
        }
        SString { inner: SStringInner::Singleton("") }
    }
}

impl PartialEq for SString {
    fn eq(&self, other: &SString) -> (r: bool) {
        str_eq(self.as_str(), other.as_str())
    }
}

impl Eq for SString {}

impl vstd::std_specs::cmp::PartialEqSpecImpl for SString {
    open spec fn obeys_eq_spec() -> bool {
        true
    }

    open spec fn eq_spec(&self, other: &SString) -> bool {
        self@ == other@
    }
}

impl PartialEq<str> for SString {
    fn eq(&self, other: &str) -> (r: bool) {
        str_eq(self.as_str(), other)
    }
}

impl vstd::std_specs::cmp::PartialEqSpecImpl<str> for SString {
    open spec fn obeys_eq_spec() -> bool {
        true
    }

    open spec fn eq_spec(&self, other: &str) -> bool {
        self@ == other@
    }
}

impl<'s> PartialEq<&'s str> for SString {
    fn eq(&self, other: &&'s str) -> (r: bool) {
        str_eq(self.as_str(), *other)
    }
}

impl<'s> vstd::std_specs::cmp::PartialEqSpecImpl<&'s str> for SString {
    open spec fn obeys_eq_spec() -> bool {
        true
    }

    open spec fn eq_spec(&self, other: &&'s str) -> bool {
        self@ == other@
    }
}

impl PartialEq<String> for SString {
    fn eq(&self, other: &String) -> (r: bool) {
        str_eq(self.as_str(), other.as_str())
    }
}

impl vstd::std_specs::cmp::PartialEqSpecImpl<String> for SString {
    open spec fn obeys_eq_spec() -> bool {
        true
    }

    open spec fn eq_spec(&self, other: &String) -> bool {
        self@ == other@
    }
}

impl PartialOrd for SString {
    fn partial_cmp(&self, other: &SString) -> (r: Option<Ordering>) {
        Some(str_compare(self.as_str(), other.as_str()))
    }
}

impl vstd::std_specs::cmp::PartialOrdSpecImpl for SString {
    open spec fn obeys_partial_cmp_spec() -> bool {
        true
    }

    open spec fn partial_cmp_spec(&self, other: &SString) -> Option<Ordering> {
        Some(lex_cmp(self@, other@))
    }
}

impl From<String> for SString {
    /// Take ownership of the buffer; the result is in owned-buffer mode.
    fn from(other: String) -> (r: Self) {
        SString { inner: SStringInner::Owned(other) }
    }
}

impl vstd::std_specs::convert::FromSpecImpl<String> for SString {
    open spec fn obeys_from_spec() -> bool {
        true
    }

    open spec fn from_spec(v: String) -> SString {
        spec_owned(v)
    }
}

impl From<&'static str> for SString {
    /// Keep the permanent reference; no allocation, no copy.
    fn from(other: &'static str) -> (r: Self) {
        SString { inner: SStringInner::Singleton(other) }
    }
}

impl vstd::std_specs::convert::FromSpecImpl<&'static str> for SString {
    open spec fn obeys_from_spec() -> bool {
        true
    }

    open spec fn from_spec(v: &'static str) -> SString {
        spec_singleton(v)
    }
}

impl<'s> From<SStringRef<'s>> for SString {
    /// Materialize the view: copy a borrowed slice, reuse a permanent
    /// reference without copying.
    fn from(other: SStringRef<'s>) -> (r: Self)
        ensures
            r@ == other@,
            r.is_owned() == other.is_borrowed(),
    {
        other.to_owned()
    }
}

impl<'s> vstd::std_specs::convert::FromSpecImpl<SStringRef<'s>> for SString {
    open spec fn obeys_from_spec() -> bool {
        false
    }

    open spec fn from_spec(v: SStringRef<'s>) -> SString {
        arbitrary()
    }
}

impl<'s> From<&'s SStringRef<'s>> for SString {
    /// Materialize the view behind the reference.
    fn from(other: &'s SStringRef<'s>) -> (r: Self)
        ensures
            r@ == other@,
            r.is_owned() == other.is_borrowed(),
    {
        other.to_owned()
    }
}

impl<'s> vstd::std_specs::convert::FromSpecImpl<&'s SStringRef<'s>> for SString {
    open spec fn obeys_from_spec() -> bool {
        false
    }

    open spec fn from_spec(v: &'s SStringRef<'s>) -> SString {
        arbitrary()
    }
}

impl<'s> From<SStringCow<'s>> for SString {
    /// Materialize the copy-on-write value: an owned value is handed
    /// out unchanged, a borrowed view is materialized.
    fn from(other: SStringCow<'s>) -> (r: Self)
        ensures
            r@ == other@,
            (other.inner matches SStringCowInner::Owned(s) ==> r == s),
    {
        other.into_owned()
    }
}

impl<'s> vstd::std_specs::convert::FromSpecImpl<SStringCow<'s>> for SString {
    open spec fn obeys_from_spec() -> bool {
        false
    }

    open spec fn from_spec(v: SStringCow<'s>) -> SString {
        arbitrary()
    }
}

impl<'s> From<&'s SStringCow<'s>> for SString {
    /// Materialize the copy-on-write value behind the reference.
    fn from(other: &'s SStringCow<'s>) -> (r: Self)
        ensures
            r@ == other@,
    {
        other.clone().into_owned()
    }
}

impl<'s> vstd::std_specs::convert::FromSpecImpl<&'s SStringCow<'s>> for SString {
    open spec fn obeys_from_spec() -> bool {
        false
    }

    open spec fn from_spec(v: &'s SStringCow<'s>) -> SString {
        arbitrary()
    }
}

impl core::hash::Hash for SString {
    /// Relies on `str::hash`: the digest is computed from the character
    /// content alone, so values with equal content hash alike whatever
    /// their storage mode.
    #[verifier::external_body]
    fn hash<H: core::hash::Hasher>(&self, state: &mut H) {
        core::hash::Hash::hash(self.as_str(), state)
    }
}

} // verus!
