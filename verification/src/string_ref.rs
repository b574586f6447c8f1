//! A zero-copy, read-only view of UTF-8 text: either a slice borrowed
//! from some external owner, bound to that owner's lifetime, or a
//! reference to permanently-live text with no temporal bound.  The view
//! itself never owns allocated memory.

use vstd::prelude::*;
use core::cmp::Ordering;
use crate::order::lex_cmp;
use crate::order::str_compare;
use crate::order::str_eq;
use crate::string::SString;

verus! {

/// Storage of a [`SStringRef`]: a lifetime-bound borrow, or a reference
/// to text that lives for the remainder of the process.
#[derive(Clone, Copy, Debug)]
pub enum SStringRefInner<'s> {
    Borrowed(&'s str),
    Singleton(&'static str),
}

/// A reference to a UTF-8 string, borrowed or permanently live.
#[derive(Clone, Copy, Debug)]
pub struct SStringRef<'s> {
    pub inner: SStringRefInner<'s>,
}

impl<'s> View for SStringRef<'s> {
    type V = Seq<char>;

    open spec fn view(&self) -> Seq<char> {
        match self.inner {
            SStringRefInner::Borrowed(s) => s@,
            SStringRefInner::Singleton(s) => s@,
        }
    }
}

impl<'s> SStringRef<'s> {
    /// True when the view borrows from an external owner.
    pub open spec fn is_borrowed(&self) -> bool {
        self.inner is Borrowed
    }

    /// True when the view points at permanently-live text.
    pub open spec fn is_singleton(&self) -> bool {
        self.inner is Singleton
    }

    /// View caller-held text; the view is bound to the caller's lifetime.
    pub fn borrow(other: &'s str) -> (r: Self)
        ensures
            r.inner == SStringRefInner::Borrowed(other),
            r@ == other@,
            r.is_borrowed(),
    {
        SStringRef { inner: SStringRefInner::Borrowed(other) }
    }

    /// View `'static` text; the view has no temporal bound.
    pub fn singleton(other: &'static str) -> (r: Self)
        ensures
            r.inner == SStringRefInner::Singleton(other),
            r@ == other@,
            r.is_singleton(),
    {
        SStringRef { inner: SStringRefInner::Singleton(other) }
    }

    /// Extract the underlying string slice.
    pub fn as_str(&self) -> (r: &'s str)
        ensures
            r@ == self@,
    {
        match self.inner {
            SStringRefInner::Borrowed(s) => s,
            SStringRefInner::Singleton(s) => s,
        }
    }

    /// Materialize into an owned value.  A borrowed view is copied into
    /// a fresh buffer; a permanent reference is reused without copying,
    /// so the result owns a buffer exactly when the view was borrowed.
    pub fn to_owned(&self) -> (r: SString)
        ensures
            r@ == self@,
            r.is_owned() == self.is_borrowed(),
    {
        match self.inner {
            SStringRefInner::Borrowed(s) => SString::owned(s.to_owned()),
            SStringRefInner::Singleton(s) => SString::singleton(s),
        }
    }

    /// Total order by content; storage mode never enters the comparison.
    pub fn cmp(&self, other: &Self) -> (r: Ordering)
        ensures
            r == lex_cmp(self@, other@),
    {
        str_compare(self.as_str(), other.as_str())
    }
}

impl<'s> PartialEq for SStringRef<'s> {
    fn eq(&self, other: &SStringRef<'s>) -> (r: bool) {
        str_eq(self.as_str(), other.as_str())
    }
}

impl<'s> Eq for SStringRef<'s> {}

impl<'s> vstd::std_specs::cmp::PartialEqSpecImpl for SStringRef<'s> {
    open spec fn obeys_eq_spec() -> bool {
        true
    }

    open spec fn eq_spec(&self, other: &SStringRef<'s>) -> bool {
        self@ == other@
    }
}

impl<'s> PartialEq<str> for SStringRef<'s> {
    fn eq(&self, other: &str) -> (r: bool) {
        str_eq(self.as_str(), other)
    }
}

impl<'s> vstd::std_specs::cmp::PartialEqSpecImpl<str> for SStringRef<'s> {
    open spec fn obeys_eq_spec() -> bool {
        true
    }

    open spec fn eq_spec(&self, other: &str) -> bool {
        self@ == other@
    }
}

impl<'s, 'o> PartialEq<&'o str> for SStringRef<'s> {
    fn eq(&self, other: &&'o str) -> (r: bool) {
        str_eq(self.as_str(), *other)
    }
}

impl<'s, 'o> vstd::std_specs::cmp::PartialEqSpecImpl<&'o str> for SStringRef<'s> {
    open spec fn obeys_eq_spec() -> bool {
        true
    }

    open spec fn eq_spec(&self, other: &&'o str) -> bool {
        self@ == other@
    }
}

impl<'s> PartialEq<SString> for SStringRef<'s> {
    fn eq(&self, other: &SString) -> (r: bool) {
        str_eq(self.as_str(), other.as_str())
    }
}

impl<'s> vstd::std_specs::cmp::PartialEqSpecImpl<SString> for SStringRef<'s> {
    open spec fn obeys_eq_spec() -> bool {
        true
    }

    open spec fn eq_spec(&self, other: &SString) -> bool {
        self@ == other@
    }
}

impl<'s> core::hash::Hash for SStringRef<'s> {
    /// Relies on `str::hash`: the digest is computed from the character
    /// content alone, so a view hashes exactly as an owned value with
    /// the same content does.
    #[verifier::external_body]
    fn hash<H: core::hash::Hasher>(&self, state: &mut H) {
        core::hash::Hash::hash(self.as_str(), state)
    }
}

} // verus!
