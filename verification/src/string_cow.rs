//! A copy-on-write string value: it holds either a borrowed view or a
//! fully owned value, and defers any copy until ownership is actually
//! required.  Construction and cloning of the borrowed form never copy
//! the text; only the explicit materialization may, and it copies at
//! most once.

use vstd::prelude::*;
use core::cmp::Ordering;
use crate::order::lex_cmp;
use crate::order::str_compare;
use crate::order::str_eq;
use crate::string::SString;
use crate::string_ref::SStringRef;

verus! {

/// Storage of a [`SStringCow`]: a borrowed view, or an owned value.
#[derive(Debug)]
pub enum SStringCowInner<'s> {
    Borrowed(SStringRef<'s>),
    Owned(SString),
}

/// A UTF-8 string that may own its text or merely borrow it, copying
/// only when asked to hand out ownership.
#[derive(Debug)]
pub struct SStringCow<'s> {
    pub inner: SStringCowInner<'s>,
}

impl<'s> View for SStringCow<'s> {
    type V = Seq<char>;

    open spec fn view(&self) -> Seq<char> {
        match self.inner {
            SStringCowInner::Borrowed(r) => r@,
            SStringCowInner::Owned(s) => s@,
        }
    }
}

impl<'s> SStringCow<'s> {
    /// True when the value holds a borrowed view.
    pub open spec fn is_borrowed(&self) -> bool {
        self.inner is Borrowed
    }

    /// True when the value already holds an owned value.
    pub open spec fn is_owned(&self) -> bool {
        self.inner is Owned
    }

    /// Wrap a view; no copy is made.
    pub fn borrowed(other: SStringRef<'s>) -> (r: Self)
        ensures
            r.inner == SStringCowInner::Borrowed(other),
            r@ == other@,
            r.is_borrowed(),
    {
        SStringCow { inner: SStringCowInner::Borrowed(other) }
    }

    /// Wrap an already-owned value; no copy is made.
    pub fn owned(other: SString) -> (r: Self)
        ensures
            r.inner == SStringCowInner::Owned(other),
            r@ == other@,
            r.is_owned(),
    {
        SStringCow { inner: SStringCowInner::Owned(other) }
    }

    /// Extract a string slice containing the entire content.
    pub fn as_str(&self) -> (r: &str)
        ensures
            r@ == self@,
    {
        match &self.inner {
            SStringCowInner::Borrowed(s) => s.as_str(),
            SStringCowInner::Owned(s) => s.as_str(),
        }
    }

    /// Materialize into an owned value.  A value that already owns its
    /// text is handed out unchanged, with no copy; a borrowed view is
    /// materialized, copying exactly when the view was a borrow.
    pub fn into_owned(self) -> (r: SString)
        ensures
            r@ == self@,
            (match self.inner {
                SStringCowInner::Owned(s) => r == s,
                SStringCowInner::Borrowed(v) => r.is_owned() == v.is_borrowed(),
            }),
    {
        match self.inner {
            SStringCowInner::Borrowed(s) => s.to_owned(),
            SStringCowInner::Owned(s) => s,
        }
    }

    /// Report whether the value currently holds an owned value.
    pub fn owns_value(&self) -> (r: bool)
        ensures
            r == self.is_owned(),
    {
        matches!(self.inner, SStringCowInner::Owned(_))
    }

    /// Total order by content; storage mode never enters the comparison.
    pub fn cmp(&self, other: &Self) -> (r: Ordering)
        ensures
            r == lex_cmp(self@, other@),
    {
        str_compare(self.as_str(), other.as_str())
    }
}

impl<'s> Clone for SStringCow<'s> {
    /// Duplicate the storage tag: cloning a borrowed value copies only
    /// the view, never the text; cloning an owned value clones it.
    fn clone(&self) -> (r: Self)
        ensures
            r == *self,
    {
        match &self.inner {
            SStringCowInner::Borrowed(s) => SStringCow { inner: SStringCowInner::Borrowed(*s) },
            SStringCowInner::Owned(s) => SStringCow { inner: SStringCowInner::Owned(s.clone()) },
        }
    }
}

impl<'s> PartialEq for SStringCow<'s> {
    fn eq(&self, other: &SStringCow<'s>) -> (r: bool) {
        str_eq(self.as_str(), other.as_str())
    }
}

impl<'s> Eq for SStringCow<'s> {}

impl<'s> vstd::std_specs::cmp::PartialEqSpecImpl for SStringCow<'s> {
    open spec fn obeys_eq_spec() -> bool {
        true
    }

    open spec fn eq_spec(&self, other: &SStringCow<'s>) -> bool {
        self@ == other@
    }
}

impl<'s> PartialEq<str> for SStringCow<'s> {
    fn eq(&self, other: &str) -> (r: bool) {
        str_eq(self.as_str(), other)
    }
}

impl<'s> vstd::std_specs::cmp::PartialEqSpecImpl<str> for SStringCow<'s> {
    open spec fn obeys_eq_spec() -> bool {
        true
    }

    open spec fn eq_spec(&self, other: &str) -> bool {
        self@ == other@
    }
}

impl<'s, 'o> PartialEq<&'o str> for SStringCow<'s> {
    fn eq(&self, other: &&'o str) -> (r: bool) {
        str_eq(self.as_str(), *other)
    }
}

impl<'s, 'o> vstd::std_specs::cmp::PartialEqSpecImpl<&'o str> for SStringCow<'s> {
    open spec fn obeys_eq_spec() -> bool {
        true
    }

    open spec fn eq_spec(&self, other: &&'o str) -> bool {
        self@ == other@
    }
}

impl<'s> PartialEq<SString> for SStringCow<'s> {
    fn eq(&self, other: &SString) -> (r: bool) {
        str_eq(self.as_str(), other.as_str())
    }
}

impl<'s> vstd::std_specs::cmp::PartialEqSpecImpl<SString> for SStringCow<'s> {
    open spec fn obeys_eq_spec() -> bool {
        true
    }

    open spec fn eq_spec(&self, other: &SString) -> bool {
        self@ == other@
    }
}

impl<'s> From<SStringRef<'s>> for SStringCow<'s> {
    /// Wrap the view; no copy is made.
    fn from(other: SStringRef<'s>) -> (r: Self) {
        SStringCow { inner: SStringCowInner::Borrowed(other) }
    }
}

impl<'s> vstd::std_specs::convert::FromSpecImpl<SStringRef<'s>> for SStringCow<'s> {
    open spec fn obeys_from_spec() -> bool {
        true
    }

    open spec fn from_spec(v: SStringRef<'s>) -> SStringCow<'s> {
        SStringCow { inner: SStringCowInner::Borrowed(v) }
    }
}

impl<'s> From<SString> for SStringCow<'s> {
    /// Wrap the owned value; no copy is made.
    fn from(other: SString) -> (r: Self) {
        SStringCow { inner: SStringCowInner::Owned(other) }
    }
}

impl<'s> vstd::std_specs::convert::FromSpecImpl<SString> for SStringCow<'s> {
    open spec fn obeys_from_spec() -> bool {
        true
    }

    open spec fn from_spec(v: SString) -> SStringCow<'s> {
        SStringCow { inner: SStringCowInner::Owned(v) }
    }
}

impl<'s> From<String> for SStringCow<'s> {
    /// Take ownership of the buffer; the result holds an owned value.
    fn from(other: String) -> (r: Self) {
        SStringCow { inner: SStringCowInner::Owned(SString::owned(other)) }
    }
}

impl<'s> vstd::std_specs::convert::FromSpecImpl<String> for SStringCow<'s> {
    open spec fn obeys_from_spec() -> bool {
        true
    }

    open spec fn from_spec(v: String) -> SStringCow<'s> {
        SStringCow { inner: SStringCowInner::Owned(crate::string::spec_owned(v)) }
    }
}

impl<'s> From<&'static str> for SStringCow<'s> {
    /// Keep the permanent reference as a view; no allocation, no copy.
    fn from(other: &'static str) -> (r: Self) {
        SStringCow { inner: SStringCowInner::Borrowed(SStringRef::singleton(other)) }
    }
}

impl<'s> vstd::std_specs::convert::FromSpecImpl<&'static str> for SStringCow<'s> {
    open spec fn obeys_from_spec() -> bool {
        true
    }

    open spec fn from_spec(v: &'static str) -> SStringCow<'s> {
        SStringCow {
            inner: SStringCowInner::Borrowed(
                SStringRef { inner: crate::string_ref::SStringRefInner::Singleton(v) },
            ),
        }
    }
}

impl<'s> core::hash::Hash for SStringCow<'s> {
    /// Relies on `str::hash`: the digest is computed from the character
    /// content alone, so both storage modes hash exactly as an owned
    /// value with the same content does.
    #[verifier::external_body]
    fn hash<H: core::hash::Hasher>(&self, state: &mut H) {
        core::hash::Hash::hash(self.as_str(), state)
    }
}

} // verus!
