//! The guarantees that hold across the whole value family, stated once
//! and proved: storage mode is never observable through equality or
//! ordering, and the persisted form round-trips content exactly.

use vstd::prelude::*;
use vstd::std_specs::cmp::PartialEqSpec;
use vstd::std_specs::cmp::PartialOrdSpec;
use core::cmp::Ordering;
use crate::order::lex_cmp;
use crate::order::lemma_lex_cmp_equal_iff;
use crate::order::lemma_lex_cmp_antisymmetric;
use crate::string::SString;
use crate::string::spec_owned;
use crate::string::spec_singleton;
use crate::string_cow::SStringCow;
use crate::string_ref::SStringRef;

verus! {

/// Equality is content equality, for every mode pairing: any two
/// values holding the same character sequence are equal, and equal
/// values hold the same character sequence, whatever their storage.
pub proof fn lemma_eq_ignores_storage_mode(a: SString, b: SString)
    ensures
        a.eq_spec(&b) <==> a@ == b@,
{
}

/// Every construction path to the same text yields equal values: a
/// permanent reference, an owned copy of the same characters, and the
/// owned value a decoded scalar produces are all equal to one another.
pub proof fn lemma_constructions_agree(p: &'static str, b: String)
    requires
        b@ == p@,
    ensures
        spec_singleton(p).eq_spec(&spec_owned(b)),
        spec_owned(b).eq_spec(&spec_singleton(p)),
        spec_singleton(p)@ == spec_owned(b)@,
{
}

/// The same, across the value family: a borrowed view and a
/// copy-on-write value with the same content as an owned value are
/// equal to it, whatever modes the three are in.
pub proof fn lemma_family_eq_ignores_storage_mode(a: SString, r: SStringRef, c: SStringCow)
    requires
        r@ == a@,
        c@ == a@,
    ensures
        r.eq_spec(&a),
        c.eq_spec(&a),
        r@ == c@,
{
}

/// Ordering is the ordering of the text content: comparison returns
/// the lexicographic order of the character sequences, that order
/// reports `Equal` exactly for equal content, and it is antisymmetric.
/// Storage mode never enters the comparison.
pub proof fn lemma_order_is_content_order(a: SString, b: SString)
    ensures
        a.partial_cmp_spec(&b) == Some(lex_cmp(a@, b@)),
        lex_cmp(a@, b@) == Ordering::Equal <==> a@ == b@,
        lex_cmp(a@, b@) == Ordering::Less <==> lex_cmp(b@, a@) == Ordering::Greater,
        lex_cmp(a@, b@) == Ordering::Equal <==> a.eq_spec(&b),
{
    lemma_lex_cmp_equal_iff(a@, b@);
    lemma_lex_cmp_antisymmetric(a@, b@);
}

/// The persisted form of a value is its content string alone, and
/// decoding wraps the received buffer in owned storage.  Hence a
/// round trip preserves the content exactly and always lands in
/// owned-buffer mode, whatever mode the encoded value was in.
pub proof fn lemma_codec_round_trip(v: SString, s: String)
    requires
        s@ == v@,
    ensures
        spec_owned(s)@ == v@,
        spec_owned(s).is_owned(),
{
}

} // verus!
