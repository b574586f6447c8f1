use sstring::SString;
use sstring::SStringCow;
use sstring::SStringRef;
use std::cmp::Ordering;
use std::collections::hash_map::DefaultHasher;
use std::hash::Hash;
use std::hash::Hasher;

fn content_hash<T: Hash>(v: &T) -> u64 {
    let mut h = DefaultHasher::new();
    v.hash(&mut h);
    h.finish()
}

fn str_hash(s: &str) -> u64 {
    let mut h = DefaultHasher::new();
    s.hash(&mut h);
    h.finish()
}

#[test]
fn empty_is_zero_length_and_equals_owned_empty() {
    let a = SString::new();
    assert_eq!(a.as_str(), "");
    assert_eq!(a.as_str().len(), 0);
    assert!(!a.owns_buffer());
    let b = SString::owned(String::new());
    assert!(b.owns_buffer());
    assert_eq!(a, b);
    assert_eq!(SString::default(), a);
}

#[test]
fn singleton_view_to_owned_equals_owned_buffer() {
    let v = SStringRef::singleton("ok");
    let a = v.to_owned();
    let b = SString::owned(String::from("ok"));
    assert_eq!(a, b);
    assert_eq!(a, "ok");
    assert_eq!(b, "ok");
    // the permanent reference is reused, not copied
    assert!(!a.owns_buffer());
}

#[test]
fn decoding_yields_owned_mode() {
    // the persisted form of a value is its content string alone
    let v = SString::singleton("x");
    let scalar = String::from(v.as_str());
    let d = SString::from(scalar);
    assert!(d.owns_buffer());
    assert_eq!(d.as_str(), "x");
    assert_eq!(d, v);
}

#[test]
fn round_trip_preserves_content_for_every_mode() {
    let values = [
        SString::singleton("perm"),
        SString::owned(String::from("heap")),
        SString::new(),
    ];
    for v in values {
        let scalar = String::from(v.as_str());
        let d = SString::from(scalar);
        assert_eq!(d.as_str(), v.as_str());
        assert!(d.owns_buffer());
    }
}

#[test]
fn cow_from_borrowed_materializes_once() {
    let text = String::from("hi");
    let c = SStringCow::borrowed(SStringRef::borrow(text.as_str()));
    assert!(!c.owns_value());
    let o = c.into_owned();
    assert_eq!(o.as_str(), "hi");
    assert!(o.owns_buffer());
}

#[test]
fn materialization_is_idempotent() {
    let c: SStringCow = SStringCow::from(String::from("stable"));
    let first = c.into_owned();
    assert!(first.owns_buffer());
    let again = SStringCow::from(first.clone()).into_owned();
    assert_eq!(again, first);
    assert_eq!(again.as_str(), "stable");
    assert!(again.owns_buffer());
}

#[test]
fn borrowed_construction_stays_borrowed_until_materialized() {
    let text = String::from("later");
    let v = SStringRef::borrow(text.as_str());
    let c = SStringCow::borrowed(v);
    assert!(!c.owns_value());
    let c2 = c.clone();
    assert!(!c2.owns_value());
    assert_eq!(c2.as_str(), "later");
    let o = c2.into_owned();
    assert!(o.owns_buffer());
    // a view of permanent text never forces a copy
    let p: SStringCow = SStringCow::from("fixed");
    assert!(!p.owns_value());
    assert!(!p.into_owned().owns_buffer());
}

#[test]
fn equality_ignores_storage_mode() {
    let perm = SString::singleton("same");
    let heap = SString::owned(String::from("same"));
    assert_eq!(perm, heap);
    assert_eq!(heap, perm);
    assert_eq!(perm, "same");
    assert_eq!(heap, "same");
    assert_eq!(perm, String::from("same"));
    let other = SString::owned(String::from("other"));
    assert_ne!(perm, other);
    let v = SStringRef::borrow("same");
    assert_eq!(v, perm);
    assert_eq!(v, "same");
    let c = SStringCow::owned(SString::singleton("same"));
    assert_eq!(c, heap);
    assert_eq!(c, "same");
}

#[test]
fn ordering_is_content_ordering_for_every_mode_pairing() {
    let cases = [("a", "b"), ("", "a"), ("ab", "abc"), ("b", "b"), ("z", "y")];
    for (l, r) in cases {
        let expected = l.cmp(r);
        let owned_l = SString::owned(String::from(l));
        let owned_r = SString::owned(String::from(r));
        let perm_l = SString::singleton(l);
        let perm_r = SString::singleton(r);
        assert_eq!(owned_l.cmp(&owned_r), expected);
        assert_eq!(owned_l.cmp(&perm_r), expected);
        assert_eq!(perm_l.cmp(&owned_r), expected);
        assert_eq!(perm_l.cmp(&perm_r), expected);
        assert_eq!(owned_l.partial_cmp(&perm_r), Some(expected));
        assert_eq!(SStringRef::borrow(l).cmp(&SStringRef::singleton(r)), expected);
        let cow_l: SStringCow = SStringCow::from(String::from(l));
        let cow_r = SStringCow::borrowed(SStringRef::singleton(r));
        assert_eq!(cow_l.cmp(&cow_r), expected);
    }
    assert!(SString::singleton("a") < SString::owned(String::from("b")));
}

#[test]
fn hash_agrees_with_equality_across_modes() {
    let perm = SString::singleton("hashed");
    let heap = SString::owned(String::from("hashed"));
    assert_eq!(perm, heap);
    assert_eq!(content_hash(&perm), content_hash(&heap));
    // the digest is the content's own, not one of the storage tag
    assert_eq!(content_hash(&perm), str_hash("hashed"));
    assert_ne!(content_hash(&perm), content_hash(&SString::singleton("planet")));
    let view = SStringRef::borrow("hashed");
    let cow = SStringCow::borrowed(SStringRef::singleton("hashed"));
    assert_eq!(content_hash(&view), str_hash("hashed"));
    assert_eq!(content_hash(&cow), str_hash("hashed"));
}

#[test]
fn sorting_mixed_modes_orders_by_content() {
    let mut values = vec![
        SString::owned(String::from("b")),
        SString::singleton("a"),
        SString::owned(String::from("c")),
    ];
    values.sort_by(|x, y| x.cmp(y));
    let slices: Vec<&str> = values.iter().map(|v| v.as_str()).collect();
    assert_eq!(slices, vec!["a", "b", "c"]);
}

#[test]
fn into_mut_returns_content_for_both_modes() {
    let heap = SString::owned(String::from("own"));
    assert_eq!(heap.into_mut(), String::from("own"));
    let perm = SString::singleton("copy");
    assert_eq!(perm.into_mut(), String::from("copy"));
}

#[test]
fn as_ref_view_matches_storage() {
    let heap = SString::owned(String::from("view"));
    let v = heap.as_ref();
    assert_eq!(v.as_str(), "view");
    // a borrowed view materializes by copying
    assert!(v.to_owned().owns_buffer());
    let perm = SString::singleton("live");
    let w = perm.as_ref();
    assert_eq!(w.as_str(), "live");
    // a permanent view materializes without copying
    assert!(!w.to_owned().owns_buffer());
}

#[test]
fn conversions_between_family_members_preserve_content() {
    let v = SStringRef::borrow("across");
    assert_eq!(SString::from(v).as_str(), "across");
    assert_eq!(SString::from(&v).as_str(), "across");
    let c = SStringCow::borrowed(SStringRef::singleton("across"));
    assert_eq!(SString::from(&c).as_str(), "across");
    assert_eq!(SString::from(c).as_str(), "across");
    let s: SString = "literal".into();
    assert!(!s.owns_buffer());
    assert_eq!(s.as_str(), "literal");
    let t: SString = String::from("buffer").into();
    assert!(t.owns_buffer());
    assert_eq!(t.as_str(), "buffer");
    let u: SStringCow = SStringCow::from(SStringRef::borrow("wrap"));
    assert_eq!(u.as_str(), "wrap");
    let w: SStringCow = SStringCow::from(SString::singleton("keep"));
    assert!(w.owns_value());
    assert_eq!(w.as_str(), "keep");
}

#[test]
fn comparison_handles_multibyte_characters() {
    let a = SString::singleton("caf\u{e9}");
    let b = SString::owned(String::from("caf\u{e9}"));
    assert_eq!(a, b);
    assert_eq!(a.cmp(&b), Ordering::Equal);
    let c = SString::singleton("caf");
    assert_eq!(c.cmp(&a), Ordering::Less);
    assert_eq!(a.cmp(&c), Ordering::Greater);
    // code-point order, as plain strings compare
    let d = SString::singleton("z");
    assert_eq!(a.cmp(&d), "caf\u{e9}".cmp("z"));
}

#[test]
fn cloning_preserves_content_and_mode() {
    let heap = SString::owned(String::from("dup"));
    let heap2 = heap.clone();
    assert_eq!(heap2, heap);
    assert!(heap2.owns_buffer());
    let perm = SString::singleton("tag");
    let perm2 = perm.clone();
    assert_eq!(perm2, perm);
    assert!(!perm2.owns_buffer());
}
