use pgx_pg_sys::datum::{Datum, NullableDatum};
use pgx_pg_sys::range::RangeBound;
use std::collections::hash_map::DefaultHasher;
use std::hash::{Hash, Hasher};

#[test]
fn datum_from_usize_and_back() {
    let d = Datum::from(42usize);
    assert_eq!(d.value(), 42);
    assert_eq!(usize::from(d), 42);
    assert!(!d.is_null());
    assert!(Datum::from(0usize).is_null());
}

#[test]
fn datum_from_small_integers() {
    assert_eq!(Datum::from(7u8).value(), 7);
    assert_eq!(Datum::from(65535u16).value(), 65535);
    assert_eq!(Datum::from(4000000000u32).value(), 4000000000usize);
    assert_eq!(Datum::from(true).value(), 1);
    assert_eq!(Datum::from(false).value(), 0);
}

#[test]
fn datum_from_signed_sign_extends() {
    assert_eq!(Datum::from(-1i8).value(), usize::MAX);
    assert_eq!(Datum::from(-1i16).value(), usize::MAX);
    assert_eq!(Datum::from(-1i32).value(), usize::MAX);
    assert_eq!(Datum::from(-2isize).value(), usize::MAX - 1);
    assert_eq!(Datum::from(5i64).value(), 5);
    assert_eq!(Datum::from(-1i64).value(), usize::MAX);
}

#[test]
fn datum_equality_is_by_word() {
    assert_eq!(Datum::from(9u8), Datum::from(9usize));
    assert_ne!(Datum::from(9u8), Datum::from(10u8));
}

#[test]
fn nullable_datum_conversions() {
    let present = NullableDatum { value: Datum::from(3usize), isnull: false };
    let null = NullableDatum { value: Datum::from(3usize), isnull: true };
    assert_eq!(Datum::try_from(present), Ok(Datum::from(3usize)));
    assert_eq!(Datum::try_from(null), Err(()));
    assert_eq!(Option::<Datum>::from(present), Some(Datum::from(3usize)));
    assert_eq!(Option::<Datum>::from(null), None);
}

fn hash_of(b: &RangeBound) -> u64 {
    let mut h = DefaultHasher::new();
    b.hash(&mut h);
    h.finish()
}

#[test]
fn range_bound_equality_and_hash() {
    let a = RangeBound { val: Datum::from(5usize), infinite: false, inclusive: true, lower: true };
    let b = RangeBound { val: Datum::from(5usize), infinite: false, inclusive: true, lower: true };
    let c = RangeBound { val: Datum::from(5usize), infinite: false, inclusive: false, lower: true };
    let d = RangeBound { val: Datum::from(6usize), infinite: false, inclusive: true, lower: true };
    assert!(a == b);
    assert!(a != c);
    assert!(a != d);
    assert_eq!(hash_of(&a), hash_of(&b));
}

#[test]
fn range_bound_hash_feeds_word_then_flags() {
    let a = RangeBound { val: Datum::from(77usize), infinite: true, inclusive: false, lower: true };
    let mut expected = DefaultHasher::new();
    expected.write_usize(77);
    expected.write_u8(1);
    expected.write_u8(0);
    expected.write_u8(1);
    assert_eq!(hash_of(&a), expected.finish());
}
