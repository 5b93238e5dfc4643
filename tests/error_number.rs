use linux_errno::Error;
use std::collections::hash_map::DefaultHasher;
use std::hash::{Hash, Hasher};

fn hash_of(e: &Error) -> u64 {
    let mut h = DefaultHasher::new();
    e.hash(&mut h);
    h.finish()
}

#[test]
fn new_accepts_every_errno() {
    for raw in 1u16..=4095 {
        let e = Error::new(raw);
        assert!(e.is_some(), "rejected {}", raw);
        assert_eq!(e.unwrap().get(), raw);
    }
}

#[test]
fn new_rejects_zero_and_above_range() {
    assert!(Error::new(0).is_none());
    assert!(Error::new(4096).is_none());
    assert!(Error::new(0x1000 + 1).is_none());
    assert!(Error::new(u16::MAX).is_none());
    for raw in 4096u16..=u16::MAX {
        assert!(Error::new(raw).is_none());
    }
}

#[test]
fn new_unchecked_keeps_number() {
    assert_eq!(Error::new_unchecked(1).get(), 1);
    assert_eq!(Error::new_unchecked(4095).get(), 4095);
    assert_eq!(Error::new_unchecked(110), Error::new(110).unwrap());
}

#[test]
fn equality_and_order_follow_number() {
    let a = Error::new(12).unwrap();
    let b = Error::new(12).unwrap();
    let c = Error::new(13).unwrap();
    assert!(a == b);
    assert!(b == a);
    assert!(a != c);
    assert!(a < c);
    assert!(c > b);
    assert!(a <= b && a >= b);
    assert_eq!(a.cmp(&c), std::cmp::Ordering::Less);
    assert_eq!(c.cmp(&a), std::cmp::Ordering::Greater);
    assert_eq!(a.partial_cmp(&b), Some(std::cmp::Ordering::Equal));
    assert_eq!(hash_of(&a), hash_of(&b));
    assert_eq!(std::cmp::max(a, c), c);
}

#[test]
fn round_trip_through_every_width() {
    for raw in 1u16..=4095 {
        let e = Error::new(raw).unwrap();
        assert_eq!(Error::new(u16::from(e)), Some(e));
        assert_eq!(Error::new(u32::from(e) as u16), Some(e));
        assert_eq!(Error::new(i32::from(e) as u16), Some(e));
        assert_eq!(Error::new(u64::from(e) as u16), Some(e));
        assert_eq!(Error::new(i64::from(e) as u16), Some(e));
        assert_eq!(u32::from(e), raw as u32);
        assert_eq!(i64::from(e), raw as i64);
    }
}

#[test]
fn equal_across_widths() {
    let e = Error::new(110).unwrap();
    assert!(e == 110i64);
    assert!(e == 110u16);
    assert!(e == std::num::NonZeroI32::new(110).unwrap().get());
    assert!(e == 110i16 && e == 110i32 && e == 110isize);
    assert!(e == 110u32 && e == 110u64 && e == 110usize);
    assert!(110i64 == e && 110u16 == e && 110i16 == e && 110isize == e);
    assert!(110i32 == e && 110u32 == e && 110u64 == e && 110usize == e);
    assert!(e != 111i64 && 111u16 != e);
}

#[test]
fn negative_signed_values_never_equal() {
    for raw in [1u16, 110, 4095] {
        let e = Error::new(raw).unwrap();
        assert!(e != -(raw as i16));
        assert!(-(raw as i16) != e);
        assert!(e != -(raw as isize));
        assert!(-(raw as isize) != e);
        assert!(e != -1i16 && e != i16::MIN && e != isize::MIN);
        assert!(e != -(raw as i32) && e != -(raw as i64));
    }
}

#[test]
fn debug_shows_number() {
    assert_eq!(format!("{:?}", Error::new(110).unwrap()), "Error(110)");
    assert_eq!(format!("{:?}", Error::new(4095).unwrap()), "Error(4095)");
}
