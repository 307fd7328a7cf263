use ticket_store::saturating::SaturatingU16;

#[test]
fn converts_from_every_source() {
    let a: SaturatingU16 = (&10u8).into();
    let b: SaturatingU16 = 5u8.into();
    let c: SaturatingU16 = u16::MAX.into();
    let d: SaturatingU16 = (&1u16).into();
    assert_eq!(a.value(), 10);
    assert_eq!(b.value(), 5);
    assert_eq!(c.value(), u16::MAX);
    assert_eq!(d.value(), 1);
}

#[test]
fn adds_and_saturates() {
    let a: SaturatingU16 = (&10u8).into();
    let b: SaturatingU16 = 5u8.into();
    let c: SaturatingU16 = u16::MAX.into();
    let d: SaturatingU16 = (&1u16).into();

    assert_eq!(a + b, SaturatingU16::from(15u16));
    assert_eq!(a + c, SaturatingU16::from(u16::MAX));
    assert_eq!(a + d, SaturatingU16::from(11u16));
    assert_eq!(a + a, 20u16);
    assert_eq!(a + 5u16, 15u16);
    assert_eq!(a + &u16::MAX, SaturatingU16::from(u16::MAX));
}

#[test]
fn adds_a_borrowed_saturating_value() {
    let a = SaturatingU16::from(65_000u16);
    let b = SaturatingU16::from(535u16);
    let c = SaturatingU16::from(536u16);
    assert_eq!(a + &b, 65_535u16);
    assert_eq!(a + &c, 65_535u16);
    assert_eq!((a + &b).value(), u16::MAX);
}

#[test]
fn sum_just_below_the_limit_is_exact() {
    let a = SaturatingU16::from(65_534u16);
    assert_eq!(a + 0u16, 65_534u16);
    assert_eq!(a + 1u16, 65_535u16);
    assert_eq!(a + 2u16, 65_535u16);
    assert_eq!(SaturatingU16::from(0u8) + 0u16, 0u16);
}

#[test]
fn compares_with_itself_and_with_u16() {
    let a = SaturatingU16::from(7u8);
    assert!(a == SaturatingU16::from(7u16));
    assert!(a != SaturatingU16::from(8u16));
    assert!(a == 7u16);
    assert!(a != 8u16);
}

#[test]
fn prints_its_debug_form() {
    let a = SaturatingU16::from(3u8);
    assert_eq!(format!("{:?}", a), "SaturatingU16 { value: 3 }");
}
