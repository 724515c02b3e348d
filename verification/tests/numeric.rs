use slider::numeric::Numeric;

#[test]
fn widen_keeps_the_number() {
    assert_eq!(7u8.widen(), 7i128);
    assert_eq!(u16::MAX.widen(), 65_535i128);
    assert_eq!(u32::MAX.widen(), 4_294_967_295i128);
    assert_eq!(u64::MAX.widen(), 18_446_744_073_709_551_615i128);
    assert_eq!(i16::MIN.widen(), -32_768i128);
    assert_eq!((-5i32).widen(), -5i128);
    assert_eq!(i64::MIN.widen(), -9_223_372_036_854_775_808i128);
}

#[test]
fn unit_is_one() {
    assert_eq!(<u8 as Numeric>::unit(), 1u8);
    assert_eq!(<u16 as Numeric>::unit(), 1u16);
    assert_eq!(<u32 as Numeric>::unit(), 1u32);
    assert_eq!(<u64 as Numeric>::unit(), 1u64);
    assert_eq!(<i16 as Numeric>::unit(), 1i16);
    assert_eq!(<i32 as Numeric>::unit(), 1i32);
    assert_eq!(<i64 as Numeric>::unit(), 1i64);
}

#[test]
fn narrow_u8_at_its_limits() {
    assert_eq!(<u8 as Numeric>::narrow(0), Some(0u8));
    assert_eq!(<u8 as Numeric>::narrow(200), Some(200u8));
    assert_eq!(<u8 as Numeric>::narrow(255), Some(255u8));
    assert_eq!(<u8 as Numeric>::narrow(256), None);
    assert_eq!(<u8 as Numeric>::narrow(-1), None);
}

#[test]
fn narrow_u16_at_its_limits() {
    assert_eq!(<u16 as Numeric>::narrow(0), Some(0u16));
    assert_eq!(<u16 as Numeric>::narrow(65_535), Some(u16::MAX));
    assert_eq!(<u16 as Numeric>::narrow(65_536), None);
    assert_eq!(<u16 as Numeric>::narrow(-1), None);
}

#[test]
fn narrow_u32_at_its_limits() {
    assert_eq!(<u32 as Numeric>::narrow(0), Some(0u32));
    assert_eq!(<u32 as Numeric>::narrow(4_294_967_295), Some(u32::MAX));
    assert_eq!(<u32 as Numeric>::narrow(4_294_967_296), None);
    assert_eq!(<u32 as Numeric>::narrow(-1), None);
}

#[test]
fn narrow_u64_at_its_limits() {
    assert_eq!(<u64 as Numeric>::narrow(0), Some(0u64));
    assert_eq!(<u64 as Numeric>::narrow(18_446_744_073_709_551_615), Some(u64::MAX));
    assert_eq!(<u64 as Numeric>::narrow(18_446_744_073_709_551_616), None);
    assert_eq!(<u64 as Numeric>::narrow(-1), None);
}

#[test]
fn narrow_i16_at_its_limits() {
    assert_eq!(<i16 as Numeric>::narrow(-32_768), Some(i16::MIN));
    assert_eq!(<i16 as Numeric>::narrow(32_767), Some(i16::MAX));
    assert_eq!(<i16 as Numeric>::narrow(-32_769), None);
    assert_eq!(<i16 as Numeric>::narrow(32_768), None);
}

#[test]
fn narrow_i32_at_its_limits() {
    assert_eq!(<i32 as Numeric>::narrow(-2_147_483_648), Some(i32::MIN));
    assert_eq!(<i32 as Numeric>::narrow(2_147_483_647), Some(i32::MAX));
    assert_eq!(<i32 as Numeric>::narrow(-2_147_483_649), None);
    assert_eq!(<i32 as Numeric>::narrow(2_147_483_648), None);
    assert_eq!(<i32 as Numeric>::narrow(-75), Some(-75i32));
}

#[test]
fn narrow_i64_at_its_limits() {
    assert_eq!(<i64 as Numeric>::narrow(-9_223_372_036_854_775_808), Some(i64::MIN));
    assert_eq!(<i64 as Numeric>::narrow(9_223_372_036_854_775_807), Some(i64::MAX));
    assert_eq!(<i64 as Numeric>::narrow(-9_223_372_036_854_775_809), None);
    assert_eq!(<i64 as Numeric>::narrow(9_223_372_036_854_775_808), None);
}
