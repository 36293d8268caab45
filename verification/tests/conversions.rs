use usize_conversions::UsizeFrom;
use usize_conversions::UsizeInto;

fn narrow_to<T: UsizeFrom<usize>>(value: usize) -> T {
    T::from(value)
}

#[test]
fn generic_callers_resolve_the_capability() {
    let narrowed: u16 = narrow_to::<u16>(70000usize);
    assert_eq!(narrowed, 4464u16);
    let widened: u64 = narrow_to::<u64>(70000usize);
    assert_eq!(widened, 70000u64);
}

#[test]
fn widening_keeps_small_values() {
    let from_u8: usize = <usize as UsizeFrom<u8>>::from(255u8);
    assert_eq!(from_u8, 255usize);
    let from_u16: usize = <usize as UsizeFrom<u16>>::from(65535u16);
    assert_eq!(from_u16, 65535usize);
    let from_u32: usize = <usize as UsizeFrom<u32>>::from(4294967295u32);
    assert_eq!(from_u32, 4294967295usize);
    let from_u64: usize = <usize as UsizeFrom<u64>>::from(77u64);
    assert_eq!(from_u64, 77usize);
}

#[test]
fn two_to_the_thirty_two_truncates_to_zero_as_u32() {
    let converted: u32 = <u32 as UsizeFrom<usize>>::from(4294967296usize);
    assert_eq!(converted, 0u32);
}

#[test]
fn small_value_is_kept_as_u8() {
    let converted: u8 = <u8 as UsizeFrom<usize>>::from(42usize);
    assert_eq!(converted, 42u8);
}

#[test]
fn full_u8_range_comes_back_as_usize() {
    let converted: usize = <usize as UsizeFrom<u8>>::from(255u8);
    assert_eq!(converted, 255usize);
}

#[test]
fn narrowing_truncates_to_low_order_bits() {
    let as_u8: u8 = <u8 as UsizeFrom<usize>>::from(0x1_0203usize);
    assert_eq!(as_u8, 0x03u8);
    let as_u16: u16 = <u16 as UsizeFrom<usize>>::from(0x1_0203usize);
    assert_eq!(as_u16, 0x0203u16);
    let as_u32: u32 = <u32 as UsizeFrom<usize>>::from(0x1_0000_0001usize);
    assert_eq!(as_u32, 1u32);
    let modulo: u8 = <u8 as UsizeFrom<usize>>::from(300usize);
    assert_eq!(modulo, 44u8);
}

#[test]
fn round_trips_keep_values_in_range() {
    let through_u8: usize =
        <usize as UsizeFrom<u8>>::from(<u8 as UsizeFrom<usize>>::from(200usize));
    assert_eq!(through_u8, 200usize);
    let through_u16: usize =
        <usize as UsizeFrom<u16>>::from(<u16 as UsizeFrom<usize>>::from(65535usize));
    assert_eq!(through_u16, 65535usize);
    let through_u32: usize =
        <usize as UsizeFrom<u32>>::from(<u32 as UsizeFrom<usize>>::from(4294967295usize));
    assert_eq!(through_u32, 4294967295usize);
    let through_u64: usize =
        <usize as UsizeFrom<u64>>::from(<u64 as UsizeFrom<usize>>::from(usize::MAX));
    assert_eq!(through_u64, usize::MAX);
}

#[test]
fn reverse_conversion_agrees_with_forward() {
    let forward_u8: u8 = <u8 as UsizeFrom<usize>>::from(4919usize);
    let reverse_u8: u8 = <usize as UsizeInto<u8>>::into(4919usize);
    assert_eq!(forward_u8, reverse_u8);
    let forward_u32: u32 = <u32 as UsizeFrom<usize>>::from(4294967296usize);
    let reverse_u32: u32 = <usize as UsizeInto<u32>>::into(4294967296usize);
    assert_eq!(forward_u32, reverse_u32);
    let forward_usize: usize = <usize as UsizeFrom<u16>>::from(512u16);
    let reverse_usize: usize = <u16 as UsizeInto<usize>>::into(512u16);
    assert_eq!(forward_usize, reverse_usize);
}

#[test]
fn reverse_conversion_scenarios() {
    let into_u32: u32 = <usize as UsizeInto<u32>>::into(4294967296usize);
    assert_eq!(into_u32, 0u32);
    let into_u8: u8 = <usize as UsizeInto<u8>>::into(42usize);
    assert_eq!(into_u8, 42u8);
    let into_usize: usize = <u8 as UsizeInto<usize>>::into(255u8);
    assert_eq!(into_usize, 255usize);
}
