use mini6502::util;
use mini6502::util::{combine_u8_to_u16, wrapping_add_same_page};

#[test]
fn test_wrapping_add_same_page() {
    let addr = 0x12FF;
    let displ = 4;
    let new_addr = wrapping_add_same_page(addr, displ);
    assert_eq!(new_addr, 0x1203);
}

#[test]
fn test_combine_u8_into_u16() {
    let hh = 0x90;
    let ll = 0x45;
    let hhll = combine_u8_to_u16(hh, ll);
    assert_eq!(hhll, 0x9045);
}

#[test]
fn test_overflow() {
    // (+64) + (+65) = -127 in two's complement logic, which is an overflow error
    assert!(util::test_overflow(0b01000000, 0b01000001));
    // (-1) + (-1) = -2 which is correct, so no flag
    assert!(!util::test_overflow(0b11111111, 0b11111111));
    // (-64) + (-65) = +127 in two's complement logic, which is an overflow error
    assert!(util::test_overflow(0b11000000, 0b10111111));
}
