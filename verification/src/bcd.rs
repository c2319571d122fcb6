use vstd::prelude::*;

verus! {

/// The decimal value encoded by the packed-BCD byte `b`: ten times the high
/// nibble plus the low nibble.
pub open spec fn bcd_decode(b: u8) -> int {
    ((b & 0xf0) >> 4) * 10 + (b & 0x0f)
}

/// The packed-BCD sum of `b1` and `b2`: both are decoded, the decimal values
/// are added (wrapping at 256), and the result is re-packed with the tens in
/// the high nibble and the ones in the low nibble.
pub open spec fn bcd_sum(b1: u8, b2: u8) -> u8 {
    let sum = ((bcd_decode(b1) + bcd_decode(b2)) % 256) as u8;
    ((sum / 10) << 4) | (sum % 10)
}

/// Add two packed-BCD bytes digit pair by digit pair.
///
/// For operands whose decimal values sum below 160 — every pair of valid
/// packed-BCD bytes whose sum stays below that bound — the result is the
/// packed encoding of the decimal sum.
pub fn bcd_add_u8(b1: u8, b2: u8) -> (r: u8)
    ensures
        r == bcd_sum(b1, b2),
        bcd_decode(b1) + bcd_decode(b2) < 160 ==> r == 16 * ((bcd_decode(b1) + bcd_decode(b2))
            / 10) + (bcd_decode(b1) + bcd_decode(b2)) % 10,
{
    proof {
        assert(b1 & 0x0f < 16 && (b1 & 0xf0) >> 4 < 16 && b2 & 0x0f < 16 && (b2 & 0xf0) >> 4
            < 16) by (bit_vector);
    }
    let b1_ll: u8 = b1 & 0x0f;
    let b1_hh: u8 = (b1 & 0xf0) >> 4;
    let d1: u8 = b1_hh * 10 + b1_ll;

    let b2_ll: u8 = b2 & 0x0f;
    let b2_hh: u8 = (b2 & 0xf0) >> 4;
    let d2: u8 = b2_hh * 10 + b2_ll;

    let sum: u8 = d1.wrapping_add(d2);

    let sum_tens: u8 = (sum / 10) << 4;
    let sum_ones: u8 = sum % 10;

    proof {
        let s = sum;
        assert(s < 160 ==> (((s / 10) << 4) | (s % 10)) == 16 * (s / 10) + s % 10) by (bit_vector);
    }

    sum_tens | sum_ones
}

} // verus!
