use vstd::prelude::*;

use crate::cpu::Cpu;
use crate::memory::{rom_image, Memory, SimpleMemory};
use crate::state::{mem_read, CpuState, FLAGS_DEFAULT, STACK_ADDR_DEFAULT};

verus! {

/// The machine code that assembling the 6502 source text `src` yields, or
/// `None` where the text does not assemble.  The image is a function of the
/// text alone.
pub uninterp spec fn assembled(src: Seq<char>) -> Option<Seq<u8>>;

/// Relies on asm6502::assemble: it parses the assembly text and writes the
/// machine code to the output buffer, or reports an error string; both
/// depend on the text alone.
#[verifier::external_body]
fn assemble_asm(source: &str) -> (r: Result<Vec<u8>, String>)
    ensures
        match r {
            Ok(bytes) => assembled(source@) == Some(bytes@),
            Err(_) => assembled(source@) is None,
        },
{
    let mut bin = Vec::new();
    match asm6502::assemble(source.as_bytes(), &mut bin) {
        Ok(()) => Ok(bin),
        Err(msg) => Err(msg),
    }
}

/// Assemble the 6502 source text and place the machine code in a fresh store at address 0.
pub fn new_mem_with_asm(source: &str) -> (r: Result<SimpleMemory, String>)
    ensures
        match r {
            Ok(mem) => {
                &&& mem.inv()
                &&& assembled(source@) matches Some(bytes) && mem.contents() == rom_image(bytes)
            },
            Err(_) => assembled(source@) is None,
        },
{
    match assemble_asm(source) {
        Ok(bin) => Ok(SimpleMemory::from_rom(bin.as_slice())),
        Err(msg) => Err(msg),
    }
}

/// Assemble the 6502 source text and build a CPU whose store holds the machine code at
/// address 0.
pub fn new_cpu_with_asm(source: &str) -> (r: Result<Cpu<SimpleMemory>, String>)
    ensures
        match r {
            Ok(cpu) => {
                &&& cpu.wf()
                &&& assembled(source@) matches Some(bytes) && cpu@ == (CpuState {
                    pc: word(
                        mem_read(rom_image(bytes), 0xFFFC),
                        mem_read(rom_image(bytes), 0xFFFD),
                    ),
                    ac: 0,
                    x: 0,
                    y: 0,
                    p: FLAGS_DEFAULT,
                    sp: STACK_ADDR_DEFAULT,
                    ir: None,
                    cycles: 0,
                    mem: rom_image(bytes),
                })
            },
            Err(_) => assembled(source@) is None,
        },
{
    match new_mem_with_asm(source) {
        Ok(mem) => Ok(Cpu::with_mem(mem)),
        Err(msg) => Err(msg),
    }
}

/// A CPU over an all-zero store; its program counter starts at 0.
pub fn new_cpu_empty_mem() -> (r: Cpu<SimpleMemory>)
    ensures
        r.wf(),
        r@ == (CpuState {
            pc: 0,
            ac: 0,
            x: 0,
            y: 0,
            p: FLAGS_DEFAULT,
            sp: STACK_ADDR_DEFAULT,
            ir: None,
            cycles: 0,
            mem: Seq::new(0x10000, |i: int| 0u8),
        }),
{
    let mem = SimpleMemory::from_rom(&[]);
    proof {
        assert(rom_image(Seq::<u8>::empty()) =~= Seq::new(0x10000, |i: int| 0u8));
    }
    let cpu = Cpu::with_mem(mem);
    cpu
}

/// The 16-bit word `0xHHLL` made of the high byte `hh` and the low byte `ll`.
pub open spec fn word(hh: u8, ll: u8) -> u16 {
    (hh * 256 + ll) as u16
}

/// The value of the byte `b` read as a two's-complement signed quantity.
pub open spec fn signed(b: u8) -> int {
    if b >= 128 {
        b - 256
    } else {
        b as int
    }
}

/// Whether the sign bit (bit 7) of `val` is set.
pub open spec fn is_negative(val: u8) -> bool {
    val & 0x80 != 0
}

/// Whether adding `b1` and `b2` as signed bytes leaves the representable
/// range, i.e. whether the carry into bit 7 differs from the carry out of it.
pub open spec fn overflows_signed(b1: u8, b2: u8) -> bool {
    signed(b1) + signed(b2) > 127 || signed(b1) + signed(b2) < -128
}

/// `addr` with `displ` added into its low byte only: the sum wraps within the
/// 256-byte page of `addr` and never carries into the high byte.
pub open spec fn same_page_add(addr: u16, displ: u8) -> u16 {
    ((addr / 256) * 256 + ((addr % 256) as u8).wrapping_add(displ)) as u16
}

/// Combine bytes `0xHH` and `0xLL` into `0xHHLL`.
pub fn combine_u8_to_u16(hh: u8, ll: u8) -> (r: u16)
    ensures
        r == word(hh, ll),
        r == hh * 256 + ll,
{
    (hh as u16) * 256 + (ll as u16)
}

/// Pad a single byte `0xBB` into the 16-bit word `0x00BB`.
pub fn u8_to_u16(val: u8) -> (r: u16)
    ensures
        r == val,
{
    val as u16
}

/// Add a displacement to an address, wrapping within the address's page.
pub fn wrapping_add_same_page(addr: u16, displacement: u8) -> (r: u16)
    ensures
        r == same_page_add(addr, displacement),
{
    let page: u16 = addr / 256;
    let low: u8 = (addr % 256) as u8;
    let wrapped: u8 = low.wrapping_add(displacement);
    page * 256 + (wrapped as u16)
}

/// The value of `b` as a two's-complement signed byte, widened to 16 bits.
pub fn to_signed(b: u8) -> (r: i16)
    ensures
        r == signed(b),
{
    if b >= 128 {
        (b as i16) - 256
    } else {
        b as i16
    }
}

/// Whether `val` is negative when read as a signed byte.
pub fn test_negative(val: u8) -> (r: bool)
    ensures
        r == is_negative(val),
        r == (val >= 128),
{
    proof {
        assert((val & 0x80 != 0) == (val >= 128)) by (bit_vector);
    }
    val & 0x80 != 0
}

/// Whether adding `b1` and `b2` overflows as a signed (two's-complement)
/// addition: the carry into bit 7 is compared with the carry out of bit 7.
pub fn test_overflow(b1: u8, b2: u8) -> (r: bool)
    ensures
        r == overflows_signed(b1, b2),
{
    let carry_in: bool = ((b1 & 0x7f) as u16) + ((b2 & 0x7f) as u16) >= 128;
    let carry_out: bool = (b1 as u16) + (b2 as u16) > 255;
    proof {
        assert((((b1 & 0x7f) + (b2 & 0x7f) >= 128) != (b1 + b2 > 255)) == overflows_signed(
            b1,
            b2,
        )) by (bit_vector);
    }
    carry_in != carry_out
}

} // verus!
