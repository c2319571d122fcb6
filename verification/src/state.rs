use vstd::prelude::*;

use crate::bcd::bcd_sum;
use crate::opc::{instr_len, opc_entry, AddressMode, Inst, OpMode};
use crate::util::{is_negative, same_page_add, signed, word};

verus! {

pub const N_FLAG_BITMASK: u8 = 0b1000_0000;

pub const V_FLAG_BITMASK: u8 = 0b0100_0000;

pub const B_FLAG_BITMASK: u8 = 0b0001_0000;

pub const D_FLAG_BITMASK: u8 = 0b0000_1000;

pub const I_FLAG_BITMASK: u8 = 0b0000_0100;

pub const Z_FLAG_BITMASK: u8 = 0b0000_0010;

pub const C_FLAG_BITMASK: u8 = 0b0000_0001;

/// The status register after reset: every flag clear, bit 5 set.
pub const FLAGS_DEFAULT: u8 = 0b0010_0000;

/// The stack pointer after reset: the top of the stack page.
pub const STACK_ADDR_DEFAULT: u16 = 0x01FF;

/// Whether the flag selected by `mask` is set in the status byte `p`.
pub open spec fn flag_set(p: u8, mask: u8) -> bool {
    p & mask != 0
}

/// The status byte `p` with the flag selected by `mask` set or cleared.
pub open spec fn set_flag(p: u8, mask: u8, on: bool) -> u8 {
    if on {
        p | mask
    } else {
        p & !mask
    }
}

/// The status byte `p` with Z set exactly when the result byte `val` is zero.
pub open spec fn upd_z(p: u8, val: u8) -> u8 {
    set_flag(p, Z_FLAG_BITMASK, val == 0)
}

/// The status byte `p` with N set exactly when the result byte `val` has its
/// sign bit set.
pub open spec fn upd_n(p: u8, val: u8) -> u8 {
    set_flag(p, N_FLAG_BITMASK, is_negative(val))
}

/// The mathematical state of the CPU: the registers, the status byte, the
/// stack pointer, the optional last-decoded instruction, the cycle tally and
/// the 64 KiB of memory.
pub ghost struct CpuState {
    pub pc: u16,
    pub ac: u8,
    pub x: u8,
    pub y: u8,
    pub p: u8,
    pub sp: u16,
    pub ir: Option<Inst>,
    pub cycles: usize,
    pub mem: Seq<u8>,
}

/// The byte of `mem` at address `addr`.
pub open spec fn mem_read(mem: Seq<u8>, addr: u16) -> u8 {
    mem[addr as int]
}

/// The effective address an instruction at `s.pc` reads or writes under the
/// given addressing mode.  Only the modes that reference memory have one;
/// for the others this function is never consulted.
pub open spec fn effective_addr(s: CpuState, mode: AddressMode) -> u16 {
    match mode {
        AddressMode::ZPG => mem_read(s.mem, s.pc.wrapping_add(1)) as u16,
        AddressMode::ZPGX => mem_read(s.mem, s.pc.wrapping_add(1)).wrapping_add(s.x) as u16,
        AddressMode::ZPGY => mem_read(s.mem, s.pc.wrapping_add(1)).wrapping_add(s.y) as u16,
        AddressMode::ABS => word(
            mem_read(s.mem, s.pc.wrapping_add(2)),
            mem_read(s.mem, s.pc.wrapping_add(1)),
        ),
        AddressMode::ABSX => word(
            mem_read(s.mem, s.pc.wrapping_add(2)),
            mem_read(s.mem, s.pc.wrapping_add(1)),
        ).wrapping_add(s.x as u16),
        AddressMode::ABSY => word(
            mem_read(s.mem, s.pc.wrapping_add(2)),
            mem_read(s.mem, s.pc.wrapping_add(1)),
        ).wrapping_add(s.y as u16),
        AddressMode::IND => {
            // Both the pointer fetch and the pointer dereference wrap within
            // their page, reproducing the 6502's indirect-JMP bug.
            let ptr = word(
                mem_read(s.mem, same_page_add(s.pc, 2)),
                mem_read(s.mem, same_page_add(s.pc, 1)),
            );
            word(mem_read(s.mem, same_page_add(ptr, 1)), mem_read(s.mem, ptr))
        },
        AddressMode::INDX => {
            let lo_zp = mem_read(s.mem, s.pc.wrapping_add(1)).wrapping_add(s.x);
            let hi_zp = lo_zp.wrapping_add(1);
            word(mem_read(s.mem, hi_zp as u16), mem_read(s.mem, lo_zp as u16))
        },
        AddressMode::INDY => {
            let zp = mem_read(s.mem, s.pc.wrapping_add(1));
            let base = word(
                mem_read(s.mem, zp.wrapping_add(1) as u16),
                mem_read(s.mem, zp as u16),
            );
            same_page_add(base, s.y)
        },
        _ => 0,
    }
}

/// The operand byte an instruction reads: the byte after the opcode for
/// immediate mode, the byte at the effective address otherwise.
pub open spec fn operand(s: CpuState, mode: AddressMode) -> u8 {
    if mode is IMM {
        mem_read(s.mem, s.pc.wrapping_add(1))
    } else {
        mem_read(s.mem, effective_addr(s, mode))
    }
}

/// The branch target for the offset byte stored at `offset_addr`: the offset
/// is sign-extended and added to `offset_addr + 1`, all with 16-bit wrapping.
pub open spec fn rel_target(s: CpuState, offset_addr: u16) -> u16 {
    let offset = mem_read(s.mem, offset_addr);
    let offset_16 = if is_negative(offset) {
        word(0xFF, offset)
    } else {
        word(0x00, offset)
    };
    offset_16.wrapping_add(offset_addr).wrapping_add(1)
}

/// The state after the program counter has advanced over the current
/// instruction.
pub open spec fn advance(s: CpuState, mode: AddressMode) -> CpuState {
    CpuState { pc: s.pc.wrapping_add(instr_len(mode)), ..s }
}

/// The state after `b` has been pushed: the byte is written at the stack
/// pointer, which then moves down one.
pub open spec fn push_byte(s: CpuState, b: u8) -> CpuState {
    CpuState { sp: s.sp.wrapping_sub(1), mem: s.mem.update(s.sp as int, b), ..s }
}

/// The state after one byte has been popped: the stack pointer moves up one.
pub open spec fn pop_state(s: CpuState) -> CpuState {
    CpuState { sp: s.sp.wrapping_add(1), ..s }
}

/// The byte a pop reads: the one just above the stack pointer.
pub open spec fn pop_value(s: CpuState) -> u8 {
    mem_read(s.mem, s.sp.wrapping_add(1))
}

/// The state after the bytes of `bs` have been pushed in order: `bs[0]`
/// first, the last byte of `bs` on top of the stack.
pub open spec fn push_bytes(s: CpuState, bs: Seq<u8>) -> CpuState
    decreases bs.len(),
{
    if bs.len() == 0 {
        s
    } else {
        push_bytes(push_byte(s, bs[0]), bs.drop_first())
    }
}

/// The state after `n` bytes have been popped.
pub open spec fn pop_bytes_state(s: CpuState, n: nat) -> CpuState
    decreases n,
{
    if n == 0 {
        s
    } else {
        pop_bytes_state(pop_state(s), (n - 1) as nat)
    }
}

/// The `n` bytes that popping reads, in pop order.
pub open spec fn pop_bytes_values(s: CpuState, n: nat) -> Seq<u8>
    decreases n,
{
    if n == 0 {
        Seq::empty()
    } else {
        seq![pop_value(s)] + pop_bytes_values(pop_state(s), (n - 1) as nat)
    }
}

/// Add with carry.  In decimal mode the accumulator and the operand are added
/// as packed-BCD digit pairs and C reports a decimal carry; in binary mode
/// the 8-bit sum takes C in, C reports the carry out and V the signed
/// overflow of the full sum, the carry into bit 7 differing from the carry
/// out.  N and Z follow the result, which lands in the accumulator.
pub open spec fn spec_adc(s: CpuState, mode: AddressMode) -> CpuState {
    let data = operand(s, mode);
    if flag_set(s.p, D_FLAG_BITMASK) {
        let result = bcd_sum(s.ac, data);
        let p1 = set_flag(s.p, C_FLAG_BITMASK, result > 0x99);
        let p2 = upd_n(upd_z(p1, result), result);
        advance(CpuState { ac: result, p: p2, ..s }, mode)
    } else {
        let c: int = if flag_set(s.p, C_FLAG_BITMASK) {
            1
        } else {
            0
        };
        let sum = s.ac + data + c;
        let result = (sum % 256) as u8;
        let carry = sum > 255;
        let signed_sum = signed(s.ac) + signed(data) + c;
        let overflow = signed_sum > 127 || signed_sum < -128;
        let p1 = set_flag(s.p, C_FLAG_BITMASK, carry);
        let p2 = set_flag(p1, V_FLAG_BITMASK, overflow);
        let p3 = upd_n(upd_z(p2, result), result);
        advance(CpuState { ac: result, p: p3, ..s }, mode)
    }
}

/// Bitwise AND of the accumulator with the operand; N and Z follow the
/// result.
pub open spec fn spec_and(s: CpuState, mode: AddressMode) -> CpuState {
    let result = s.ac & operand(s, mode);
    let p1 = upd_z(upd_n(s.p, result), result);
    advance(CpuState { ac: result, p: p1, ..s }, mode)
}

/// Arithmetic shift left of the accumulator or of the byte at the effective
/// address; C takes the bit shifted out, N and Z follow the result.
pub open spec fn spec_asl(s: CpuState, mode: AddressMode) -> CpuState {
    let on_acc = mode is ACC;
    let val = if on_acc {
        s.ac
    } else {
        mem_read(s.mem, effective_addr(s, mode))
    };
    let carry = val & 0x80 != 0;
    let result = val << 1;
    let p1 = set_flag(upd_z(upd_n(s.p, result), result), C_FLAG_BITMASK, carry);
    if on_acc {
        advance(CpuState { ac: result, p: p1, ..s }, mode)
    } else {
        advance(
            CpuState { p: p1, mem: s.mem.update(effective_addr(s, mode) as int, result), ..s },
            mode,
        )
    }
}

/// A conditional branch: when taken the program counter moves to the
/// relative target, otherwise it advances past the two instruction bytes.
pub open spec fn spec_branch(s: CpuState, taken: bool, mode: AddressMode) -> CpuState {
    if taken {
        CpuState { pc: rel_target(s, s.pc.wrapping_add(1)), ..s }
    } else {
        advance(s, mode)
    }
}

/// Bit test: Z reports whether the accumulator equals the operand, V takes
/// bit 6 of the operand and N bit 7.  Neither the accumulator nor memory
/// changes.
pub open spec fn spec_bit(s: CpuState, mode: AddressMode) -> CpuState {
    let data = mem_read(s.mem, effective_addr(s, mode));
    let equal = s.ac == data;
    let m7 = data & 0x80 != 0;
    let m6 = data & 0x40 != 0;
    let p1 = set_flag(
        set_flag(set_flag(s.p, Z_FLAG_BITMASK, !equal), V_FLAG_BITMASK, m6),
        N_FLAG_BITMASK,
        m7,
    );
    advance(CpuState { p: p1, ..s }, mode)
}

/// Software interrupt: the address two past the opcode is pushed high byte
/// first, B is set, the status byte is pushed, and the program counter is
/// loaded from the vector at $FFFE/$FFFF.
pub open spec fn spec_brk(s: CpuState) -> CpuState {
    let ret = s.pc.wrapping_add(2);
    let s1 = push_byte(s, (ret / 256) as u8);
    let s2 = push_byte(s1, (ret % 256) as u8);
    let pb = set_flag(s.p, B_FLAG_BITMASK, true);
    let s3 = push_byte(CpuState { p: pb, ..s2 }, pb);
    let newpc = word(mem_read(s3.mem, 0xFFFF), mem_read(s3.mem, 0xFFFE));
    CpuState { pc: newpc, ..s3 }
}

/// Compare the register value `r` with the operand: C reports `r >= m`, Z
/// equality, and N the sign bit of the 8-bit difference.
pub open spec fn spec_compare(s: CpuState, r: u8, mode: AddressMode) -> CpuState {
    let data = operand(s, mode);
    let diff = r.wrapping_sub(data);
    let p1 = upd_n(set_flag(upd_z(s.p, diff), C_FLAG_BITMASK, r >= data), diff);
    advance(CpuState { p: p1, ..s }, mode)
}

/// Decrement the byte at the effective address with 8-bit wrap; N and Z
/// follow the result.
pub open spec fn spec_dec(s: CpuState, mode: AddressMode) -> CpuState {
    let addr = effective_addr(s, mode);
    let result = mem_read(s.mem, addr).wrapping_sub(1);
    let p1 = upd_z(upd_n(s.p, result), result);
    advance(CpuState { p: p1, mem: s.mem.update(addr as int, result), ..s }, mode)
}

/// Increment the byte at the effective address with 8-bit wrap; N and Z
/// follow the result.
pub open spec fn spec_inc(s: CpuState, mode: AddressMode) -> CpuState {
    let addr = effective_addr(s, mode);
    let result = mem_read(s.mem, addr).wrapping_add(1);
    let p1 = upd_z(upd_n(s.p, result), result);
    advance(CpuState { p: p1, mem: s.mem.update(addr as int, result), ..s }, mode)
}

/// Bitwise exclusive OR of the accumulator with the operand; the result is
/// written back to the accumulator and N and Z follow it.
pub open spec fn spec_eor(s: CpuState, mode: AddressMode) -> CpuState {
    let result = s.ac ^ operand(s, mode);
    let p1 = upd_n(upd_z(s.p, result), result);
    advance(CpuState { ac: result, p: p1, ..s }, mode)
}

/// Jump: the program counter is set to the effective address.
pub open spec fn spec_jmp(s: CpuState, mode: AddressMode) -> CpuState {
    CpuState { pc: effective_addr(s, mode), ..s }
}

/// Jump to subroutine: the address of the instruction's last byte is pushed
/// low byte first, then the program counter is set to the target, which is
/// resolved after the pushes.
pub open spec fn spec_jsr(s: CpuState, mode: AddressMode) -> CpuState {
    let ret = s.pc.wrapping_add(2);
    let s1 = push_byte(s, (ret % 256) as u8);
    let s2 = push_byte(s1, (ret / 256) as u8);
    CpuState { pc: effective_addr(s2, mode), ..s2 }
}

/// Load the accumulator from the operand; N and Z follow it.
pub open spec fn spec_lda(s: CpuState, mode: AddressMode) -> CpuState {
    let data = operand(s, mode);
    let p1 = upd_n(upd_z(s.p, data), data);
    advance(CpuState { ac: data, p: p1, ..s }, mode)
}

/// Load the X register from the operand; N and Z follow it.
pub open spec fn spec_ldx(s: CpuState, mode: AddressMode) -> CpuState {
    let data = operand(s, mode);
    let p1 = upd_n(upd_z(s.p, data), data);
    advance(CpuState { x: data, p: p1, ..s }, mode)
}

/// Load the Y register from the operand; N and Z follow it.
pub open spec fn spec_ldy(s: CpuState, mode: AddressMode) -> CpuState {
    let data = operand(s, mode);
    let p1 = upd_n(upd_z(s.p, data), data);
    advance(CpuState { y: data, p: p1, ..s }, mode)
}

/// Logical shift right of the accumulator or of the byte at the effective
/// address; C takes the bit shifted out, N and Z follow the result.
pub open spec fn spec_lsr(s: CpuState, mode: AddressMode) -> CpuState {
    let on_acc = mode is ACC;
    let val = if on_acc {
        s.ac
    } else {
        mem_read(s.mem, effective_addr(s, mode))
    };
    let carry = val & 0x01 != 0;
    let result = val >> 1;
    let p1 = upd_n(upd_z(set_flag(s.p, C_FLAG_BITMASK, carry), result), result);
    if on_acc {
        advance(CpuState { ac: result, p: p1, ..s }, mode)
    } else {
        advance(
            CpuState { p: p1, mem: s.mem.update(effective_addr(s, mode) as int, result), ..s },
            mode,
        )
    }
}

/// Bitwise OR of the accumulator with the operand; N and Z follow the
/// result.
pub open spec fn spec_ora(s: CpuState, mode: AddressMode) -> CpuState {
    let result = s.ac | operand(s, mode);
    let p1 = upd_z(upd_n(s.p, result), result);
    advance(CpuState { ac: result, p: p1, ..s }, mode)
}

/// Pop into the accumulator; N and Z follow it.
pub open spec fn spec_pla(s: CpuState, mode: AddressMode) -> CpuState {
    let val = pop_value(s);
    let s1 = pop_state(s);
    let p1 = upd_n(upd_z(s1.p, val), val);
    advance(CpuState { ac: val, p: p1, ..s1 }, mode)
}

/// Pop into the status byte, verbatim.
pub open spec fn spec_plp(s: CpuState, mode: AddressMode) -> CpuState {
    let val = pop_value(s);
    let s1 = pop_state(s);
    advance(CpuState { p: val, ..s1 }, mode)
}

/// Rotate left through carry: the old C enters at bit 0, the old bit 7
/// becomes the new C; N and Z follow the result.
pub open spec fn spec_rol(s: CpuState, mode: AddressMode) -> CpuState {
    let on_acc = mode is ACC;
    let val = if on_acc {
        s.ac
    } else {
        mem_read(s.mem, effective_addr(s, mode))
    };
    let carry_out = val & 0x80 != 0;
    let shifted = val << 1;
    let result = if flag_set(s.p, C_FLAG_BITMASK) {
        shifted | 0x01
    } else {
        shifted
    };
    let p1 = set_flag(upd_z(upd_n(s.p, result), result), C_FLAG_BITMASK, carry_out);
    if on_acc {
        advance(CpuState { ac: result, p: p1, ..s }, mode)
    } else {
        advance(
            CpuState { p: p1, mem: s.mem.update(effective_addr(s, mode) as int, result), ..s },
            mode,
        )
    }
}

/// Rotate right through carry: the old C enters at bit 7, the old bit 0
/// becomes the new C; N and Z follow the result.
pub open spec fn spec_ror(s: CpuState, mode: AddressMode) -> CpuState {
    let on_acc = mode is ACC;
    let val = if on_acc {
        s.ac
    } else {
        mem_read(s.mem, effective_addr(s, mode))
    };
    let carry_out = val & 0x01 != 0;
    let shifted = val >> 1;
    let result = if flag_set(s.p, C_FLAG_BITMASK) {
        shifted | 0x80
    } else {
        shifted
    };
    let p1 = set_flag(upd_z(upd_n(s.p, result), result), C_FLAG_BITMASK, carry_out);
    if on_acc {
        advance(CpuState { ac: result, p: p1, ..s }, mode)
    } else {
        advance(
            CpuState { p: p1, mem: s.mem.update(effective_addr(s, mode) as int, result), ..s },
            mode,
        )
    }
}

/// Return from interrupt: pop the status byte, then the low and high bytes
/// of the program counter, which is restored without any increment.
pub open spec fn spec_rti(s: CpuState) -> CpuState {
    let p = pop_value(s);
    let s1 = pop_state(s);
    let lo = pop_value(s1);
    let s2 = pop_state(s1);
    let hi = pop_value(s2);
    let s3 = pop_state(s2);
    CpuState { p: p, pc: word(hi, lo), ..s3 }
}

/// Return from subroutine: pop the high byte then the low byte of the saved
/// address and continue one byte past it.
pub open spec fn spec_rts(s: CpuState) -> CpuState {
    let hi = pop_value(s);
    let s1 = pop_state(s);
    let lo = pop_value(s1);
    let s2 = pop_state(s1);
    CpuState { pc: word(hi, lo).wrapping_add(1), ..s2 }
}

/// Subtract with borrow, binary mode: the operand and the borrow `1 - C` are
/// subtracted from the accumulator with 8-bit wrap; V reports signed
/// overflow of the full difference, C reports "no borrow out", and N and Z
/// follow the result.
pub open spec fn spec_sbc(s: CpuState, mode: AddressMode) -> CpuState {
    let data = operand(s, mode);
    let borrow: int = if flag_set(s.p, C_FLAG_BITMASK) {
        0
    } else {
        1
    };
    let diff = signed(s.ac) - signed(data) - borrow;
    let overflow = diff > 127 || diff < -128;
    let result = s.ac.wrapping_sub(data).wrapping_sub(borrow as u8);
    let no_borrow = s.ac >= data + borrow;
    let p1 = set_flag(
        upd_z(set_flag(upd_n(s.p, result), V_FLAG_BITMASK, overflow), result),
        C_FLAG_BITMASK,
        no_borrow,
    );
    advance(CpuState { ac: result, p: p1, ..s }, mode)
}

/// Store the byte `val` at the effective address; no flags change.
pub open spec fn spec_store(s: CpuState, val: u8, mode: AddressMode) -> CpuState {
    advance(CpuState { mem: s.mem.update(effective_addr(s, mode) as int, val), ..s }, mode)
}

/// Whether the addressing mode references memory, so that an effective
/// address exists for it.
pub open spec fn has_effective_addr(mode: AddressMode) -> bool {
    !(mode is ACC || mode is IMM || mode is IMPL || mode is REL)
}

/// Whether the addressing mode is legal for the instruction: instructions
/// that resolve an effective address need a mode that has one, and
/// instructions that read an operand additionally accept immediate mode.
/// Shifts and rotates accept the accumulator in place of memory.
pub open spec fn mode_ok(inst: Inst, mode: AddressMode) -> bool {
    match inst {
        Inst::ADC | Inst::AND | Inst::CMP | Inst::CPX | Inst::CPY | Inst::EOR | Inst::LDA
            | Inst::LDX | Inst::LDY | Inst::ORA | Inst::SBC => !(mode is ACC || mode is IMPL
            || mode is REL),
        Inst::ASL | Inst::LSR | Inst::ROL | Inst::ROR => !(mode is IMM || mode is IMPL
            || mode is REL),
        Inst::BIT | Inst::DEC | Inst::INC | Inst::JMP | Inst::JSR | Inst::STA | Inst::STX
            | Inst::STY => !(mode is ACC || mode is IMM || mode is IMPL || mode is REL),
        _ => true,
    }
}

/// Whether the step reassigns the program counter instead of advancing it by
/// the instruction length: jumps, subroutine calls and returns, BRK, and
/// branches whose condition holds in `s`.
pub open spec fn reassigns_pc(s: CpuState, inst: Inst) -> bool {
    match inst {
        Inst::JMP | Inst::JSR | Inst::RTS | Inst::RTI | Inst::BRK => true,
        Inst::BCC => !flag_set(s.p, C_FLAG_BITMASK),
        Inst::BCS => flag_set(s.p, C_FLAG_BITMASK),
        Inst::BEQ => flag_set(s.p, Z_FLAG_BITMASK),
        Inst::BNE => !flag_set(s.p, Z_FLAG_BITMASK),
        Inst::BMI => flag_set(s.p, N_FLAG_BITMASK),
        Inst::BPL => !flag_set(s.p, N_FLAG_BITMASK),
        Inst::BVS => flag_set(s.p, V_FLAG_BITMASK),
        Inst::BVC => !flag_set(s.p, V_FLAG_BITMASK),
        _ => false,
    }
}

/// One complete iteration of the fetch-decode-execute loop in a state
/// whose program-counter byte decodes to `om`: the instruction register
/// takes the decoded tag, the instruction executes, and the entry's base
/// cycle count joins the running tally.
pub open spec fn full_step(s: CpuState, om: OpMode) -> CpuState {
    let s1 = CpuState { ir: Some(om.0), ..s };
    let s2 = step_spec(s1, om.0, om.1);
    CpuState { cycles: s2.cycles.wrapping_add(om.2 as usize), ..s2 }
}

/// Whether `t` is reached from `s` by exactly `n` complete machine steps,
/// each decoding the byte at the program counter through the opcode table
/// and executing it.
pub open spec fn reaches_in(s: CpuState, t: CpuState, n: nat) -> bool
    decreases n,
{
    if n == 0 {
        t == s
    } else {
        opc_entry(mem_read(s.mem, s.pc)) matches Some(om) && reaches_in(
            full_step(s, om),
            t,
            (n - 1) as nat,
        )
    }
}

/// Whether `t` is reached from `s` by zero or more complete machine steps:
/// every intermediate state is a whole-instruction boundary, with the
/// instruction register and cycle tally carried along.
pub open spec fn reaches(s: CpuState, t: CpuState) -> bool {
    exists|n: nat| reaches_in(s, t, n)
}

/// One step of the machine: the state after the instruction `inst` with
/// addressing mode `mode` executes in state `s`.  This is the reference
/// semantics that the executable CPU is proved to follow.
pub open spec fn step_spec(s: CpuState, inst: Inst, mode: AddressMode) -> CpuState {
    match inst {
        Inst::ADC => spec_adc(s, mode),
        Inst::AND => spec_and(s, mode),
        Inst::ASL => spec_asl(s, mode),
        Inst::BCC => spec_branch(s, !flag_set(s.p, C_FLAG_BITMASK), mode),
        Inst::BCS => spec_branch(s, flag_set(s.p, C_FLAG_BITMASK), mode),
        Inst::BEQ => spec_branch(s, flag_set(s.p, Z_FLAG_BITMASK), mode),
        Inst::BIT => spec_bit(s, mode),
        Inst::BMI => spec_branch(s, flag_set(s.p, N_FLAG_BITMASK), mode),
        Inst::BNE => spec_branch(s, !flag_set(s.p, Z_FLAG_BITMASK), mode),
        Inst::BPL => spec_branch(s, !flag_set(s.p, N_FLAG_BITMASK), mode),
        Inst::BRK => spec_brk(s),
        Inst::BVC => spec_branch(s, !flag_set(s.p, V_FLAG_BITMASK), mode),
        Inst::BVS => spec_branch(s, flag_set(s.p, V_FLAG_BITMASK), mode),
        Inst::CLC => advance(CpuState { p: set_flag(s.p, C_FLAG_BITMASK, false), ..s }, mode),
        Inst::CLD => advance(CpuState { p: set_flag(s.p, D_FLAG_BITMASK, false), ..s }, mode),
        Inst::CLI => advance(CpuState { p: set_flag(s.p, I_FLAG_BITMASK, false), ..s }, mode),
        Inst::CLV => advance(CpuState { p: set_flag(s.p, V_FLAG_BITMASK, false), ..s }, mode),
        Inst::CMP => spec_compare(s, s.ac, mode),
        Inst::CPX => spec_compare(s, s.x, mode),
        Inst::CPY => spec_compare(s, s.y, mode),
        Inst::DEC => spec_dec(s, mode),
        Inst::DEX => {
            let v = s.x.wrapping_sub(1);
            advance(CpuState { x: v, p: upd_n(upd_z(s.p, v), v), ..s }, mode)
        },
        Inst::DEY => {
            let v = s.y.wrapping_sub(1);
            advance(CpuState { y: v, p: upd_n(upd_z(s.p, v), v), ..s }, mode)
        },
        Inst::EOR => spec_eor(s, mode),
        Inst::INC => spec_inc(s, mode),
        Inst::INX => {
            let v = s.x.wrapping_add(1);
            advance(CpuState { x: v, p: upd_z(upd_n(s.p, v), v), ..s }, mode)
        },
        Inst::INY => {
            let v = s.y.wrapping_add(1);
            advance(CpuState { y: v, p: upd_z(upd_n(s.p, v), v), ..s }, mode)
        },
        Inst::JMP => spec_jmp(s, mode),
        Inst::JSR => spec_jsr(s, mode),
        Inst::LDA => spec_lda(s, mode),
        Inst::LDX => spec_ldx(s, mode),
        Inst::LDY => spec_ldy(s, mode),
        Inst::LSR => spec_lsr(s, mode),
        Inst::NOP => advance(s, mode),
        Inst::ORA => spec_ora(s, mode),
        Inst::PHA => advance(push_byte(s, s.ac), mode),
        Inst::PHP => advance(push_byte(s, s.p), mode),
        Inst::PLA => spec_pla(s, mode),
        Inst::PLP => spec_plp(s, mode),
        Inst::ROL => spec_rol(s, mode),
        Inst::ROR => spec_ror(s, mode),
        Inst::RTI => spec_rti(s),
        Inst::RTS => spec_rts(s),
        Inst::SBC => spec_sbc(s, mode),
        Inst::SEC => advance(CpuState { p: set_flag(s.p, C_FLAG_BITMASK, true), ..s }, mode),
        Inst::SED => advance(CpuState { p: set_flag(s.p, D_FLAG_BITMASK, true), ..s }, mode),
        Inst::SEI => advance(CpuState { p: set_flag(s.p, I_FLAG_BITMASK, true), ..s }, mode),
        Inst::STA => spec_store(s, s.ac, mode),
        Inst::STX => spec_store(s, s.x, mode),
        Inst::STY => spec_store(s, s.y, mode),
        Inst::TAX => advance(CpuState { x: s.ac, p: upd_z(upd_n(s.p, s.ac), s.ac), ..s }, mode),
        Inst::TAY => advance(CpuState { y: s.ac, p: upd_z(upd_n(s.p, s.ac), s.ac), ..s }, mode),
        Inst::TSX => {
            let v = (s.sp % 256) as u8;
            advance(CpuState { x: v, p: upd_n(upd_z(s.p, v), v), ..s }, mode)
        },
        Inst::TXA => advance(CpuState { ac: s.x, p: upd_z(upd_n(s.p, s.x), s.x), ..s }, mode),
        Inst::TXS => advance(CpuState { sp: word(0x01, s.x), ..s }, mode),
        Inst::TYA => advance(CpuState { ac: s.y, p: upd_z(upd_n(s.p, s.y), s.y), ..s }, mode),
    }
}

} // verus!
