use vstd::prelude::*;

use crate::error::Error6502;
use crate::memory::Memory;
use crate::opc::{init_opc_array, instr_len, is_opc_table, opc_entry, AddressMode, Inst, OpMode};
use crate::bcd::bcd_add_u8;
use crate::state::{
    advance, effective_addr, flag_set, full_step, has_effective_addr, mem_read, mode_ok, operand,
    pop_state, reaches,
    pop_value, push_byte, rel_target, set_flag, spec_adc, spec_and, spec_asl, spec_bit,
    spec_branch, spec_brk, spec_compare, spec_dec, spec_eor, spec_inc, spec_jmp, spec_jsr,
    spec_lda, spec_ldx, spec_ldy, spec_lsr, spec_ora, spec_pla, spec_plp, spec_rol, spec_ror,
    spec_rti, spec_rts, spec_sbc, spec_store, step_spec, upd_n, upd_z, CpuState, B_FLAG_BITMASK,
    C_FLAG_BITMASK, D_FLAG_BITMASK, FLAGS_DEFAULT, I_FLAG_BITMASK, N_FLAG_BITMASK,
    STACK_ADDR_DEFAULT, V_FLAG_BITMASK, Z_FLAG_BITMASK,
};
use crate::util;
use crate::util::{overflows_signed, word};

verus! {

/// The per-instruction hook a driver hands to [`Cpu::run`]: it is called
/// once per fetched instruction, after decode and before execute, with a
/// read-only view of the CPU, and returning `true` stops the run.
pub trait Observer<M: Memory> {
    fn observe(&mut self, cpu: &Cpu<M>) -> bool;
}

/// The 6502 processor: registers, status byte, stack pointer, instruction
/// register, cycle tally, and the memory store it owns.
pub struct Cpu<M> {
    pc: u16,
    ac: u8,
    x: u8,
    y: u8,
    p: u8,
    sp: u16,
    pub mem: M,
    ir: Option<Inst>,
    cycle_count: usize,
}

impl<M: Memory> View for Cpu<M> {
    type V = CpuState;

    closed spec fn view(&self) -> CpuState {
        CpuState {
            pc: self.pc,
            ac: self.ac,
            x: self.x,
            y: self.y,
            p: self.p,
            sp: self.sp,
            ir: self.ir,
            cycles: self.cycle_count,
            mem: self.mem.contents(),
        }
    }
}

impl<M> Cpu<M> where M: Memory {
    /// The CPU is well formed when its memory store satisfies the store's
    /// own invariant.
    pub closed spec fn wf(&self) -> bool {
        self.mem.inv()
    }

    /// Create a CPU owning the store `mem`.  The registers clear, the status
    /// byte holds only its fixed bit 5, the stack pointer sits at the top of
    /// the stack page, and the program counter is loaded from the reset
    /// vector: high byte at $FFFC, low byte at $FFFD.
    pub fn with_mem(mem: M) -> (r: Self)
        requires
            mem.inv(),
        ensures
            r.wf(),
            r@ == (CpuState {
                pc: word(mem_read(mem.contents(), 0xFFFC), mem_read(mem.contents(), 0xFFFD)),
                ac: 0,
                x: 0,
                y: 0,
                p: FLAGS_DEFAULT,
                sp: STACK_ADDR_DEFAULT,
                ir: None,
                cycles: 0,
                mem: mem.contents(),
            }),
    {
        let high = mem.read_byte(0xFFFC);
        let low = mem.read_byte(0xFFFD);
        let pc = util::combine_u8_to_u16(high, low);
        Self {
            pc,
            ac: 0x00,
            x: 0x00,
            y: 0x00,
            p: FLAGS_DEFAULT,
            sp: STACK_ADDR_DEFAULT,
            ir: None,
            mem,
            cycle_count: 0,
        }
    }

    /// Drive the fetch-decode-execute loop.  Before each instruction
    /// executes, `callback_exit` is shown the CPU with the instruction
    /// register already holding the decoded instruction; returning `true`
    /// stops the run with `Ok`.  The run otherwise continues until a byte
    /// cannot be decoded, or until decimal-mode subtraction — which the core
    /// leaves unimplemented — is reached; either ends the run with the
    /// unknown-opcode failure carrying the byte at the program counter.  On
    /// an undecodable byte the CPU stands exactly as it did at that fetch,
    /// a whole-instruction boundary with no partial state change; in the
    /// decimal-mode subtraction case the byte is the defined SBC opcode and
    /// only the instruction register has moved, holding the decoded SBC.
    /// Either way the final state is reached from the initial one by
    /// complete machine steps, each adding its opcode's base cycles to the
    /// tally.  A run executes at most `u64::MAX` instructions; one that
    /// reaches that bound stops as if the observer had asked to.
    pub fn run<O: Observer<M>>(&mut self, callback_exit: &mut O) -> (r: Result<(), Error6502>)
        requires
            old(self).wf(),
        ensures
            final(self).wf(),
            match r {
                Ok(()) => opc_entry(mem_read(final(self)@.mem, final(self)@.pc)) matches Some(om)
                    && (exists|mid: CpuState|
                    #[trigger] reaches(old(self)@, mid) && final(self)@ == (CpuState {
                        ir: Some(om.0),
                        ..mid
                    })),
                Err(e) => {
                    &&& e == Error6502::UnknownOpcode(
                        mem_read(final(self)@.mem, final(self)@.pc),
                    )
                    &&& ((opc_entry(mem_read(final(self)@.mem, final(self)@.pc)) is None
                        && reaches(old(self)@, final(self)@)) || (opc_entry(
                        mem_read(final(self)@.mem, final(self)@.pc),
                    ) matches Some(om) && om.0 is SBC && flag_set(final(self)@.p, D_FLAG_BITMASK)
                        && (exists|mid: CpuState|
                        #[trigger] reaches(old(self)@, mid) && final(self)@ == (CpuState {
                            ir: Some(Inst::SBC),
                            ..mid
                        }))))
                },
            },
    {
        let opc_arr = init_opc_array();
        let mut fuel: u64 = u64::MAX;
        proof {
            crate::laws::lemma_reaches_refl(self@);
        }
        loop
            invariant
                self.wf(),
                is_opc_table(opc_arr@),
                reaches(old(self)@, self@),
            decreases fuel,
        {
            let ghost pre = self@;
            match self.fetch_next_inst(&opc_arr) {
                Ok(OpMode(instruction, address_mode, cycles)) => {
                    self.set_ir(instruction);
                    if callback_exit.observe(self) {
                        return Ok(());
                    }
                    if matches!(instruction, Inst::SBC) {
                        if self.d_flag() {
                            // Decimal-mode subtraction is deliberately
                            // unimplemented; the run cannot continue.
                            let byte = self.read_byte_from_mem(self.pc);
                            return Err(Error6502::UnknownOpcode(byte));
                        }
                    }
                    if fuel == 0 {
                        return Ok(());
                    }
                    proof {
                        crate::laws::lemma_table_modes_ok();
                    }
                    self.step_inst(instruction, address_mode)?;
                    self.add_to_cycle_count(cycles);
                    fuel = fuel - 1;
                    proof {
                        crate::laws::lemma_reaches_step(
                            old(self)@,
                            pre,
                            OpMode(instruction, address_mode, cycles),
                        );
                        assert(self@ == full_step(pre, OpMode(instruction, address_mode, cycles)));
                    }
                },
                Err(_) => {
                    let byte = self.read_byte_from_mem(self.pc);
                    return Err(Error6502::UnknownOpcode(byte));
                },
            }
        }
    }

    /// Push a byte: write it at the stack pointer, then move the pointer
    /// down one.
    pub fn stack_push(&mut self, bb: u8)
        requires
            old(self).wf(),
        ensures
            final(self).wf(),
            final(self)@ == push_byte(old(self)@, bb),
    {
        self.mem.write_byte(self.sp, bb);
        self.sp = self.sp.wrapping_sub(1);
    }

    /// Pop a byte: move the stack pointer up one, then read the byte there.
    pub fn stack_pop(&mut self) -> (r: u8)
        requires
            old(self).wf(),
        ensures
            final(self).wf(),
            final(self)@ == pop_state(old(self)@),
            r == pop_value(old(self)@),
    {
        self.sp = self.sp.wrapping_add(1);
        self.mem.read_byte(self.sp)
    }

    /// Set Z exactly when `val` is zero.
    pub fn update_z_flag_with(&mut self, val: u8)
        ensures
            final(self)@ == (CpuState { p: upd_z(old(self)@.p, val), ..old(self)@ }),
            final(self).wf() == old(self).wf(),
    {
        if val == 0x00 {
            self.p = self.p | Z_FLAG_BITMASK;
        } else {
            self.p = self.p & !Z_FLAG_BITMASK;
        }
    }

    /// Set N exactly when `val` has its sign bit set.
    pub fn update_n_flag_with(&mut self, val: u8)
        ensures
            final(self)@ == (CpuState { p: upd_n(old(self)@.p, val), ..old(self)@ }),
            final(self).wf() == old(self).wf(),
    {
        if val & 0x80 != 0 {
            self.p = self.p | N_FLAG_BITMASK;
        } else {
            self.p = self.p & !N_FLAG_BITMASK;
        }
    }

    /// Set or clear C.
    pub fn write_c_flag(&mut self, carry: bool)
        ensures
            final(self)@ == (CpuState {
                p: set_flag(old(self)@.p, C_FLAG_BITMASK, carry),
                ..old(self)@
            }),
            final(self).wf() == old(self).wf(),
    {
        if carry {
            self.p = self.p | C_FLAG_BITMASK;
        } else {
            self.p = self.p & !C_FLAG_BITMASK;
        }
    }

    /// Set or clear V.
    pub fn write_v_flag(&mut self, overflow: bool)
        ensures
            final(self)@ == (CpuState {
                p: set_flag(old(self)@.p, V_FLAG_BITMASK, overflow),
                ..old(self)@
            }),
            final(self).wf() == old(self).wf(),
    {
        if overflow {
            self.p = self.p | V_FLAG_BITMASK;
        } else {
            self.p = self.p & !V_FLAG_BITMASK;
        }
    }

    /// Set or clear N.
    pub fn write_n_flag(&mut self, neg: bool)
        ensures
            final(self)@ == (CpuState {
                p: set_flag(old(self)@.p, N_FLAG_BITMASK, neg),
                ..old(self)@
            }),
            final(self).wf() == old(self).wf(),
    {
        if neg {
            self.p = self.p | N_FLAG_BITMASK;
        } else {
            self.p = self.p & !N_FLAG_BITMASK;
        }
    }

    /// Set or clear D.
    pub fn write_d_flag(&mut self, value: bool)
        ensures
            final(self)@ == (CpuState {
                p: set_flag(old(self)@.p, D_FLAG_BITMASK, value),
                ..old(self)@
            }),
            final(self).wf() == old(self).wf(),
    {
        if value {
            self.p = self.p | D_FLAG_BITMASK;
        } else {
            self.p = self.p & !D_FLAG_BITMASK;
        }
    }

    /// Set or clear I.
    pub fn write_i_flag(&mut self, value: bool)
        ensures
            final(self)@ == (CpuState {
                p: set_flag(old(self)@.p, I_FLAG_BITMASK, value),
                ..old(self)@
            }),
            final(self).wf() == old(self).wf(),
    {
        if value {
            self.p = self.p | I_FLAG_BITMASK;
        } else {
            self.p = self.p & !I_FLAG_BITMASK;
        }
    }

    /// Set or clear Z.
    pub fn write_z_flag(&mut self, value: bool)
        ensures
            final(self)@ == (CpuState {
                p: set_flag(old(self)@.p, Z_FLAG_BITMASK, value),
                ..old(self)@
            }),
            final(self).wf() == old(self).wf(),
    {
        if value {
            self.p = self.p | Z_FLAG_BITMASK;
        } else {
            self.p = self.p & !Z_FLAG_BITMASK;
        }
    }

    /// Set or clear B.
    pub fn write_b_flag(&mut self, value: bool)
        ensures
            final(self)@ == (CpuState {
                p: set_flag(old(self)@.p, B_FLAG_BITMASK, value),
                ..old(self)@
            }),
            final(self).wf() == old(self).wf(),
    {
        if value {
            self.p = self.p | B_FLAG_BITMASK;
        } else {
            self.p = self.p & !B_FLAG_BITMASK;
        }
    }

    /// Set C exactly when adding `b1` and `b2` carries out of 8 bits.
    pub fn update_c_flag_with(&mut self, b1: u8, b2: u8)
        ensures
            final(self)@ == (CpuState {
                p: set_flag(old(self)@.p, C_FLAG_BITMASK, b1 + b2 > 255),
                ..old(self)@
            }),
            final(self).wf() == old(self).wf(),
    {
        let carry = (b1 as u16) + (b2 as u16) > 255;
        self.write_c_flag(carry);
    }

    /// Set V exactly when adding `b1` and `b2` overflows as a signed
    /// addition; the wrapped sum is returned.
    pub fn update_v_flag_with(&mut self, b1: u8, b2: u8) -> (r: u8)
        ensures
            final(self)@ == (CpuState {
                p: set_flag(old(self)@.p, V_FLAG_BITMASK, overflows_signed(b1, b2)),
                ..old(self)@
            }),
            final(self).wf() == old(self).wf(),
            r == b1.wrapping_add(b2),
    {
        let overflow = util::test_overflow(b1, b2);
        self.write_v_flag(overflow);
        b1.wrapping_add(b2)
    }

    /// The program counter as a `usize`, for addressing host-side buffers.
    pub fn pc_usize(&self) -> (r: usize)
        ensures
            r == self@.pc,
    {
        self.pc as usize
    }

    /// Set the program counter.
    pub fn set_pc(&mut self, val: u16)
        ensures
            final(self)@ == (CpuState { pc: val, ..old(self)@ }),
            final(self).wf() == old(self).wf(),
    {
        self.pc = val;
    }

    /// Set the X register.
    pub fn set_x(&mut self, val: u8)
        ensures
            final(self)@ == (CpuState { x: val, ..old(self)@ }),
            final(self).wf() == old(self).wf(),
    {
        self.x = val;
    }

    /// Set the Y register.
    pub fn set_y(&mut self, val: u8)
        ensures
            final(self)@ == (CpuState { y: val, ..old(self)@ }),
            final(self).wf() == old(self).wf(),
    {
        self.y = val;
    }

    /// Advance the program counter by `val`, wrapping at 16 bits.
    pub(crate) fn add_to_pc(&mut self, val: u16)
        ensures
            final(self)@ == (CpuState { pc: old(self)@.pc.wrapping_add(val), ..old(self)@ }),
            final(self).wf() == old(self).wf(),
    {
        self.pc = self.pc.wrapping_add(val);
    }

    /// The accumulator.
    pub fn ac(&self) -> (r: u8)
        ensures
            r == self@.ac,
    {
        self.ac
    }

    /// The status byte.
    pub fn p(&self) -> (r: u8)
        ensures
            r == self@.p,
    {
        self.p
    }

    /// The stack pointer.
    pub fn sp(&self) -> (r: u16)
        ensures
            r == self@.sp,
    {
        self.sp
    }

    /// The X register.
    pub fn x(&self) -> (r: u8)
        ensures
            r == self@.x,
    {
        self.x
    }

    /// The Y register.
    pub fn y(&self) -> (r: u8)
        ensures
            r == self@.y,
    {
        self.y
    }

    /// The program counter.
    pub fn pc(&self) -> (r: u16)
        ensures
            r == self@.pc,
    {
        self.pc
    }

    /// Set every flag whose bit is set in `mask`.
    pub fn or_flags(&mut self, mask: u8)
        ensures
            final(self)@ == (CpuState { p: old(self)@.p | mask, ..old(self)@ }),
            final(self).wf() == old(self).wf(),
    {
        self.p = self.p | mask;
    }

    /// Restore the status byte to its reset value.
    pub fn reset_flags(&mut self)
        ensures
            final(self)@ == (CpuState { p: FLAGS_DEFAULT, ..old(self)@ }),
            final(self).wf() == old(self).wf(),
    {
        self.p = FLAGS_DEFAULT;
    }

    /// Whether N is set.
    pub fn n_flag(&self) -> (r: bool)
        ensures
            r == flag_set(self@.p, N_FLAG_BITMASK),
    {
        (self.p & N_FLAG_BITMASK) != 0
    }

    /// Whether V is set.
    pub fn v_flag(&self) -> (r: bool)
        ensures
            r == flag_set(self@.p, V_FLAG_BITMASK),
    {
        (self.p & V_FLAG_BITMASK) != 0
    }

    /// Whether B is set.
    pub fn b_flag(&self) -> (r: bool)
        ensures
            r == flag_set(self@.p, B_FLAG_BITMASK),
    {
        (self.p & B_FLAG_BITMASK) != 0
    }

    /// Whether D is set.
    pub fn d_flag(&self) -> (r: bool)
        ensures
            r == flag_set(self@.p, D_FLAG_BITMASK),
    {
        (self.p & D_FLAG_BITMASK) != 0
    }

    /// Whether I is set.
    pub fn i_flag(&self) -> (r: bool)
        ensures
            r == flag_set(self@.p, I_FLAG_BITMASK),
    {
        (self.p & I_FLAG_BITMASK) != 0
    }

    /// Whether Z is set.
    pub fn z_flag(&self) -> (r: bool)
        ensures
            r == flag_set(self@.p, Z_FLAG_BITMASK),
    {
        (self.p & Z_FLAG_BITMASK) != 0
    }

    /// Whether C is set.
    pub fn c_flag(&self) -> (r: bool)
        ensures
            r == flag_set(self@.p, C_FLAG_BITMASK),
    {
        (self.p & C_FLAG_BITMASK) != 0
    }

    /// Read the byte at the program counter and decode it against the
    /// opcode table.  Bytes outside the defined set yield the unknown-opcode
    /// failure, carrying the byte; the CPU itself is untouched either way.
    pub fn fetch_next_inst(&self, opc_arr: &Vec<Option<OpMode>>) -> (r: Result<OpMode, Error6502>)
        requires
            self.wf(),
            is_opc_table(opc_arr@),
        ensures
            match r {
                Ok(om) => opc_entry(mem_read(self@.mem, self@.pc)) == Some(om),
                Err(e) => {
                    &&& opc_entry(mem_read(self@.mem, self@.pc)) is None
                    &&& e == Error6502::UnknownOpcode(mem_read(self@.mem, self@.pc))
                },
            },
    {
        let byte = self.mem.read_byte(self.pc);
        match opc_arr[byte as usize] {
            Some(op_mode) => Ok(op_mode),
            None => Err(Error6502::UnknownOpcode(byte)),
        }
    }

    fn set_ir(&mut self, inst: Inst)
        ensures
            final(self)@ == (CpuState { ir: Some(inst), ..old(self)@ }),
            final(self).wf() == old(self).wf(),
    {
        self.ir = Some(inst);
    }

    /// The instruction register: the most recently decoded instruction.
    pub fn ir(&self) -> (r: Option<Inst>)
        ensures
            r == self@.ir,
    {
        self.ir
    }

    /// Set the accumulator.
    pub fn set_ac(&mut self, val: u8)
        ensures
            final(self)@ == (CpuState { ac: val, ..old(self)@ }),
            final(self).wf() == old(self).wf(),
    {
        self.ac = val;
    }

    /// Write a byte into the memory store.
    pub fn write_to_mem(&mut self, addr: u16, byte: u8)
        requires
            old(self).wf(),
        ensures
            final(self).wf(),
            final(self)@ == (CpuState {
                mem: old(self)@.mem.update(addr as int, byte),
                ..old(self)@
            }),
    {
        self.mem.write_byte(addr, byte);
    }

    /// Read the byte at `addr` from the memory store.
    pub fn read_byte_from_mem(&self, addr: u16) -> (r: u8)
        requires
            self.wf(),
        ensures
            r == mem_read(self@.mem, addr),
    {
        self.mem.read_byte(addr)
    }

    /// Read the byte just after the opcode, the immediate operand.
    pub(crate) fn read_immediate_byte(&self) -> (r: u8)
        requires
            self.wf(),
        ensures
            r == mem_read(self@.mem, self@.pc.wrapping_add(1)),
    {
        self.mem.read_byte(self.pc.wrapping_add(1))
    }

    /// Add an instruction's base cycles to the running tally.
    pub(crate) fn add_to_cycle_count(&mut self, cycles: u8)
        ensures
            final(self)@ == (CpuState {
                cycles: old(self)@.cycles.wrapping_add(cycles as usize),
                ..old(self)@
            }),
            final(self).wf() == old(self).wf(),
    {
        self.cycle_count = self.cycle_count.wrapping_add(cycles as usize);
    }

    /// Resolve the branch target for the offset byte at `offset_address`:
    /// the offset is sign-extended and added, with 16-bit wrap, to the
    /// address one past the offset byte.
    pub fn get_relative_address(&self, offset_address: u16) -> (r: u16)
        requires
            self.wf(),
        ensures
            r == rel_target(self@, offset_address),
    {
        let offset = self.mem.read_byte(offset_address);
        let offset_16 = if util::test_negative(offset) {
            util::combine_u8_to_u16(0xFF, offset)
        } else {
            util::combine_u8_to_u16(0x00, offset)
        };
        offset_16.wrapping_add(offset_address).wrapping_add(1)
    }

    /// Resolve the effective address for a memory-referencing addressing
    /// mode, honoring the zero-page and same-page wrap quirks.  The
    /// accumulator, immediate, implied and relative modes have no effective
    /// address and are excluded by the precondition.
    pub fn get_effective_address(&self, address_mode: &AddressMode) -> (r: u16)
        requires
            self.wf(),
            has_effective_addr(*address_mode),
        ensures
            r == effective_addr(self@, *address_mode),
    {
        match address_mode {
            AddressMode::ZPG => {
                let addr = self.mem.read_byte(self.pc.wrapping_add(1));
                util::u8_to_u16(addr)
            },
            AddressMode::ZPGX => {
                let addr = self.mem.read_byte(self.pc.wrapping_add(1));
                util::u8_to_u16(addr.wrapping_add(self.x))
            },
            AddressMode::ZPGY => {
                let addr = self.mem.read_byte(self.pc.wrapping_add(1));
                util::u8_to_u16(addr.wrapping_add(self.y))
            },
            AddressMode::ABS => {
                let ll = self.mem.read_byte(self.pc.wrapping_add(1));
                let hh = self.mem.read_byte(self.pc.wrapping_add(2));
                util::combine_u8_to_u16(hh, ll)
            },
            AddressMode::ABSX => {
                let ll = self.mem.read_byte(self.pc.wrapping_add(1));
                let hh = self.mem.read_byte(self.pc.wrapping_add(2));
                util::combine_u8_to_u16(hh, ll).wrapping_add(util::u8_to_u16(self.x))
            },
            AddressMode::ABSY => {
                let ll = self.mem.read_byte(self.pc.wrapping_add(1));
                let hh = self.mem.read_byte(self.pc.wrapping_add(2));
                util::combine_u8_to_u16(hh, ll).wrapping_add(util::u8_to_u16(self.y))
            },
            AddressMode::IND => {
                let ll = self.mem.read_byte(util::wrapping_add_same_page(self.pc, 1));
                let hh = self.mem.read_byte(util::wrapping_add_same_page(self.pc, 2));
                let ptr = util::combine_u8_to_u16(hh, ll);
                let ea_ll = self.mem.read_byte(ptr);
                let ea_hh = self.mem.read_byte(util::wrapping_add_same_page(ptr, 1));
                util::combine_u8_to_u16(ea_hh, ea_ll)
            },
            AddressMode::INDX => {
                let bb = self.mem.read_byte(self.pc.wrapping_add(1));
                let lo_zp = bb.wrapping_add(self.x);
                let hi_zp = lo_zp.wrapping_add(1);
                let ll = self.mem.read_byte(util::u8_to_u16(lo_zp));
                let hh = self.mem.read_byte(util::u8_to_u16(hi_zp));
                util::combine_u8_to_u16(hh, ll)
            },
            AddressMode::INDY => {
                let zp = self.mem.read_byte(self.pc.wrapping_add(1));
                let ll = self.mem.read_byte(util::u8_to_u16(zp));
                let hh = self.mem.read_byte(util::u8_to_u16(zp.wrapping_add(1)));
                let base = util::combine_u8_to_u16(hh, ll);
                util::wrapping_add_same_page(base, self.y)
            },
            _ => 0,
        }
    }

    /// Fetch the operand byte: the immediate byte for immediate mode, the
    /// byte at the effective address otherwise.
    fn read_operand(&self, address_mode: AddressMode) -> (r: u8)
        requires
            self.wf(),
            !(address_mode is ACC || address_mode is IMPL || address_mode is REL),
        ensures
            r == operand(self@, address_mode),
    {
        match address_mode {
            AddressMode::IMM => self.read_immediate_byte(),
            _ => {
                let addr = self.get_effective_address(&address_mode);
                self.mem.read_byte(addr)
            },
        }
    }

    /// Advance the program counter over the current instruction.
    fn advance_pc_mode(&mut self, address_mode: AddressMode)
        ensures
            final(self)@ == advance(old(self)@, address_mode),
            final(self).wf() == old(self).wf(),
    {
        let len = get_instr_len(&address_mode);
        self.add_to_pc(len);
    }

    fn op_adc(&mut self, address_mode: AddressMode)
        requires
            old(self).wf(),
            !(address_mode is ACC || address_mode is IMPL || address_mode is REL),
        ensures
            final(self).wf(),
            final(self)@ == spec_adc(old(self)@, address_mode),
    {
        let data = self.read_operand(address_mode);
        if self.d_flag() {
            let result = bcd_add_u8(self.ac, data);
            let carry = result > 0b1001_1001;
            self.write_c_flag(carry);
            self.update_z_flag_with(result);
            self.update_n_flag_with(result);
            self.ac = result;
        } else {
            let c_in: u16 = if self.c_flag() {
                1
            } else {
                0
            };
            let sum: u16 = (self.ac as u16) + (data as u16) + c_in;
            let result: u8 = (sum % 256) as u8;
            let carry: bool = sum > 255;
            let ac_s = util::to_signed(self.ac);
            let data_s = util::to_signed(data);
            let sum_signed: i16 = ac_s + data_s + (c_in as i16);
            let overflow = sum_signed > 127 || sum_signed < -128;
            self.write_c_flag(carry);
            self.write_v_flag(overflow);
            self.update_z_flag_with(result);
            self.update_n_flag_with(result);
            self.ac = result;
        }
        self.advance_pc_mode(address_mode);
    }

    fn op_and(&mut self, address_mode: AddressMode)
        requires
            old(self).wf(),
            !(address_mode is ACC || address_mode is IMPL || address_mode is REL),
        ensures
            final(self).wf(),
            final(self)@ == spec_and(old(self)@, address_mode),
    {
        let data = self.read_operand(address_mode);
        let result = self.ac & data;
        self.ac = result;
        self.update_n_flag_with(result);
        self.update_z_flag_with(result);
        self.advance_pc_mode(address_mode);
    }

    fn op_asl(&mut self, address_mode: AddressMode)
        requires
            old(self).wf(),
            !(address_mode is IMM || address_mode is IMPL || address_mode is REL),
        ensures
            final(self).wf(),
            final(self)@ == spec_asl(old(self)@, address_mode),
    {
        let (is_memory, val, address): (bool, u8, u16) = match address_mode {
            AddressMode::ACC => (false, self.ac, 0x00),
            _ => {
                let addr = self.get_effective_address(&address_mode);
                (true, self.mem.read_byte(addr), addr)
            },
        };
        let carry = val & 0x80 != 0;
        let result = val << 1u8;
        if is_memory {
            self.mem.write_byte(address, result);
        } else {
            self.ac = result;
        }
        self.update_n_flag_with(result);
        self.update_z_flag_with(result);
        self.write_c_flag(carry);
        self.advance_pc_mode(address_mode);
    }

    fn op_branch(&mut self, taken: bool, address_mode: AddressMode)
        requires
            old(self).wf(),
        ensures
            final(self).wf(),
            final(self)@ == spec_branch(old(self)@, taken, address_mode),
    {
        if taken {
            let target = self.get_relative_address(self.pc.wrapping_add(1));
            self.pc = target;
        } else {
            self.advance_pc_mode(address_mode);
        }
    }

    fn op_bit(&mut self, address_mode: AddressMode)
        requires
            old(self).wf(),
            has_effective_addr(address_mode),
        ensures
            final(self).wf(),
            final(self)@ == spec_bit(old(self)@, address_mode),
    {
        let addr = self.get_effective_address(&address_mode);
        let data = self.mem.read_byte(addr);
        let equal = self.ac == data;
        let m7 = data & 0x80 != 0;
        let m6 = data & 0x40 != 0;
        self.write_z_flag(!equal);
        self.write_v_flag(m6);
        self.write_n_flag(m7);
        self.advance_pc_mode(address_mode);
    }

    fn op_brk(&mut self)
        requires
            old(self).wf(),
        ensures
            final(self).wf(),
            final(self)@ == spec_brk(old(self)@),
    {
        let ret = self.pc.wrapping_add(2);
        let ret_hh = (ret / 256) as u8;
        let ret_ll = (ret % 256) as u8;
        self.stack_push(ret_hh);
        self.stack_push(ret_ll);
        self.write_b_flag(true);
        let pb = self.p;
        self.stack_push(pb);
        let new_ll = self.mem.read_byte(0xFFFE);
        let new_hh = self.mem.read_byte(0xFFFF);
        self.pc = util::combine_u8_to_u16(new_hh, new_ll);
    }

    fn op_compare(&mut self, reg: u8, address_mode: AddressMode)
        requires
            old(self).wf(),
            !(address_mode is ACC || address_mode is IMPL || address_mode is REL),
        ensures
            final(self).wf(),
            final(self)@ == spec_compare(old(self)@, reg, address_mode),
    {
        let data = self.read_operand(address_mode);
        let diff = reg.wrapping_sub(data);
        self.update_z_flag_with(diff);
        self.write_c_flag(reg >= data);
        self.update_n_flag_with(diff);
        self.advance_pc_mode(address_mode);
    }

    fn op_dec(&mut self, address_mode: AddressMode)
        requires
            old(self).wf(),
            has_effective_addr(address_mode),
        ensures
            final(self).wf(),
            final(self)@ == spec_dec(old(self)@, address_mode),
    {
        let addr = self.get_effective_address(&address_mode);
        let data = self.mem.read_byte(addr);
        let result = data.wrapping_sub(1);
        self.mem.write_byte(addr, result);
        self.update_n_flag_with(result);
        self.update_z_flag_with(result);
        self.advance_pc_mode(address_mode);
    }

    fn op_inc(&mut self, address_mode: AddressMode)
        requires
            old(self).wf(),
            has_effective_addr(address_mode),
        ensures
            final(self).wf(),
            final(self)@ == spec_inc(old(self)@, address_mode),
    {
        let addr = self.get_effective_address(&address_mode);
        let data = self.mem.read_byte(addr);
        let result = data.wrapping_add(1);
        self.mem.write_byte(addr, result);
        self.update_n_flag_with(result);
        self.update_z_flag_with(result);
        self.advance_pc_mode(address_mode);
    }

    fn op_eor(&mut self, address_mode: AddressMode)
        requires
            old(self).wf(),
            !(address_mode is ACC || address_mode is IMPL || address_mode is REL),
        ensures
            final(self).wf(),
            final(self)@ == spec_eor(old(self)@, address_mode),
    {
        let data = self.read_operand(address_mode);
        let result = self.ac ^ data;
        self.ac = result;
        self.update_z_flag_with(result);
        self.update_n_flag_with(result);
        self.advance_pc_mode(address_mode);
    }

    fn op_jmp(&mut self, address_mode: AddressMode)
        requires
            old(self).wf(),
            has_effective_addr(address_mode),
        ensures
            final(self).wf(),
            final(self)@ == spec_jmp(old(self)@, address_mode),
    {
        let addr = self.get_effective_address(&address_mode);
        self.pc = addr;
    }

    fn op_jsr(&mut self, address_mode: AddressMode)
        requires
            old(self).wf(),
            has_effective_addr(address_mode),
        ensures
            final(self).wf(),
            final(self)@ == spec_jsr(old(self)@, address_mode),
    {
        let ret = self.pc.wrapping_add(2);
        let ret_ll = (ret % 256) as u8;
        let ret_hh = (ret / 256) as u8;
        self.stack_push(ret_ll);
        self.stack_push(ret_hh);
        let addr = self.get_effective_address(&address_mode);
        self.pc = addr;
    }

    fn op_lda(&mut self, address_mode: AddressMode)
        requires
            old(self).wf(),
            !(address_mode is ACC || address_mode is IMPL || address_mode is REL),
        ensures
            final(self).wf(),
            final(self)@ == spec_lda(old(self)@, address_mode),
    {
        let data = self.read_operand(address_mode);
        self.ac = data;
        self.update_z_flag_with(data);
        self.update_n_flag_with(data);
        self.advance_pc_mode(address_mode);
    }

    fn op_ldx(&mut self, address_mode: AddressMode)
        requires
            old(self).wf(),
            !(address_mode is ACC || address_mode is IMPL || address_mode is REL),
        ensures
            final(self).wf(),
            final(self)@ == spec_ldx(old(self)@, address_mode),
    {
        let data = self.read_operand(address_mode);
        self.x = data;
        self.update_z_flag_with(data);
        self.update_n_flag_with(data);
        self.advance_pc_mode(address_mode);
    }

    fn op_ldy(&mut self, address_mode: AddressMode)
        requires
            old(self).wf(),
            !(address_mode is ACC || address_mode is IMPL || address_mode is REL),
        ensures
            final(self).wf(),
            final(self)@ == spec_ldy(old(self)@, address_mode),
    {
        let data = self.read_operand(address_mode);
        self.y = data;
        self.update_z_flag_with(data);
        self.update_n_flag_with(data);
        self.advance_pc_mode(address_mode);
    }

    fn op_lsr(&mut self, address_mode: AddressMode)
        requires
            old(self).wf(),
            !(address_mode is IMM || address_mode is IMPL || address_mode is REL),
        ensures
            final(self).wf(),
            final(self)@ == spec_lsr(old(self)@, address_mode),
    {
        let (is_acc, address, val): (bool, u16, u8) = match address_mode {
            AddressMode::ACC => (true, 0x0000, self.ac),
            _ => {
                let addr = self.get_effective_address(&address_mode);
                (false, addr, self.mem.read_byte(addr))
            },
        };
        self.write_c_flag(val & 0x01 != 0);
        let result = val >> 1u8;
        self.update_z_flag_with(result);
        self.update_n_flag_with(result);
        if is_acc {
            self.ac = result;
        } else {
            self.mem.write_byte(address, result);
        }
        self.advance_pc_mode(address_mode);
    }

    fn op_ora(&mut self, address_mode: AddressMode)
        requires
            old(self).wf(),
            !(address_mode is ACC || address_mode is IMPL || address_mode is REL),
        ensures
            final(self).wf(),
            final(self)@ == spec_ora(old(self)@, address_mode),
    {
        let data = self.read_operand(address_mode);
        let result = self.ac | data;
        self.update_n_flag_with(result);
        self.update_z_flag_with(result);
        self.ac = result;
        self.advance_pc_mode(address_mode);
    }

    fn op_pla(&mut self, address_mode: AddressMode)
        requires
            old(self).wf(),
        ensures
            final(self).wf(),
            final(self)@ == spec_pla(old(self)@, address_mode),
    {
        let val = self.stack_pop();
        self.ac = val;
        self.update_z_flag_with(val);
        self.update_n_flag_with(val);
        self.advance_pc_mode(address_mode);
    }

    fn op_plp(&mut self, address_mode: AddressMode)
        requires
            old(self).wf(),
        ensures
            final(self).wf(),
            final(self)@ == spec_plp(old(self)@, address_mode),
    {
        let val = self.stack_pop();
        self.p = val;
        self.advance_pc_mode(address_mode);
    }

    fn op_rol(&mut self, address_mode: AddressMode)
        requires
            old(self).wf(),
            !(address_mode is IMM || address_mode is IMPL || address_mode is REL),
        ensures
            final(self).wf(),
            final(self)@ == spec_rol(old(self)@, address_mode),
    {
        let (is_memory, val, address): (bool, u8, u16) = match address_mode {
            AddressMode::ACC => (false, self.ac, 0x00),
            _ => {
                let addr = self.get_effective_address(&address_mode);
                (true, self.mem.read_byte(addr), addr)
            },
        };
        let carry_out = val & 0x80 != 0;
        let shifted = val << 1u8;
        let result = if self.c_flag() {
            shifted | 0x01
        } else {
            shifted
        };
        if is_memory {
            self.mem.write_byte(address, result);
        } else {
            self.ac = result;
        }
        self.update_n_flag_with(result);
        self.update_z_flag_with(result);
        self.write_c_flag(carry_out);
        self.advance_pc_mode(address_mode);
    }

    fn op_ror(&mut self, address_mode: AddressMode)
        requires
            old(self).wf(),
            !(address_mode is IMM || address_mode is IMPL || address_mode is REL),
        ensures
            final(self).wf(),
            final(self)@ == spec_ror(old(self)@, address_mode),
    {
        let (is_memory, val, address): (bool, u8, u16) = match address_mode {
            AddressMode::ACC => (false, self.ac, 0x00),
            _ => {
                let addr = self.get_effective_address(&address_mode);
                (true, self.mem.read_byte(addr), addr)
            },
        };
        let carry_out = val & 0x01 != 0;
        let shifted = val >> 1u8;
        let result = if self.c_flag() {
            shifted | 0x80
        } else {
            shifted
        };
        if is_memory {
            self.mem.write_byte(address, result);
        } else {
            self.ac = result;
        }
        self.update_n_flag_with(result);
        self.update_z_flag_with(result);
        self.write_c_flag(carry_out);
        self.advance_pc_mode(address_mode);
    }

    fn op_rti(&mut self)
        requires
            old(self).wf(),
        ensures
            final(self).wf(),
            final(self)@ == spec_rti(old(self)@),
    {
        let p = self.stack_pop();
        let pc_ll = self.stack_pop();
        let pc_hh = self.stack_pop();
        self.p = p;
        self.pc = util::combine_u8_to_u16(pc_hh, pc_ll);
    }

    fn op_rts(&mut self)
        requires
            old(self).wf(),
        ensures
            final(self).wf(),
            final(self)@ == spec_rts(old(self)@),
    {
        let hi = self.stack_pop();
        let lo = self.stack_pop();
        self.pc = util::combine_u8_to_u16(hi, lo).wrapping_add(1);
    }

    fn op_sbc(&mut self, address_mode: AddressMode)
        requires
            old(self).wf(),
            !(address_mode is ACC || address_mode is IMPL || address_mode is REL),
            !flag_set(old(self)@.p, D_FLAG_BITMASK),
        ensures
            final(self).wf(),
            final(self)@ == spec_sbc(old(self)@, address_mode),
    {
        let data = self.read_operand(address_mode);
        let ac = self.ac;
        let borrow: u8 = if self.c_flag() {
            0
        } else {
            1
        };
        let ac_s = util::to_signed(ac);
        let data_s = util::to_signed(data);
        let diff: i16 = ac_s - data_s - (borrow as i16);
        let overflow = diff > 127 || diff < -128;
        let result = ac.wrapping_sub(data).wrapping_sub(borrow);
        let no_borrow = (ac as u16) >= (data as u16) + (borrow as u16);
        self.ac = result;
        self.update_n_flag_with(result);
        self.write_v_flag(overflow);
        self.update_z_flag_with(result);
        self.write_c_flag(no_borrow);
        self.advance_pc_mode(address_mode);
    }

    fn op_store(&mut self, val: u8, address_mode: AddressMode)
        requires
            old(self).wf(),
            has_effective_addr(address_mode),
        ensures
            final(self).wf(),
            final(self)@ == spec_store(old(self)@, val, address_mode),
    {
        let address = self.get_effective_address(&address_mode);
        self.write_to_mem(address, val);
        self.advance_pc_mode(address_mode);
    }

    #[verifier::rlimit(100)]
    fn step_inst_adc_bvs(&mut self, inst: Inst, address_mode: AddressMode)
        requires
            old(self).wf(),
            mode_ok(inst, address_mode),
            inst is ADC || inst is AND || inst is ASL || inst is BCC || inst is BCS
                || inst is BEQ || inst is BIT || inst is BMI || inst is BNE || inst is BPL
                || inst is BRK || inst is BVC || inst is BVS,
        ensures
            final(self).wf(),
            final(self)@ == step_spec(old(self)@, inst, address_mode),
    {
        match inst {
            Inst::ADC => self.op_adc(address_mode),
            Inst::AND => self.op_and(address_mode),
            Inst::ASL => self.op_asl(address_mode),
            Inst::BCC => {
                let taken = !self.c_flag();
                self.op_branch(taken, address_mode);
            },
            Inst::BCS => {
                let taken = self.c_flag();
                self.op_branch(taken, address_mode);
            },
            Inst::BEQ => {
                let taken = self.z_flag();
                self.op_branch(taken, address_mode);
            },
            Inst::BIT => self.op_bit(address_mode),
            Inst::BMI => {
                let taken = self.n_flag();
                self.op_branch(taken, address_mode);
            },
            Inst::BNE => {
                let taken = !self.z_flag();
                self.op_branch(taken, address_mode);
            },
            Inst::BPL => {
                let taken = !self.n_flag();
                self.op_branch(taken, address_mode);
            },
            Inst::BRK => self.op_brk(),
            Inst::BVC => {
                let taken = !self.v_flag();
                self.op_branch(taken, address_mode);
            },
            Inst::BVS => {
                let taken = self.v_flag();
                self.op_branch(taken, address_mode);
            },
            _ => {
                proof {
                    assert(false);
                }
            },
        }
    }

    #[verifier::rlimit(100)]
    fn step_inst_clc_iny(&mut self, inst: Inst, address_mode: AddressMode)
        requires
            old(self).wf(),
            mode_ok(inst, address_mode),
            inst is CLC || inst is CLD || inst is CLI || inst is CLV || inst is CMP
                || inst is CPX || inst is CPY || inst is DEC || inst is DEX || inst is DEY
                || inst is EOR || inst is INC || inst is INX || inst is INY,
        ensures
            final(self).wf(),
            final(self)@ == step_spec(old(self)@, inst, address_mode),
    {
        match inst {
            Inst::CLC => {
                self.write_c_flag(false);
                self.advance_pc_mode(address_mode);
            },
            Inst::CLD => {
                self.write_d_flag(false);
                self.advance_pc_mode(address_mode);
            },
            Inst::CLI => {
                self.write_i_flag(false);
                self.advance_pc_mode(address_mode);
            },
            Inst::CLV => {
                self.write_v_flag(false);
                self.advance_pc_mode(address_mode);
            },
            Inst::CMP => {
                let reg = self.ac;
                self.op_compare(reg, address_mode);
            },
            Inst::CPX => {
                let reg = self.x;
                self.op_compare(reg, address_mode);
            },
            Inst::CPY => {
                let reg = self.y;
                self.op_compare(reg, address_mode);
            },
            Inst::DEC => self.op_dec(address_mode),
            Inst::DEX => {
                let v = self.x.wrapping_sub(1);
                self.x = v;
                self.update_z_flag_with(v);
                self.update_n_flag_with(v);
                self.advance_pc_mode(address_mode);
            },
            Inst::DEY => {
                let v = self.y.wrapping_sub(1);
                self.y = v;
                self.update_z_flag_with(v);
                self.update_n_flag_with(v);
                self.advance_pc_mode(address_mode);
            },
            Inst::EOR => self.op_eor(address_mode),
            Inst::INC => self.op_inc(address_mode),
            Inst::INX => {
                let v = self.x.wrapping_add(1);
                self.x = v;
                self.update_n_flag_with(v);
                self.update_z_flag_with(v);
                self.advance_pc_mode(address_mode);
            },
            Inst::INY => {
                let v = self.y.wrapping_add(1);
                self.y = v;
                self.update_n_flag_with(v);
                self.update_z_flag_with(v);
                self.advance_pc_mode(address_mode);
            },
            _ => {
                proof {
                    assert(false);
                }
            },
        }
    }

    #[verifier::rlimit(100)]
    fn step_inst_jmp_plp(&mut self, inst: Inst, address_mode: AddressMode)
        requires
            old(self).wf(),
            mode_ok(inst, address_mode),
            inst is JMP || inst is JSR || inst is LDA || inst is LDX || inst is LDY
                || inst is LSR || inst is NOP || inst is ORA || inst is PHA || inst is PHP
                || inst is PLA || inst is PLP,
        ensures
            final(self).wf(),
            final(self)@ == step_spec(old(self)@, inst, address_mode),
    {
        match inst {
            Inst::JMP => self.op_jmp(address_mode),
            Inst::JSR => self.op_jsr(address_mode),
            Inst::LDA => self.op_lda(address_mode),
            Inst::LDX => self.op_ldx(address_mode),
            Inst::LDY => self.op_ldy(address_mode),
            Inst::LSR => self.op_lsr(address_mode),
            Inst::NOP => {
                self.advance_pc_mode(address_mode);
            },
            Inst::ORA => self.op_ora(address_mode),
            Inst::PHA => {
                let v = self.ac;
                self.stack_push(v);
                self.advance_pc_mode(address_mode);
            },
            Inst::PHP => {
                let v = self.p;
                self.stack_push(v);
                self.advance_pc_mode(address_mode);
            },
            Inst::PLA => self.op_pla(address_mode),
            Inst::PLP => self.op_plp(address_mode),
            _ => {
                proof {
                    assert(false);
                }
            },
        }
    }

    #[verifier::rlimit(100)]
    fn step_inst_rol_tya(&mut self, inst: Inst, address_mode: AddressMode)
        requires
            old(self).wf(),
            mode_ok(inst, address_mode),
            inst is ROL || inst is ROR || inst is RTI || inst is RTS || inst is SBC
                || inst is SEC || inst is SED || inst is SEI || inst is STA || inst is STX
                || inst is STY || inst is TAX || inst is TAY || inst is TSX || inst is TXA
                || inst is TXS || inst is TYA,
            !(inst is SBC && flag_set(old(self)@.p, D_FLAG_BITMASK)),
        ensures
            final(self).wf(),
            final(self)@ == step_spec(old(self)@, inst, address_mode),
    {
        match inst {
            Inst::ROL => self.op_rol(address_mode),
            Inst::ROR => self.op_ror(address_mode),
            Inst::RTI => self.op_rti(),
            Inst::RTS => self.op_rts(),
            Inst::SBC => self.op_sbc(address_mode),
            Inst::SEC => {
                self.write_c_flag(true);
                self.advance_pc_mode(address_mode);
            },
            Inst::SED => {
                self.write_d_flag(true);
                self.advance_pc_mode(address_mode);
            },
            Inst::SEI => {
                self.write_i_flag(true);
                self.advance_pc_mode(address_mode);
            },
            Inst::STA => {
                let v = self.ac;
                self.op_store(v, address_mode);
            },
            Inst::STX => {
                let v = self.x;
                self.op_store(v, address_mode);
            },
            Inst::STY => {
                let v = self.y;
                self.op_store(v, address_mode);
            },
            Inst::TAX => {
                let v = self.ac;
                self.x = v;
                self.update_n_flag_with(v);
                self.update_z_flag_with(v);
                self.advance_pc_mode(address_mode);
            },
            Inst::TAY => {
                let v = self.ac;
                self.y = v;
                self.update_n_flag_with(v);
                self.update_z_flag_with(v);
                self.advance_pc_mode(address_mode);
            },
            Inst::TSX => {
                let v = (self.sp % 256) as u8;
                self.x = v;
                self.update_z_flag_with(v);
                self.update_n_flag_with(v);
                self.advance_pc_mode(address_mode);
            },
            Inst::TXA => {
                let v = self.x;
                self.ac = v;
                self.update_n_flag_with(v);
                self.update_z_flag_with(v);
                self.advance_pc_mode(address_mode);
            },
            Inst::TXS => {
                self.sp = util::combine_u8_to_u16(0x01, self.x);
                self.advance_pc_mode(address_mode);
            },
            Inst::TYA => {
                let v = self.y;
                self.ac = v;
                self.update_n_flag_with(v);
                self.update_z_flag_with(v);
                self.advance_pc_mode(address_mode);
            },
            _ => {
                proof {
                    assert(false);
                }
            },
        }
    }

    /// Execute one decoded instruction: read its operand, mutate registers,
    /// flags and memory, and advance or reassign the program counter.  The
    /// result is exactly one step of the machine model.  Decimal-mode
    /// subtraction is deliberately unimplemented and excluded by the
    /// precondition.
    pub fn step_inst(&mut self, inst: Inst, address_mode: AddressMode) -> (r: Result<
        (),
        Error6502,
    >)
        requires
            old(self).wf(),
            mode_ok(inst, address_mode),
            !(inst is SBC && flag_set(old(self)@.p, D_FLAG_BITMASK)),
        ensures
            final(self).wf(),
            final(self)@ == step_spec(old(self)@, inst, address_mode),
            r is Ok,
    {
        match inst {
            Inst::ADC | Inst::AND | Inst::ASL | Inst::BCC | Inst::BCS | Inst::BEQ | Inst::BIT
                | Inst::BMI | Inst::BNE | Inst::BPL | Inst::BRK | Inst::BVC | Inst::BVS => self
                .step_inst_adc_bvs(inst, address_mode),
            Inst::CLC | Inst::CLD | Inst::CLI | Inst::CLV | Inst::CMP | Inst::CPX | Inst::CPY
                | Inst::DEC | Inst::DEX | Inst::DEY | Inst::EOR | Inst::INC | Inst::INX
                | Inst::INY => self.step_inst_clc_iny(inst, address_mode),
            Inst::JMP | Inst::JSR | Inst::LDA | Inst::LDX | Inst::LDY | Inst::LSR | Inst::NOP
                | Inst::ORA | Inst::PHA | Inst::PHP | Inst::PLA | Inst::PLP => self
                .step_inst_jmp_plp(inst, address_mode),
            Inst::ROL | Inst::ROR | Inst::RTI | Inst::RTS | Inst::SBC | Inst::SEC | Inst::SED
                | Inst::SEI | Inst::STA | Inst::STX | Inst::STY | Inst::TAX | Inst::TAY
                | Inst::TSX | Inst::TXA | Inst::TXS | Inst::TYA => self.step_inst_rol_tya(
                inst,
                address_mode,
            ),
        }
        Ok(())
    }
}

/// The number of bytes an instruction with the given addressing mode
/// occupies.
pub fn get_instr_len(addr_mode: &AddressMode) -> (r: u16)
    ensures
        r == instr_len(*addr_mode),
{
    match addr_mode {
        AddressMode::ACC => 1,
        AddressMode::ABS => 3,
        AddressMode::ABSX => 3,
        AddressMode::ABSY => 3,
        AddressMode::IMM => 2,
        AddressMode::IMPL => 1,
        AddressMode::IND => 3,
        AddressMode::INDX => 2,
        AddressMode::INDY => 2,
        AddressMode::REL => 2,
        AddressMode::ZPGX => 2,
        AddressMode::ZPGY => 2,
        AddressMode::ZPG => 2,
    }
}

} // verus!
