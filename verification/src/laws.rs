use vstd::prelude::*;

use crate::opc::{defined_below, instr_len, opc_entry, opcode_of, AddressMode, Inst, OpMode};
use crate::state::{
    flag_set, full_step, mem_read, mode_ok, pop_bytes_state, pop_bytes_values, pop_state,
    pop_value, push_byte, push_bytes, reaches, reaches_in, reassigns_pc, set_flag, step_spec,
    upd_n, upd_z, CpuState, B_FLAG_BITMASK, N_FLAG_BITMASK, Z_FLAG_BITMASK,
};

verus! {

/// Reachability is reflexive: every state reaches itself in zero steps.
pub proof fn lemma_reaches_refl(s: CpuState)
    ensures
        reaches(s, s),
{
    assert(reaches_in(s, s, 0));
}

proof fn lemma_reaches_in_step(s0: CpuState, s: CpuState, om: OpMode, n: nat)
    requires
        reaches_in(s0, s, n),
        opc_entry(mem_read(s.mem, s.pc)) == Some(om),
    ensures
        reaches_in(s0, full_step(s, om), n + 1),
    decreases n,
{
    if n == 0 {
        assert(reaches_in(full_step(s, om), full_step(s, om), 0));
    } else {
        let om0 = opc_entry(mem_read(s0.mem, s0.pc))->Some_0;
        lemma_reaches_in_step(full_step(s0, om0), s, om, (n - 1) as nat);
    }
}

/// A trace grows by one step: a state that reaches `s` also reaches the
/// state after the instruction decoded at `s`'s program counter executes.
pub proof fn lemma_reaches_step(s0: CpuState, s: CpuState, om: OpMode)
    requires
        reaches(s0, s),
        opc_entry(mem_read(s.mem, s.pc)) == Some(om),
    ensures
        reaches(s0, full_step(s, om)),
{
    let n = choose|n: nat| reaches_in(s0, s, n);
    lemma_reaches_in_step(s0, s, om, n);
    assert(reaches_in(s0, full_step(s, om), n + 1));
}

/// A state whose program-counter byte is undefined takes no step: anything
/// it reaches is itself.  Together with the run loop's contract this gives
/// the no-partial-state-change guarantee on the unknown-opcode failure —
/// the halted CPU is byte-for-byte a whole-instruction boundary.
pub proof fn lemma_reaches_stuck(s: CpuState, t: CpuState)
    requires
        reaches(s, t),
        opc_entry(mem_read(s.mem, s.pc)) is None,
    ensures
        t == s,
{
    let n = choose|n: nat| reaches_in(s, t, n);
    assert(n == 0);
}

/// Cycle accounting: executing an instruction leaves the cycle tally
/// untouched, and a complete machine step adds exactly the decoded entry's
/// base cycle count to it — no page-cross penalties.
#[verifier::rlimit(100)]
pub proof fn lemma_step_cycles(s: CpuState, om: OpMode)
    ensures
        step_spec(s, om.0, om.1).cycles == s.cycles,
        full_step(s, om).cycles == s.cycles.wrapping_add(om.2 as usize),
{
}

/// Every entry of the opcode table pairs its instruction with an addressing
/// mode that is legal for it, so a decoded instruction can always be
/// executed.
#[verifier::rlimit(100)]
pub proof fn lemma_table_modes_ok()
    ensures
        forall|b: u8| (#[trigger] opc_entry(b)) matches Some(om) ==> mode_ok(om.0, om.1),
{
}

#[verifier::rlimit(100)]
proof fn lemma_defined_below_32()
    ensures
        defined_below(32) == 17,
{
    reveal_with_fuel(defined_below, 33);
}

#[verifier::rlimit(100)]
proof fn lemma_defined_below_64()
    ensures
        defined_below(64) == defined_below(32) + 19,
{
    reveal_with_fuel(defined_below, 33);
}

#[verifier::rlimit(100)]
proof fn lemma_defined_below_96()
    ensures
        defined_below(96) == defined_below(64) + 18,
{
    reveal_with_fuel(defined_below, 33);
}

#[verifier::rlimit(100)]
proof fn lemma_defined_below_128()
    ensures
        defined_below(128) == defined_below(96) + 18,
{
    reveal_with_fuel(defined_below, 33);
}

#[verifier::rlimit(100)]
proof fn lemma_defined_below_160()
    ensures
        defined_below(160) == defined_below(128) + 18,
{
    reveal_with_fuel(defined_below, 33);
}

#[verifier::rlimit(100)]
proof fn lemma_defined_below_192()
    ensures
        defined_below(192) == defined_below(160) + 23,
{
    reveal_with_fuel(defined_below, 33);
}

#[verifier::rlimit(100)]
proof fn lemma_defined_below_224()
    ensures
        defined_below(224) == defined_below(192) + 19,
{
    reveal_with_fuel(defined_below, 33);
}

#[verifier::rlimit(100)]
proof fn lemma_defined_below_256()
    ensures
        defined_below(256) == defined_below(224) + 19,
{
    reveal_with_fuel(defined_below, 33);
}

/// Exactly 151 of the 256 opcode bytes decode to an instruction.
pub proof fn lemma_table_has_151_entries()
    ensures
        defined_below(256) == 151,
{
    lemma_defined_below_32();
    lemma_defined_below_64();
    lemma_defined_below_96();
    lemma_defined_below_128();
    lemma_defined_below_160();
    lemma_defined_below_192();
    lemma_defined_below_224();
    lemma_defined_below_256();
}

/// The opcode table is the inverse of [`opcode_of`]: a byte that decodes
/// to an (instruction, addressing-mode) pair is the one byte that encodes
/// that pair.
#[verifier::rlimit(100)]
pub proof fn lemma_table_inverts_encoding()
    ensures
        forall|b: u8| (#[trigger] opc_entry(b)) matches Some(om) ==> opcode_of(om.0, om.1)
            == Some(b),
{
}

/// No two opcode bytes decode to the same (instruction, addressing-mode)
/// pair: the builder's uniqueness rule holds of the frozen table.
pub proof fn lemma_table_pairs_unique(b1: u8, b2: u8)
    requires
        opc_entry(b1) is Some,
        opc_entry(b2) is Some,
        b1 != b2,
    ensures
        opc_entry(b1)->Some_0.0 != opc_entry(b2)->Some_0.0 || opc_entry(b1)->Some_0.1
            != opc_entry(b2)->Some_0.1,
{
    lemma_table_inverts_encoding();
}

/// After N and Z are updated from a result byte `r`, N is set exactly when
/// `r` is at least 128 and Z exactly when `r` is zero, whichever order the
/// two updates ran in; every other flag bit keeps its value.
pub proof fn lemma_nz_flags(p: u8, r: u8)
    ensures
        flag_set(upd_n(upd_z(p, r), r), N_FLAG_BITMASK) == (r >= 128),
        flag_set(upd_n(upd_z(p, r), r), Z_FLAG_BITMASK) == (r == 0),
        flag_set(upd_z(upd_n(p, r), r), N_FLAG_BITMASK) == (r >= 128),
        flag_set(upd_z(upd_n(p, r), r), Z_FLAG_BITMASK) == (r == 0),
        upd_n(upd_z(p, r), r) == upd_z(upd_n(p, r), r),
        forall|mask: u8|
            mask & (N_FLAG_BITMASK | Z_FLAG_BITMASK) == 0 ==> #[trigger] flag_set(
                upd_n(upd_z(p, r), r),
                mask,
            ) == flag_set(p, mask),
{
    assert(((if r & 0x80 != 0 {
        (if r == 0 {
            p | 0x02u8
        } else {
            p & !0x02u8
        }) | 0x80u8
    } else {
        (if r == 0 {
            p | 0x02u8
        } else {
            p & !0x02u8
        }) & !0x80u8
    }) & 0x80u8 != 0) == (r >= 128)) by (bit_vector);
    assert(((if r & 0x80 != 0 {
        (if r == 0 {
            p | 0x02u8
        } else {
            p & !0x02u8
        }) | 0x80u8
    } else {
        (if r == 0 {
            p | 0x02u8
        } else {
            p & !0x02u8
        }) & !0x80u8
    }) & 0x02u8 != 0) == (r == 0)) by (bit_vector);
    assert forall|mask: u8| mask & (0x80u8 | 0x02u8) == 0 implies #[trigger] flag_set(
        upd_n(upd_z(p, r), r),
        mask,
    ) == flag_set(p, mask) by {
        lemma_masked_update_preserves(p, r, mask);
    }
    assert((if r & 0x80 != 0 {
        (if r == 0 {
            p | 0x02u8
        } else {
            p & !0x02u8
        }) | 0x80u8
    } else {
        (if r == 0 {
            p | 0x02u8
        } else {
            p & !0x02u8
        }) & !0x80u8
    }) == (if r == 0 {
        (if r & 0x80 != 0 {
            p | 0x80u8
        } else {
            p & !0x80u8
        }) | 0x02u8
    } else {
        (if r & 0x80 != 0 {
            p | 0x80u8
        } else {
            p & !0x80u8
        }) & !0x02u8
    })) by (bit_vector);
}

proof fn lemma_masked_update_preserves(p: u8, r: u8, mask: u8)
    requires
        mask & (0x80u8 | 0x02u8) == 0,
    ensures
        flag_set(upd_n(upd_z(p, r), r), mask) == flag_set(p, mask),
{
    assert(mask & (0x80u8 | 0x02u8) == 0 ==> ((if r & 0x80 != 0 {
        (if r == 0 {
            p | 0x02u8
        } else {
            p & !0x02u8
        }) | 0x80u8
    } else {
        (if r == 0 {
            p | 0x02u8
        } else {
            p & !0x02u8
        }) & !0x80u8
    }) & mask != 0) == (p & mask != 0)) by (bit_vector);
}

/// For any instruction that does not reassign the program counter in state
/// `s` — every instruction but the jumps, calls, returns, BRK and taken
/// branches — one step advances the program counter by exactly the
/// addressing mode's instruction length, with 16-bit wrap.
#[verifier::rlimit(100)]
pub proof fn lemma_pc_advances(s: CpuState, inst: Inst, mode: AddressMode)
    requires
        !reassigns_pc(s, inst),
    ensures
        step_spec(s, inst, mode).pc == s.pc.wrapping_add(instr_len(mode)),
{
}

/// A subroutine call followed at once by its return: after `JSR` and then
/// `RTS`, the program counter sits one past the call's last byte and the
/// stack pointer is back where it started.
pub proof fn lemma_jsr_rts_round_trip(s: CpuState)
    requires
        s.mem.len() == 0x10000,
    ensures
        step_spec(step_spec(s, Inst::JSR, AddressMode::ABS), Inst::RTS, AddressMode::IMPL).pc
            == s.pc.wrapping_add(3),
        step_spec(step_spec(s, Inst::JSR, AddressMode::ABS), Inst::RTS, AddressMode::IMPL).sp
            == s.sp,
{
}

/// Pushing the status byte and popping it back (`PHP` then `PLP`) restores
/// the entire status byte, and the stack pointer with it.
pub proof fn lemma_php_plp_round_trip(s: CpuState)
    requires
        s.mem.len() == 0x10000,
    ensures
        step_spec(step_spec(s, Inst::PHP, AddressMode::IMPL), Inst::PLP, AddressMode::IMPL).p
            == s.p,
        step_spec(step_spec(s, Inst::PHP, AddressMode::IMPL), Inst::PLP, AddressMode::IMPL).sp
            == s.sp,
{
}

/// Pushing the accumulator and popping it back (`PHA` then `PLA`) restores
/// the accumulator, restores the stack pointer, and updates N and Z from
/// the restored value.
pub proof fn lemma_pha_pla_round_trip(s: CpuState)
    requires
        s.mem.len() == 0x10000,
    ensures
        step_spec(step_spec(s, Inst::PHA, AddressMode::IMPL), Inst::PLA, AddressMode::IMPL).ac
            == s.ac,
        step_spec(step_spec(s, Inst::PHA, AddressMode::IMPL), Inst::PLA, AddressMode::IMPL).sp
            == s.sp,
        flag_set(
            step_spec(step_spec(s, Inst::PHA, AddressMode::IMPL), Inst::PLA, AddressMode::IMPL).p,
            N_FLAG_BITMASK,
        ) == (s.ac >= 128),
        flag_set(
            step_spec(step_spec(s, Inst::PHA, AddressMode::IMPL), Inst::PLA, AddressMode::IMPL).p,
            Z_FLAG_BITMASK,
        ) == (s.ac == 0),
{
    lemma_nz_flags(step_spec(s, Inst::PHA, AddressMode::IMPL).p, s.ac);
}

/// A software interrupt followed at once by its return: `BRK` pushes the
/// address two past its opcode, so `RTI` restores the program counter to
/// exactly that byte; the stack pointer returns to its start and the status
/// byte is the old one with B set.
pub proof fn lemma_brk_rti_round_trip(s: CpuState)
    requires
        s.mem.len() == 0x10000,
    ensures
        step_spec(step_spec(s, Inst::BRK, AddressMode::IMPL), Inst::RTI, AddressMode::IMPL).pc
            == s.pc.wrapping_add(2),
        step_spec(step_spec(s, Inst::BRK, AddressMode::IMPL), Inst::RTI, AddressMode::IMPL).sp
            == s.sp,
        step_spec(step_spec(s, Inst::BRK, AddressMode::IMPL), Inst::RTI, AddressMode::IMPL).p
            == set_flag(s.p, B_FLAG_BITMASK, true),
{
}

/// Whether the address `a` is one of the `n` stack cells written by pushes
/// that started with the stack pointer at `sp`.
spec fn in_pushed_slots(sp: u16, n: int, a: u16) -> bool {
    exists|j: int|
        0 <= j < n && a == sp.wrapping_sub(#[trigger] (#[verifier::truncate] (j as u16)))
}

proof fn lemma_push_bytes_shape(s: CpuState, bs: Seq<u8>)
    requires
        s.mem.len() == 0x10000,
        bs.len() <= 0xFFFF,
    ensures
        push_bytes(s, bs).mem.len() == 0x10000,
        push_bytes(s, bs).sp == s.sp.wrapping_sub(bs.len() as u16),
        push_bytes(s, bs).pc == s.pc,
        push_bytes(s, bs).p == s.p,
        forall|j: int|
            0 <= j < bs.len() ==> push_bytes(s, bs).mem[s.sp.wrapping_sub(
                #[verifier::truncate] (j as u16),
            ) as int] == bs[j],
        forall|a: u16|
            !in_pushed_slots(s.sp, bs.len() as int, a) ==> push_bytes(s, bs).mem[a as int]
                == s.mem[a as int],
    decreases bs.len(),
{
    if bs.len() == 0 {
    } else {
        let s1 = push_byte(s, bs[0]);
        let tail = bs.drop_first();
        lemma_push_bytes_shape(s1, tail);
        assert(push_bytes(s, bs) == push_bytes(s1, tail));
        assert forall|j: int| 0 <= j < bs.len() implies push_bytes(s, bs).mem[s.sp.wrapping_sub(
            #[verifier::truncate] (j as u16),
        ) as int] == bs[j] by {
            if j == 0 {
                assert(s.sp.wrapping_sub(#[verifier::truncate] (0int as u16)) == s.sp);
                assert(!in_pushed_slots(s1.sp, tail.len() as int, s.sp)) by {
                    if in_pushed_slots(s1.sp, tail.len() as int, s.sp) {
                        let k = choose|k: int|
                            0 <= k < tail.len() && s.sp == s1.sp.wrapping_sub(
                                #[trigger] (#[verifier::truncate] (k as u16)),
                            );
                        assert(false);
                    }
                }
                assert(push_bytes(s1, tail).mem[s.sp as int] == s1.mem[s.sp as int]);
                assert(s1.mem[s.sp as int] == bs[0]);
            } else {
                let jj: u16 = #[verifier::truncate] ((j - 1) as u16);
                assert(push_bytes(s1, tail).mem[s1.sp.wrapping_sub(jj) as int] == tail[j - 1]);
                assert(s1.sp.wrapping_sub(jj) == s.sp.wrapping_sub(
                    #[verifier::truncate] (j as u16),
                ));
                assert(tail[j - 1] == bs[j]);
            }
        }
        assert forall|a: u16| !in_pushed_slots(s.sp, bs.len() as int, a) implies push_bytes(
            s,
            bs,
        ).mem[a as int] == s.mem[a as int] by {
            assert(s.sp == s.sp.wrapping_sub(#[verifier::truncate] (0int as u16)));
            assert(in_pushed_slots(s.sp, bs.len() as int, s.sp));
            assert(a != s.sp);
            assert(s1.mem[a as int] == s.mem[a as int]);
            assert(!in_pushed_slots(s1.sp, tail.len() as int, a)) by {
                if in_pushed_slots(s1.sp, tail.len() as int, a) {
                    let k = choose|k: int|
                        0 <= k < tail.len() && a == s1.sp.wrapping_sub(
                            #[trigger] (#[verifier::truncate] (k as u16)),
                        );
                    assert(a == s.sp.wrapping_sub(#[verifier::truncate] ((k + 1) as u16)));
                    assert(in_pushed_slots(s.sp, bs.len() as int, a));
                }
            }
            assert(push_bytes(s1, tail).mem[a as int] == s1.mem[a as int]);
        }
    }
}

proof fn lemma_pop_bytes_shape(t: CpuState, n: nat)
    requires
        t.mem.len() == 0x10000,
        n <= 0xFFFF,
    ensures
        pop_bytes_state(t, n).sp == t.sp.wrapping_add(n as u16),
        pop_bytes_state(t, n).mem == t.mem,
        pop_bytes_values(t, n).len() == n,
        forall|k: int|
            0 <= k < n ==> pop_bytes_values(t, n)[k] == t.mem[t.sp.wrapping_add(
                #[verifier::truncate] ((k + 1) as u16),
            ) as int],
    decreases n,
{
    if n == 0 {
    } else {
        let t1 = pop_state(t);
        lemma_pop_bytes_shape(t1, (n - 1) as nat);
        assert forall|k: int| 0 <= k < n implies pop_bytes_values(t, n)[k]
            == t.mem[t.sp.wrapping_add(#[verifier::truncate] ((k + 1) as u16)) as int] by {
            if k == 0 {
                assert(pop_bytes_values(t, n)[0] == pop_value(t));
            } else {
                assert(pop_bytes_values(t, n)[k] == pop_bytes_values(t1, (n - 1) as nat)[k - 1]);
                assert(pop_bytes_values(t1, (n - 1) as nat)[k - 1] == t1.mem[t1.sp.wrapping_add(
                    #[verifier::truncate] (k as u16),
                ) as int]);
                assert(t1.sp.wrapping_add(#[verifier::truncate] (k as u16)) == t.sp.wrapping_add(
                    #[verifier::truncate] ((k + 1) as u16),
                ));
            }
        }
    }
}

/// Pushing any run of bytes and then popping the same number, with no
/// stack operation in between, returns exactly the pushed bytes in
/// last-in-first-out order, and the stack pointer to where it began.
pub proof fn lemma_push_pop_lifo(s: CpuState, bs: Seq<u8>)
    requires
        s.mem.len() == 0x10000,
        bs.len() <= 0xFFFF,
    ensures
        pop_bytes_values(push_bytes(s, bs), bs.len()) == bs.reverse(),
        pop_bytes_state(push_bytes(s, bs), bs.len()).sp == s.sp,
{
    let t = push_bytes(s, bs);
    lemma_push_bytes_shape(s, bs);
    lemma_pop_bytes_shape(t, bs.len());
    assert forall|k: int| 0 <= k < bs.len() implies pop_bytes_values(t, bs.len())[k]
        == bs.reverse()[k] by {
        let j = bs.len() - 1 - k;
        assert(t.sp.wrapping_add(#[verifier::truncate] ((k + 1) as u16)) == s.sp.wrapping_sub(
            #[verifier::truncate] (j as u16),
        ));
        assert(t.mem[s.sp.wrapping_sub(#[verifier::truncate] (j as u16)) as int] == bs[j]);
    }
    assert(pop_bytes_values(t, bs.len()) =~= bs.reverse());
}

} // verus!
