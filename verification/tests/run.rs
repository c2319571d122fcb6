use mini6502::cpu::Observer;
use mini6502::error::Error6502;
use mini6502::opc::init_opc_array;
use mini6502::{Cpu, SimpleMemory};

/// Stops the run once the program counter reaches `limit`.
struct PcLimit {
    limit: usize,
}

impl Observer<SimpleMemory> for PcLimit {
    fn observe(&mut self, cpu: &Cpu<SimpleMemory>) -> bool {
        println!(
            "ir: {:?} pc: {:#06x} x: {} p: {:#010b}",
            cpu.ir(),
            cpu.pc(),
            cpu.x(),
            cpu.p()
        );
        cpu.pc() as usize >= self.limit
    }
}

/// Never stops the run on its own.
struct RunToFault;

impl Observer<SimpleMemory> for RunToFault {
    fn observe(&mut self, _cpu: &Cpu<SimpleMemory>) -> bool {
        false
    }
}

#[test]
fn test_no_repeated_instructions() {
    let _opc_arr = init_opc_array();
}

#[test]
fn test_run() {
    let buf = [0xa2, 0x03, 0xCA, 0xD0, 0xFD];
    let mem = SimpleMemory::from_rom(&buf);

    let mut cpu = Cpu::with_mem(mem);

    assert_eq!(cpu.pc(), 0);

    cpu.run(&mut PcLimit { limit: buf.len() }).unwrap();

    assert_eq!(cpu.x(), 0x00);
}

#[test]
fn test_run_countdown_loop() {
    // LDX #$10, then DEX / BNE -3 until X reaches zero; the driver stops
    // once the program counter passes the loop.
    let buf = [0xa2, 0x10, 0xCA, 0xD0, 0xFD];
    let mem = SimpleMemory::from_rom(&buf);
    let mut cpu = Cpu::with_mem(mem);
    cpu.run(&mut PcLimit { limit: buf.len() }).unwrap();
    assert_eq!(cpu.x(), 0x00);
    assert_eq!(cpu.pc(), 0x0005);
    assert!(cpu.z_flag());
}

#[test]
fn test_run_unknown_opcode() {
    // $02 is not one of the 151 defined opcodes: the run fails with the
    // unknown-opcode error carrying that byte, and the program counter
    // still points at it.
    let buf = [0xEA, 0x02];
    let mem = SimpleMemory::from_rom(&buf);
    let mut cpu = Cpu::with_mem(mem);
    let res = cpu.run(&mut RunToFault);
    assert_eq!(res, Err(Error6502::UnknownOpcode(0x02)));
    assert_eq!(cpu.pc(), 0x0001);
}

#[test]
fn test_reset_vector_order() {
    // The reset sequence takes the high byte of the initial program counter
    // from $FFFC and the low byte from $FFFD.
    let mut mem = [0u8; 0x10000];
    mem[0xFFFC] = 0x12;
    mem[0xFFFD] = 0x34;
    let cpu = Cpu::with_mem(SimpleMemory::from_rom(&mem));
    assert_eq!(cpu.pc(), 0x1234);
}

#[test]
fn test_run_sets_instruction_register() {
    // The instruction register follows the decoded instruction; the run
    // stops on the decoded-but-unexecuted instruction after the program.
    let buf = [0xEA, 0xA2, 0x01];
    let mem = SimpleMemory::from_rom(&buf);
    let mut cpu = Cpu::with_mem(mem);
    assert_eq!(cpu.ir(), None);
    cpu.run(&mut PcLimit { limit: buf.len() }).unwrap();
    assert_eq!(cpu.x(), 0x01);
    assert_eq!(cpu.ir(), Some(mini6502::opc::Inst::BRK));
}
