use mini6502::util::new_cpu_empty_mem;

#[test]
fn test_stack() {
    let mut cpu = new_cpu_empty_mem();
    cpu.stack_push(0x80);
    assert_eq!(cpu.stack_pop(), 0x80);

    cpu.stack_push(0x90);
    cpu.stack_push(0xFE);
    cpu.stack_push(0x69);

    assert_eq!(cpu.stack_pop(), 0x69);
    assert_eq!(cpu.stack_pop(), 0xFE);
    assert_eq!(cpu.stack_pop(), 0x90);
}

#[test]
fn test_stack_grows_downward() {
    let mut cpu = new_cpu_empty_mem();
    assert_eq!(cpu.sp(), 0x01FF);
    cpu.stack_push(0x11);
    assert_eq!(cpu.sp(), 0x01FE);
    assert_eq!(cpu.read_byte_from_mem(0x01FF), 0x11);
    cpu.stack_push(0x22);
    assert_eq!(cpu.sp(), 0x01FD);
    assert_eq!(cpu.read_byte_from_mem(0x01FE), 0x22);
    assert_eq!(cpu.stack_pop(), 0x22);
    assert_eq!(cpu.stack_pop(), 0x11);
    assert_eq!(cpu.sp(), 0x01FF);
}
