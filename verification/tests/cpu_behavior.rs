use vcpu::cpu::{CPUError, CPU};
use vcpu::instructions::{ADD_REG_REG, MOV_LIT_R1, MOV_LIT_R2};
use vcpu::memory::create_memory;

const REGISTER_NAMES: [&str; 10] = ["ip", "acc", "r1", "r2", "r3", "r4", "r5", "r6", "r7", "r8"];

fn cpu_with_program(capacity: usize, program: &[u8]) -> CPU {
    let mut memory = create_memory(capacity);
    memory.bulk_write(&program.to_vec()).unwrap();
    CPU::new(memory)
}

#[test]
fn set_then_get_returns_written_value() {
    let mut cpu = CPU::new(create_memory(16));
    for name in REGISTER_NAMES {
        for value in [0u16, 1, 0x1234, 0xFFFF] {
            cpu.set_register(name, value).unwrap();
            assert_eq!(cpu.get_register(name), Some(value));
        }
    }
}

#[test]
fn set_does_not_alias_other_registers() {
    let mut cpu = CPU::new(create_memory(16));
    for (i, name) in REGISTER_NAMES.iter().enumerate() {
        cpu.set_register(name, i as u16 + 100).unwrap();
    }
    for (i, name) in REGISTER_NAMES.iter().enumerate() {
        assert_eq!(cpu.get_register(name), Some(i as u16 + 100));
    }
}

#[test]
fn unknown_register_name_fails_without_mutation() {
    let mut cpu = CPU::new(create_memory(16));
    cpu.set_register("r1", 42).unwrap();
    assert_eq!(cpu.get_register("r9"), None);
    assert_eq!(cpu.get_register(""), None);
    assert_eq!(cpu.get_register("IP"), None);
    match cpu.set_register("r9", 7) {
        Err(CPUError::RegisterNotFound(name)) => assert_eq!(name, "r9"),
        other => panic!("expected RegisterNotFound, got {:?}", other),
    }
    for name in REGISTER_NAMES {
        let expected = if name == "r1" { 42 } else { 0 };
        assert_eq!(cpu.get_register(name), Some(expected));
    }
}

#[test]
fn fetch_advances_ip_by_one() {
    let mut cpu = cpu_with_program(8, &[0x55, 0x66]);
    assert_eq!(cpu.get_register("ip"), Some(0));
    assert_eq!(cpu.fetch().unwrap(), 0x55);
    assert_eq!(cpu.get_register("ip"), Some(1));
    assert_eq!(cpu.fetch().unwrap(), 0x66);
    assert_eq!(cpu.get_register("ip"), Some(2));
}

#[test]
fn fetch_16_advances_ip_by_two() {
    let mut cpu = cpu_with_program(8, &[0x12, 0x34, 0xAB, 0xCD]);
    assert_eq!(cpu.fetch_16().unwrap(), 0x1234);
    assert_eq!(cpu.get_register("ip"), Some(2));
    assert_eq!(cpu.fetch_16().unwrap(), 0xABCD);
    assert_eq!(cpu.get_register("ip"), Some(4));
}

#[test]
fn fetch_past_end_fails_and_leaves_registers() {
    let mut cpu = cpu_with_program(2, &[1, 2]);
    cpu.set_register("ip", 2).unwrap();
    assert!(matches!(cpu.fetch(), Err(CPUError::ReadRegisterError)));
    assert_eq!(cpu.get_register("ip"), Some(2));
    let mut cpu = cpu_with_program(3, &[1, 2, 3]);
    cpu.set_register("ip", 2).unwrap();
    assert!(matches!(cpu.fetch_16(), Err(CPUError::ReadRegisterError)));
    assert_eq!(cpu.get_register("ip"), Some(2));
}

#[test]
fn unknown_opcode_fails_with_the_byte_and_no_mutation() {
    let mut cpu = CPU::new(create_memory(8));
    cpu.set_register("r1", 11).unwrap();
    match cpu.execute(0x42) {
        Err(CPUError::UnknownInstruction(byte)) => assert_eq!(byte, 0x42),
        other => panic!("expected UnknownInstruction, got {:?}", other),
    }
    assert_eq!(cpu.get_register("ip"), Some(0));
    assert_eq!(cpu.get_register("acc"), Some(0));
    assert_eq!(cpu.get_register("r1"), Some(11));
}

#[test]
fn scenario_three_instruction_program() {
    let mut cpu = cpu_with_program(
        16,
        &[MOV_LIT_R1, 0x12, 0x34, MOV_LIT_R2, 0xAB, 0xCD, ADD_REG_REG, 2, 3],
    );

    cpu.step().unwrap();
    assert_eq!(cpu.get_register("r1"), Some(0x1234));
    assert_eq!(cpu.get_register("ip"), Some(3));

    cpu.step().unwrap();
    assert_eq!(cpu.get_register("r2"), Some(0xABCD));
    assert_eq!(cpu.get_register("ip"), Some(6));

    cpu.step().unwrap();
    assert_eq!(cpu.get_register("acc"), Some(0xBE01));
    assert_eq!(cpu.get_register("ip"), Some(9));
}

#[test]
fn scenario_step_on_unassigned_opcode() {
    let mut cpu = cpu_with_program(8, &[0xFF, 0, 0]);
    match cpu.step() {
        Err(CPUError::UnknownInstruction(byte)) => assert_eq!(byte, 0xFF),
        other => panic!("expected UnknownInstruction, got {:?}", other),
    }
    assert_eq!(cpu.get_register("ip"), Some(1));
    for name in &REGISTER_NAMES[1..] {
        assert_eq!(cpu.get_register(name), Some(0));
    }
}

#[test]
fn step_at_end_of_memory_fails() {
    let mut cpu = cpu_with_program(2, &[0, 0]);
    cpu.set_register("ip", 2).unwrap();
    assert!(matches!(cpu.step(), Err(CPUError::ReadRegisterError)));
}

#[test]
fn add_wraps_modulo_two_to_the_sixteen() {
    let mut cpu = cpu_with_program(
        16,
        &[MOV_LIT_R1, 0xFF, 0xFF, MOV_LIT_R2, 0x00, 0x03, ADD_REG_REG, 2, 3],
    );
    cpu.step().unwrap();
    cpu.step().unwrap();
    cpu.step().unwrap();
    assert_eq!(cpu.get_register("acc"), Some(2));
}

#[test]
fn add_reads_slots_after_ip_advanced() {
    // slot 0 is ip itself: both operands read the already-advanced pointer
    let mut cpu = cpu_with_program(8, &[ADD_REG_REG, 0, 0]);
    cpu.step().unwrap();
    assert_eq!(cpu.get_register("ip"), Some(3));
    assert_eq!(cpu.get_register("acc"), Some(6));
}

#[test]
fn add_with_slot_index_out_of_range_fails() {
    let mut cpu = cpu_with_program(8, &[ADD_REG_REG, 10, 3]);
    assert!(matches!(cpu.step(), Err(CPUError::ReadRegisterError)));
    assert_eq!(cpu.get_register("ip"), Some(3));
    assert_eq!(cpu.get_register("acc"), Some(0));
}

#[test]
fn mov_with_truncated_literal_fails_after_opcode_fetch() {
    let mut cpu = cpu_with_program(2, &[MOV_LIT_R1, 0x12]);
    assert!(matches!(cpu.step(), Err(CPUError::ReadRegisterError)));
    assert_eq!(cpu.get_register("ip"), Some(1));
    assert_eq!(cpu.get_register("r1"), Some(0));
}

#[test]
fn debug_lists_registers_in_declared_order_as_hex() {
    let mut cpu = CPU::new(create_memory(8));
    cpu.set_register("r1", 0x1234).unwrap();
    cpu.set_register("acc", 0xBE01).unwrap();
    let expected = "ip: 0x0000\nacc: 0xbe01\nr1: 0x1234\nr2: 0x0000\nr3: 0x0000\n\
                    r4: 0x0000\nr5: 0x0000\nr6: 0x0000\nr7: 0x0000\nr8: 0x0000\n\n";
    assert_eq!(cpu.debug(), expected);
}

#[test]
fn debug_is_idempotent() {
    let mut cpu = cpu_with_program(
        16,
        &[MOV_LIT_R1, 0x12, 0x34, MOV_LIT_R2, 0xAB, 0xCD, ADD_REG_REG, 2, 3],
    );
    cpu.step().unwrap();
    let first = cpu.debug();
    let second = cpu.debug();
    assert_eq!(first, second);
    cpu.step().unwrap();
    assert_ne!(cpu.debug(), second);
    assert_eq!(cpu.debug(), cpu.debug());
}

#[test]
fn hex_word_renders_fixed_width_lowercase() {
    assert_eq!(vcpu::text::hex_word(0), "0x0000");
    assert_eq!(vcpu::text::hex_word(0xBE01), "0xbe01");
    assert_eq!(vcpu::text::hex_word(0xFFFF), "0xffff");
    assert_eq!(vcpu::text::hex_word(0x001A), "0x001a");
}
