use gbcpu::{
    ArithmeticTarget, Instruction, JumpTest, LoadByteSource, LoadByteTarget, LoadType,
    UnknownInstruction, CPU,
};

#[test]
fn cpu_test_add_no_overflow() {
    let mut cpu = CPU::default();
    cpu.registers.a = 0x01;
    cpu.registers.c = 0x02;
    cpu.execute(Instruction::ADD(ArithmeticTarget::C));
    assert_eq!(cpu.registers.a, 0x03);
}

#[test]
fn cpu_test_add_overflow() {
    let mut cpu = CPU::default();
    cpu.registers.a = 0xFF;
    cpu.registers.c = 0x01;
    cpu.execute(Instruction::ADD(ArithmeticTarget::C));
    assert_eq!(cpu.registers.a, 0x00);
}

#[test]
fn cpu_test_add_half_carry() {
    let mut cpu = CPU::default();
    cpu.registers.a = 0x0F;
    cpu.registers.c = 0x01;
    cpu.execute(Instruction::ADD(ArithmeticTarget::C));
    assert_eq!(cpu.registers.a, 0x10);
}

#[test]
fn cpu_test_jump_not_zero_taken() {
    let mut cpu = CPU::default();
    cpu.pc = 0x0100;
    cpu.registers.f.zero = false;
    cpu.bus.memory[0x0101] = 0x34;
    cpu.bus.memory[0x0102] = 0x12;

    let next_pc = cpu.execute(Instruction::JP(JumpTest::NotZero));
    assert_eq!(next_pc, 0x1234);
}

#[test]
fn cpu_test_jump_not_zero_not_taken() {
    let mut cpu = CPU::default();
    cpu.pc = 0x0100;
    cpu.registers.f.zero = true;

    let next_pc = cpu.execute(Instruction::JP(JumpTest::NotZero));
    assert_eq!(next_pc, 0x0103);
}

#[test]
fn cpu_test_jump_carry_taken() {
    let mut cpu = CPU::default();
    cpu.pc = 0x0200;
    cpu.registers.f.carry = true;
    cpu.bus.memory[0x0201] = 0x78;
    cpu.bus.memory[0x0202] = 0x56;

    let next_pc = cpu.execute(Instruction::JP(JumpTest::Carry));
    assert_eq!(next_pc, 0x5678);
}

#[test]
fn cpu_test_jump_carry_not_taken() {
    let mut cpu = CPU::default();
    cpu.pc = 0x0200;
    cpu.registers.f.carry = false;

    let next_pc = cpu.execute(Instruction::JP(JumpTest::Carry));
    assert_eq!(next_pc, 0x0203);
}

#[test]
fn cpu_test_jump_always() {
    let mut cpu = CPU::default();
    cpu.pc = 0x0300;
    cpu.bus.memory[0x0301] = 0xAA;
    cpu.bus.memory[0x0302] = 0xBB;

    let next_pc = cpu.execute(Instruction::JP(JumpTest::Always));
    assert_eq!(next_pc, 0xBBAA);
}

#[test]
fn test_ld_register_to_register() {
    let mut cpu = CPU::default();
    cpu.pc = 0x0100;
    cpu.registers.b = 0x42;
    let next_pc = cpu.execute(Instruction::LD(LoadType::Byte(
        LoadByteTarget::A,
        LoadByteSource::B,
    )));
    assert_eq!(cpu.registers.a, 0x42);
    assert_eq!(next_pc, 0x0101);
}

#[test]
fn test_ld_memory_to_register() {
    let mut cpu = CPU::default();
    cpu.pc = 0x0300;
    cpu.registers.set_hl(0x1000);
    cpu.bus.memory[0x1000] = 0xCD;
    let next_pc = cpu.execute(Instruction::LD(LoadType::Byte(
        LoadByteTarget::D,
        LoadByteSource::HLI,
    )));
    assert_eq!(cpu.registers.d, 0xCD);
    assert_eq!(next_pc, 0x0301);
}

#[test]
fn test_ld_register_to_memory() {
    let mut cpu = CPU::default();
    cpu.pc = 0x0400;
    cpu.registers.set_hl(0x2000);
    cpu.registers.e = 0xEF;
    let next_pc = cpu.execute(Instruction::LD(LoadType::Byte(
        LoadByteTarget::HLI,
        LoadByteSource::E,
    )));
    assert_eq!(cpu.bus.memory[0x2000], 0xEF);
    assert_eq!(next_pc, 0x0401);
}

#[test]
fn test_ld_multiple_registers() {
    let mut cpu = CPU::default();
    cpu.pc = 0x0500;
    cpu.registers.h = 0x12;
    cpu.registers.l = 0x34;
    let next_pc = cpu.execute(Instruction::LD(LoadType::Byte(
        LoadByteTarget::A,
        LoadByteSource::H,
    )));
    assert_eq!(cpu.registers.a, 0x12);
    assert_eq!(next_pc, 0x0501);

    cpu.pc = 0x0501;
    let next_pc = cpu.execute(Instruction::LD(LoadType::Byte(
        LoadByteTarget::B,
        LoadByteSource::L,
    )));
    assert_eq!(cpu.registers.b, 0x34);
    assert_eq!(next_pc, 0x0502);
}

#[test]
fn add_flags_without_carry() {
    let mut cpu = CPU::default();
    cpu.registers.a = 0x01;
    cpu.registers.c = 0x02;
    cpu.registers.f.subtract = true;
    let next_pc = cpu.execute(Instruction::ADD(ArithmeticTarget::C));
    assert_eq!(cpu.registers.a, 0x03);
    assert!(!cpu.registers.f.zero);
    assert!(!cpu.registers.f.subtract);
    assert!(!cpu.registers.f.carry);
    assert!(!cpu.registers.f.half_carry);
    assert_eq!(next_pc, 0x0001);
    assert_eq!(cpu.pc, 0x0000);
}

#[test]
fn add_flags_with_overflow() {
    let mut cpu = CPU::default();
    cpu.registers.a = 0xFF;
    cpu.registers.c = 0x01;
    cpu.execute(Instruction::ADD(ArithmeticTarget::C));
    assert_eq!(cpu.registers.a, 0x00);
    assert!(cpu.registers.f.zero);
    assert!(!cpu.registers.f.subtract);
    assert!(cpu.registers.f.carry);
    assert!(cpu.registers.f.half_carry);
}

#[test]
fn add_flags_with_half_carry_only() {
    let mut cpu = CPU::default();
    cpu.registers.a = 0x0F;
    cpu.registers.c = 0x01;
    cpu.execute(Instruction::ADD(ArithmeticTarget::C));
    assert_eq!(cpu.registers.a, 0x10);
    assert!(!cpu.registers.f.zero);
    assert!(!cpu.registers.f.carry);
    assert!(cpu.registers.f.half_carry);
}

#[test]
fn add_carry_without_half_carry() {
    let mut cpu = CPU::default();
    cpu.registers.a = 0xF0;
    cpu.registers.b = 0x20;
    cpu.execute(Instruction::ADD(ArithmeticTarget::B));
    assert_eq!(cpu.registers.a, 0x10);
    assert!(!cpu.registers.f.zero);
    assert!(cpu.registers.f.carry);
    assert!(!cpu.registers.f.half_carry);
}

#[test]
fn add_each_register_operand() {
    let targets = [
        (ArithmeticTarget::B, 0x02u8),
        (ArithmeticTarget::C, 0x03),
        (ArithmeticTarget::D, 0x04),
        (ArithmeticTarget::E, 0x05),
        (ArithmeticTarget::H, 0x06),
        (ArithmeticTarget::L, 0x07),
    ];
    for (target, expected_operand) in targets {
        let mut cpu = CPU::default();
        cpu.pc = 0x0010;
        cpu.registers.a = 0x10;
        cpu.registers.b = 0x02;
        cpu.registers.c = 0x03;
        cpu.registers.d = 0x04;
        cpu.registers.e = 0x05;
        cpu.registers.h = 0x06;
        cpu.registers.l = 0x07;
        let next_pc = cpu.execute(Instruction::ADD(target));
        assert_eq!(cpu.registers.a, 0x10 + expected_operand);
        assert_eq!(next_pc, 0x0011);
    }
}

#[test]
fn add_a_to_itself() {
    let mut cpu = CPU::default();
    cpu.registers.a = 0x88;
    cpu.execute(Instruction::ADD(ArithmeticTarget::A));
    assert_eq!(cpu.registers.a, 0x10);
    assert!(cpu.registers.f.carry);
    assert!(cpu.registers.f.half_carry);
    assert!(!cpu.registers.f.zero);
}

#[test]
fn add_at_top_of_memory_wraps_program_counter() {
    let mut cpu = CPU::default();
    cpu.pc = 0xFFFF;
    let next_pc = cpu.execute(Instruction::ADD(ArithmeticTarget::B));
    assert_eq!(next_pc, 0x0000);
}

#[test]
fn jump_zero_and_not_carry() {
    let mut cpu = CPU::default();
    cpu.pc = 0x0100;
    cpu.bus.memory[0x0101] = 0x34;
    cpu.bus.memory[0x0102] = 0x12;
    cpu.registers.f.zero = true;
    assert_eq!(cpu.execute(Instruction::JP(JumpTest::Zero)), 0x1234);
    cpu.registers.f.zero = false;
    assert_eq!(cpu.execute(Instruction::JP(JumpTest::Zero)), 0x0103);
    cpu.registers.f.carry = false;
    assert_eq!(cpu.execute(Instruction::JP(JumpTest::NotCarry)), 0x1234);
    cpu.registers.f.carry = true;
    assert_eq!(cpu.execute(Instruction::JP(JumpTest::NotCarry)), 0x0103);
}

#[test]
fn untaken_jump_ignores_address_bytes() {
    for (low, high) in [(0x34u8, 0x12u8), (0xFF, 0xFF), (0x00, 0x00), (0xDE, 0xAD)] {
        let mut cpu = CPU::default();
        cpu.pc = 0x0100;
        cpu.registers.f.zero = true;
        cpu.bus.memory[0x0101] = low;
        cpu.bus.memory[0x0102] = high;
        let next_pc = cpu.execute(Instruction::JP(JumpTest::NotZero));
        assert_eq!(next_pc, 0x0103);
        assert_eq!(cpu.pc, 0x0100);
        assert_eq!(cpu.bus.memory[0x0101], low);
        assert_eq!(cpu.bus.memory[0x0102], high);
    }
}

#[test]
fn jump_near_top_of_memory_wraps() {
    let mut cpu = CPU::default();
    cpu.pc = 0xFFFE;
    cpu.bus.memory[0xFFFF] = 0x20;
    cpu.bus.memory[0x0000] = 0x01;
    assert_eq!(cpu.execute(Instruction::JP(JumpTest::Always)), 0x0120);
    cpu.registers.f.carry = false;
    assert_eq!(cpu.execute(Instruction::JP(JumpTest::Carry)), 0x0001);
}

#[test]
fn ld_immediate_to_register() {
    let mut cpu = CPU::default();
    cpu.pc = 0x0200;
    cpu.bus.memory[0x0200] = 0x0E;
    cpu.bus.memory[0x0201] = 0xAB;
    let next_pc = cpu.execute(Instruction::LD(LoadType::Byte(
        LoadByteTarget::C,
        LoadByteSource::D8,
    )));
    assert_eq!(cpu.registers.c, 0xAB);
    assert_eq!(next_pc, 0x0202);
    assert_eq!(cpu.pc, 0x0200);
}

#[test]
fn ld_immediate_to_memory() {
    let mut cpu = CPU::default();
    cpu.pc = 0x0300;
    cpu.registers.set_hl(0x4000);
    cpu.bus.memory[0x0301] = 0x5A;
    let next_pc = cpu.execute(Instruction::LD(LoadType::Byte(
        LoadByteTarget::HLI,
        LoadByteSource::D8,
    )));
    assert_eq!(cpu.bus.memory[0x4000], 0x5A);
    assert_eq!(next_pc, 0x0302);
}

#[test]
fn ld_leaves_flags_and_other_registers() {
    let mut cpu = CPU::default();
    cpu.registers.f.carry = true;
    cpu.registers.a = 0x11;
    cpu.registers.c = 0x77;
    cpu.execute(Instruction::LD(LoadType::Byte(LoadByteTarget::L, LoadByteSource::C)));
    assert_eq!(cpu.registers.l, 0x77);
    assert_eq!(cpu.registers.a, 0x11);
    assert!(cpu.registers.f.carry);
    assert_eq!(cpu.registers.h, 0x00);
}

#[test]
fn step_reports_unprefixed_unknown_instruction() {
    let mut cpu = CPU::default();
    cpu.bus.memory[0] = 0x00;
    let err = cpu.step().unwrap_err();
    assert_eq!(err, UnknownInstruction { byte: 0x00, prefixed: false });
    assert_eq!(err.description(), "0x00");
    assert_eq!(cpu.pc, 0x0000);
}

#[test]
fn step_reports_prefixed_unknown_instruction() {
    let mut cpu = CPU::default();
    cpu.pc = 0x0040;
    cpu.bus.memory[0x0040] = 0xCB;
    cpu.bus.memory[0x0041] = 0x00;
    let err = cpu.step().unwrap_err();
    assert_eq!(err, UnknownInstruction { byte: 0x00, prefixed: true });
    assert_eq!(err.description(), "0xCB00");
    assert_eq!(cpu.pc, 0x0040);
    assert_eq!(cpu.bus.memory[0x0040], 0xCB);
}

#[test]
fn unknown_instruction_description_digits() {
    assert_eq!(UnknownInstruction { byte: 0xAF, prefixed: false }.description(), "0xAF");
    assert_eq!(UnknownInstruction { byte: 0x3C, prefixed: true }.description(), "0xCB3C");
    assert_eq!(UnknownInstruction { byte: 0x09, prefixed: false }.description(), "0x09");
    assert_eq!(UnknownInstruction { byte: 0xFF, prefixed: true }.description(), "0xCBFF");
}

#[test]
fn decoder_tables_hold_no_entries() {
    for byte in 0..=255u8 {
        assert!(Instruction::from_byte(byte, false).is_none());
        assert!(Instruction::from_byte(byte, true).is_none());
    }
}

#[test]
fn new_cpu_is_zeroed() {
    let cpu = CPU::new();
    assert_eq!(cpu.pc, 0);
    assert_eq!(cpu.registers, gbcpu::Registers::default());
    assert_eq!(u8::from(cpu.registers.f), 0);
    assert!(cpu.bus.memory.iter().all(|&b| b == 0));
    assert_eq!(cpu.bus.memory.len(), 0x10000);
}

#[test]
fn inspection_does_not_change_state() {
    let mut cpu = CPU::default();
    cpu.registers.set_hl(0xBEEF);
    cpu.registers.f.half_carry = true;
    cpu.bus.memory[0x1234] = 0x99;
    for _ in 0..3 {
        assert_eq!(cpu.bus.read_byte(0x1234), 0x99);
        assert_eq!(cpu.registers.get_hl(), 0xBEEF);
        assert_eq!(cpu.registers.get_bc(), 0x0000);
        assert!(cpu.registers.f.half_carry);
        assert_eq!(cpu.pc, 0);
    }
    assert_eq!(cpu.registers.h, 0xBE);
    assert_eq!(cpu.registers.l, 0xEF);
}
