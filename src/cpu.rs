use vstd::prelude::*;
use crate::instruction::{
    decode, ArithmeticTarget, Instruction, JumpTest, LoadByteSource, LoadByteTarget, LoadType,
    UnknownInstruction,
};
use crate::memory::{MemoryBus, MEMORY_SIZE};
use crate::registers::{pair_value, FlagsRegister, Registers};

verus! {

/// `v + n` modulo 2^16.
pub open spec fn wrap16(v: u16, n: int) -> u16 {
    ((v + n) % 0x10000) as u16
}

/// A + operand modulo 256.
pub open spec fn add_value(a: u8, operand: u8) -> u8 {
    ((a + operand) % 256) as u8
}

/// The flags after `ADD A, operand`.
pub open spec fn add_flags(a: u8, operand: u8) -> FlagsRegister {
    FlagsRegister {
        zero: add_value(a, operand) == 0,
        subtract: false,
        half_carry: (a % 16) + (operand % 16) > 15,
        carry: a + operand > 255,
    }
}

/// The register that `ADD A, r` adds to A.
pub open spec fn arithmetic_operand(r: Registers, target: ArithmeticTarget) -> u8 {
    match target {
        ArithmeticTarget::A => r.a,
        ArithmeticTarget::B => r.b,
        ArithmeticTarget::C => r.c,
        ArithmeticTarget::D => r.d,
        ArithmeticTarget::E => r.e,
        ArithmeticTarget::H => r.h,
        ArithmeticTarget::L => r.l,
    }
}

/// Whether a jump with this test is taken under the flags `f`.
pub open spec fn jump_holds(f: FlagsRegister, test: JumpTest) -> bool {
    match test {
        JumpTest::NotZero => !f.zero,
        JumpTest::Zero => f.zero,
        JumpTest::NotCarry => !f.carry,
        JumpTest::Carry => f.carry,
        JumpTest::Always => true,
    }
}

/// The registers with `target` (a register, not HLI) set to `v`.
pub open spec fn load_into(r: Registers, target: LoadByteTarget, v: u8) -> Registers {
    match target {
        LoadByteTarget::A => Registers { a: v, ..r },
        LoadByteTarget::B => Registers { b: v, ..r },
        LoadByteTarget::C => Registers { c: v, ..r },
        LoadByteTarget::D => Registers { d: v, ..r },
        LoadByteTarget::E => Registers { e: v, ..r },
        LoadByteTarget::H => Registers { h: v, ..r },
        LoadByteTarget::L => Registers { l: v, ..r },
        LoadByteTarget::HLI => r,
    }
}

/// The processor: registers, program counter and memory.
pub struct CPU {
    pub registers: Registers,
    pub pc: u16,
    pub bus: MemoryBus,
}

impl CPU {
    /// The byte at `address` in memory.
    pub open spec fn byte_at(&self, address: u16) -> u8 {
        self.bus@[address as int]
    }

    /// The value that a byte load reads from `source`.
    pub open spec fn load_source_value(&self, source: LoadByteSource) -> u8 {
        let r = self.registers;
        match source {
            LoadByteSource::A => r.a,
            LoadByteSource::B => r.b,
            LoadByteSource::C => r.c,
            LoadByteSource::D => r.d,
            LoadByteSource::E => r.e,
            LoadByteSource::H => r.h,
            LoadByteSource::L => r.l,
            LoadByteSource::D8 => self.byte_at(wrap16(self.pc, 1)),
            LoadByteSource::HLI => self.byte_at(r.hl()),
        }
    }

    /// The jump target: the little-endian address in the two bytes after the
    /// opcode.
    pub open spec fn jump_target(&self) -> u16 {
        pair_value(self.byte_at(wrap16(self.pc, 2)), self.byte_at(wrap16(self.pc, 1)))
    }

    /// The registers after executing `i`.
    pub open spec fn registers_after(&self, i: Instruction) -> Registers {
        let r = self.registers;
        match i {
            Instruction::ADD(t) => {
                let v = arithmetic_operand(r, t);
                Registers { a: add_value(r.a, v), f: add_flags(r.a, v), ..r }
            },
            Instruction::JP(_) => r,
            Instruction::LD(LoadType::Byte(target, source)) => load_into(
                r,
                target,
                self.load_source_value(source),
            ),
        }
    }

    /// The memory after executing `i`.
    pub open spec fn memory_after(&self, i: Instruction) -> Seq<u8> {
        match i {
            Instruction::LD(LoadType::Byte(LoadByteTarget::HLI, source)) => self.bus@.update(
                self.registers.hl() as int,
                self.load_source_value(source),
            ),
            _ => self.bus@,
        }
    }

    /// The address of the instruction that follows `i`.
    pub open spec fn next_pc(&self, i: Instruction) -> u16 {
        match i {
            Instruction::ADD(_) => wrap16(self.pc, 1),
            Instruction::JP(test) => if jump_holds(self.registers.f, test) {
                self.jump_target()
            } else {
                wrap16(self.pc, 3)
            },
            Instruction::LD(LoadType::Byte(_, LoadByteSource::D8)) => wrap16(self.pc, 2),
            Instruction::LD(_) => wrap16(self.pc, 1),
        }
    }

    /// The opcode at the program counter and whether it followed the 0xCB
    /// prefix.
    pub open spec fn fetched(&self) -> (u8, bool) {
        if self.byte_at(self.pc) == 0xCB {
            (self.byte_at(wrap16(self.pc, 1)), true)
        } else {
            (self.byte_at(self.pc), false)
        }
    }

    /// A processor with every register, flag, the program counter and every
    /// memory byte zero.
    pub fn new() -> (r: CPU)
        ensures
            r.registers == (Registers {
                a: 0,
                b: 0,
                c: 0,
                d: 0,
                e: 0,
                f: FlagsRegister { zero: false, subtract: false, half_carry: false, carry: false },
                h: 0,
                l: 0,
            }),
            r.pc == 0,
            r.bus@.len() == MEMORY_SIZE,
            forall|i: int| 0 <= i < MEMORY_SIZE ==> r.bus@[i] == 0,
    {
        CPU { registers: Registers::new(), pc: 0, bus: MemoryBus::new() }
    }

    /// Executes `instruction` at the program counter and returns the address
    /// of the next instruction; the program counter itself is left for the
    /// caller to update.
    pub fn execute(&mut self, instruction: Instruction) -> (r: u16)
        ensures
            r == old(self).next_pc(instruction),
            final(self).registers == old(self).registers_after(instruction),
            final(self).bus@ == old(self).memory_after(instruction),
            final(self).pc == old(self).pc,
    {
        match instruction {
            Instruction::JP(test) => {
                let jump_condition = match test {
                    JumpTest::NotZero => !self.registers.f.zero,
                    JumpTest::Zero => self.registers.f.zero,
                    JumpTest::NotCarry => !self.registers.f.carry,
                    JumpTest::Carry => self.registers.f.carry,
                    JumpTest::Always => true,
                };
                self.jump(jump_condition)
            },
            Instruction::ADD(target) => {
                let value = match target {
                    ArithmeticTarget::A => self.registers.a,
                    ArithmeticTarget::B => self.registers.b,
                    ArithmeticTarget::C => self.registers.c,
                    ArithmeticTarget::D => self.registers.d,
                    ArithmeticTarget::E => self.registers.e,
                    ArithmeticTarget::H => self.registers.h,
                    ArithmeticTarget::L => self.registers.l,
                };
                let new_value = self.add(value);
                self.registers.a = new_value;
                self.pc.wrapping_add(1)
            },
            Instruction::LD(load_type) => match load_type {
                LoadType::Byte(target, source) => {
                    let source_value = match source {
                        LoadByteSource::A => self.registers.a,
                        LoadByteSource::B => self.registers.b,
                        LoadByteSource::C => self.registers.c,
                        LoadByteSource::D => self.registers.d,
                        LoadByteSource::E => self.registers.e,
                        LoadByteSource::H => self.registers.h,
                        LoadByteSource::L => self.registers.l,
                        LoadByteSource::D8 => self.read_next_byte(),
                        LoadByteSource::HLI => self.bus.read_byte(self.registers.get_hl()),
                    };
                    match target {
                        LoadByteTarget::A => self.registers.a = source_value,
                        LoadByteTarget::B => self.registers.b = source_value,
                        LoadByteTarget::C => self.registers.c = source_value,
                        LoadByteTarget::D => self.registers.d = source_value,
                        LoadByteTarget::E => self.registers.e = source_value,
                        LoadByteTarget::H => self.registers.h = source_value,
                        LoadByteTarget::L => self.registers.l = source_value,
                        LoadByteTarget::HLI => {
                            let address = self.registers.get_hl();
                            self.bus.write_byte(address, source_value)
                        },
                    }
                    match source {
                        LoadByteSource::D8 => self.pc.wrapping_add(2),
                        _ => self.pc.wrapping_add(1),
                    }
                },
            },
        }
    }

    /// The immediate byte that follows the opcode.
    fn read_next_byte(&self) -> (r: u8)
        ensures
            r == self.byte_at(wrap16(self.pc, 1)),
    {
        self.bus.read_byte(self.pc.wrapping_add(1))
    }

    /// Sets the flags for `A + value` and returns the wrapped sum; A itself is
    /// left for the caller to write.
    fn add(&mut self, value: u8) -> (r: u8)
        ensures
            r == add_value(old(self).registers.a, value),
            final(self).registers == (Registers {
                f: add_flags(old(self).registers.a, value),
                ..old(self).registers
            }),
            final(self).pc == old(self).pc,
            final(self).bus == old(self).bus,
    {
        let new_value = self.registers.a.wrapping_add(value);
        let did_overflow = (self.registers.a as u16) + (value as u16) > 0xFF;
        self.registers.f.zero = new_value == 0;
        // addition never sets the subtract flag
        self.registers.f.subtract = false;
        self.registers.f.carry = did_overflow;
        // a carry out of the low nibble
        let a = self.registers.a;
        assert(a & 0xF == a % 16 && value & 0xF == value % 16) by (bit_vector);
        self.registers.f.half_carry = (a & 0xF) + (value & 0xF) > 0xF;
        new_value
    }

    /// The next program counter of a jump: the address in the two bytes after
    /// the opcode when taken, else the address past those two bytes.
    fn jump(&self, should_jump: bool) -> (r: u16)
        ensures
            should_jump ==> r == self.jump_target(),
            !should_jump ==> r == wrap16(self.pc, 3),
    {
        if should_jump {
            // little-endian: the low byte comes first
            let least_significant_byte = self.bus.read_byte(self.pc.wrapping_add(1)) as u16;
            let most_significant_byte = self.bus.read_byte(self.pc.wrapping_add(2)) as u16;
            (most_significant_byte << 8) | least_significant_byte
        } else {
            self.pc.wrapping_add(3)
        }
    }

    /// Fetches, decodes and executes one instruction and moves the program
    /// counter to the next one. An opcode that does not decode leaves the
    /// processor unchanged and is returned as the error.
    pub fn step(&mut self) -> (r: Result<(), UnknownInstruction>)
        ensures
            ({
                let (byte, prefixed) = old(self).fetched();
                match decode(byte, prefixed) {
                    Some(i) => {
                        &&& r is Ok
                        &&& final(self).registers == old(self).registers_after(i)
                        &&& final(self).bus@ == old(self).memory_after(i)
                        &&& final(self).pc == old(self).next_pc(i)
                    },
                    None => {
                        &&& r == Err::<(), UnknownInstruction>(
                            UnknownInstruction { byte, prefixed },
                        )
                        &&& final(self).registers == old(self).registers
                        &&& final(self).bus@ == old(self).bus@
                        &&& final(self).pc == old(self).pc
                    },
                }
            }),
    {
        let mut instruction_byte = self.bus.read_byte(self.pc);
        let prefixed = instruction_byte == 0xCB;
        if prefixed {
            instruction_byte = self.bus.read_byte(self.pc.wrapping_add(1));
        }
        match Instruction::from_byte(instruction_byte, prefixed) {
            Some(instruction) => {
                let next_pc = self.execute(instruction);
                self.pc = next_pc;
                Ok(())
            },
            None => Err(UnknownInstruction { byte: instruction_byte, prefixed }),
        }
    }
}

/// A jump whose condition does not hold moves three bytes on, and two
/// processors that differ only in memory get the same next address from it:
/// the address bytes after the opcode are not read.
pub proof fn lemma_untaken_jump_ignores_memory(x: CPU, y: CPU, test: JumpTest)
    requires
        x.registers == y.registers,
        x.pc == y.pc,
        !jump_holds(x.registers.f, test),
    ensures
        x.next_pc(Instruction::JP(test)) == wrap16(x.pc, 3),
        x.next_pc(Instruction::JP(test)) == y.next_pc(Instruction::JP(test)),
        x.registers_after(Instruction::JP(test)) == x.registers,
        x.memory_after(Instruction::JP(test)) == x.bus@,
{
}

/// A taken jump goes to the little-endian address in the two bytes after the
/// opcode, and changes neither registers nor memory.
pub proof fn lemma_taken_jump_target(x: CPU, test: JumpTest)
    requires
        jump_holds(x.registers.f, test),
    ensures
        x.next_pc(Instruction::JP(test)) == ((x.byte_at(wrap16(x.pc, 2)) as u16) << 8) | (x.byte_at(
            wrap16(x.pc, 1),
        ) as u16),
        x.registers_after(Instruction::JP(test)) == x.registers,
        x.memory_after(Instruction::JP(test)) == x.bus@,
{
}

impl Default for CPU {
    fn default() -> (r: CPU)
        ensures
            r.registers == (Registers {
                a: 0,
                b: 0,
                c: 0,
                d: 0,
                e: 0,
                f: FlagsRegister { zero: false, subtract: false, half_carry: false, carry: false },
                h: 0,
                l: 0,
            }),
            r.pc == 0,
            r.bus@.len() == MEMORY_SIZE,
            forall|i: int| 0 <= i < MEMORY_SIZE ==> r.bus@[i] == 0,
    {
        CPU::new()
    }
}

} // verus!
