use vstd::prelude::*;

verus! {

/// A decoded instruction: one variant per instruction family.
#[derive(Clone, Copy, Debug, PartialEq, Eq, Structural)]
pub enum Instruction {
    ADD(ArithmeticTarget),
    JP(JumpTest),
    LD(LoadType),
}

/// The register added to A by `ADD A, r`.
#[derive(Clone, Copy, Debug, PartialEq, Eq, Structural)]
pub enum ArithmeticTarget {
    A,
    B,
    C,
    D,
    E,
    H,
    L,
}

/// The condition under which a jump is taken.
#[derive(Clone, Copy, Debug, PartialEq, Eq, Structural)]
pub enum JumpTest {
    NotZero,
    Zero,
    NotCarry,
    Carry,
    Always,
}

/// Where a byte load writes: a register, or the byte addressed by HL.
#[derive(Clone, Copy, Debug, PartialEq, Eq, Structural)]
pub enum LoadByteTarget {
    A,
    B,
    C,
    D,
    E,
    H,
    L,
    HLI,
}

/// Where a byte load reads: a register, the immediate byte after the opcode,
/// or the byte addressed by HL.
#[derive(Clone, Copy, Debug, PartialEq, Eq, Structural)]
pub enum LoadByteSource {
    A,
    B,
    C,
    D,
    E,
    H,
    L,
    D8,
    HLI,
}

/// The shape of a load: for now a single byte from a source to a target.
#[derive(Clone, Copy, Debug, PartialEq, Eq, Structural)]
pub enum LoadType {
    Byte(LoadByteTarget, LoadByteSource),
}

/// The opcode table for bytes that follow the 0xCB prefix.
pub open spec fn decode_prefixed(byte: u8) -> Option<Instruction> {
    None
}

/// The opcode table for unprefixed bytes.
pub open spec fn decode_not_prefixed(byte: u8) -> Option<Instruction> {
    None
}

/// The instruction that `byte` stands for, looked up in the prefixed or the
/// unprefixed table; `None` where the byte is not recognised.
pub open spec fn decode(byte: u8, prefixed: bool) -> Option<Instruction> {
    if prefixed {
        decode_prefixed(byte)
    } else {
        decode_not_prefixed(byte)
    }
}

impl Instruction {
    /// Decodes `byte`, from the prefixed table when it followed 0xCB.
    pub fn from_byte(byte: u8, prefixed: bool) -> (r: Option<Instruction>)
        ensures
            r == decode(byte, prefixed),
    {
        if prefixed {
            Instruction::from_byte_prefixed(byte)
        } else {
            Instruction::from_byte_not_prefixed(byte)
        }
    }

    fn from_byte_prefixed(byte: u8) -> (r: Option<Instruction>)
        ensures
            r == decode_prefixed(byte),
    {
        match byte {
            _ => None,
        }
    }

    fn from_byte_not_prefixed(byte: u8) -> (r: Option<Instruction>)
        ensures
            r == decode_not_prefixed(byte),
    {
        match byte {
            _ => None,
        }
    }
}

/// The upper-case hexadecimal digit for `d`, which is below 16.
pub open spec fn hex_digit(d: u8) -> char {
    if d < 10 {
        ((d + 48) as u8) as char
    } else {
        ((d + 55) as u8) as char
    }
}

/// `byte` as two upper-case hexadecimal digits.
pub open spec fn hex_byte(byte: u8) -> Seq<char> {
    seq![hex_digit(byte / 16), hex_digit(byte % 16)]
}

/// The diagnostic for an opcode that could not be decoded: `0x` and the byte
/// in two upper-case hexadecimal digits, with `CB` between them when the byte
/// followed the prefix.
pub open spec fn unknown_instruction_text(byte: u8, prefixed: bool) -> Seq<char> {
    seq!['0', 'x'] + (if prefixed {
        seq!['C', 'B']
    } else {
        Seq::empty()
    }) + hex_byte(byte)
}

/// An opcode that neither table recognises.
#[derive(Clone, Copy, Debug, PartialEq, Eq, Structural)]
pub struct UnknownInstruction {
    pub byte: u8,
    pub prefixed: bool,
}

fn hex_digit_str(d: u8) -> (r: &'static str)
    requires
        d < 16,
    ensures
        r@ == seq![hex_digit(d)],
{
    proof {
        reveal_strlit("0");
        reveal_strlit("1");
        reveal_strlit("2");
        reveal_strlit("3");
        reveal_strlit("4");
        reveal_strlit("5");
        reveal_strlit("6");
        reveal_strlit("7");
        reveal_strlit("8");
        reveal_strlit("9");
        reveal_strlit("A");
        reveal_strlit("B");
        reveal_strlit("C");
        reveal_strlit("D");
        reveal_strlit("E");
        reveal_strlit("F");
    }
    match d {
        0 => "0",
        1 => "1",
        2 => "2",
        3 => "3",
        4 => "4",
        5 => "5",
        6 => "6",
        7 => "7",
        8 => "8",
        9 => "9",
        10 => "A",
        11 => "B",
        12 => "C",
        13 => "D",
        14 => "E",
        _ => "F",
    }
}

impl UnknownInstruction {
    /// The diagnostic text, such as `0x00` or `0xCB00`.
    pub fn description(&self) -> (r: String)
        ensures
            r@ == unknown_instruction_text(self.byte, self.prefixed),
    {
        proof {
            reveal_strlit("0x");
            reveal_strlit("CB");
        }
        let mut text = String::from_str("0x");
        if self.prefixed {
            text.append("CB");
        }
        text.append(hex_digit_str(self.byte / 16));
        text.append(hex_digit_str(self.byte % 16));
        proof {
            assert(text@ =~= unknown_instruction_text(self.byte, self.prefixed));
        }
        text
    }
}

} // verus!
