use vstd::prelude::*;

verus! {

/// The four condition codes, held in bits 7 to 4 of the flags byte.
#[derive(Clone, Copy, Debug, PartialEq, Eq, Structural)]
pub struct FlagsRegister {
    pub zero: bool,
    pub subtract: bool,
    pub half_carry: bool,
    pub carry: bool,
}

const ZERO_FLAG_BYTE_POSITION: u8 = 7;
const SUBTRACT_FLAG_BYTE_POSITION: u8 = 6;
const HALF_CARRY_FLAG_BYTE_POSITION: u8 = 5;
const CARRY_FLAG_BYTE_POSITION: u8 = 4;

/// The hardware encoding of a flags value: bit 7 zero, bit 6 subtract,
/// bit 5 half-carry, bit 4 carry, bits 3 to 0 clear.
pub open spec fn flags_to_byte(f: FlagsRegister) -> u8 {
    ((if f.zero { 0x80u8 } else { 0u8 }) | (if f.subtract { 0x40u8 } else { 0u8 }) | (if f.half_carry {
        0x20u8
    } else {
        0u8
    }) | (if f.carry { 0x10u8 } else { 0u8 })) as u8
}

/// Decodes bits 7 to 4 of a flags byte; bits 3 to 0 are ignored.
pub open spec fn flags_from_byte(b: u8) -> FlagsRegister {
    FlagsRegister {
        zero: b & 0x80 != 0,
        subtract: b & 0x40 != 0,
        half_carry: b & 0x20 != 0,
        carry: b & 0x10 != 0,
    }
}

impl FlagsRegister {
    /// All four flags clear.
    pub fn new() -> (r: FlagsRegister)
        ensures
            !r.zero && !r.subtract && !r.half_carry && !r.carry,
    {
        FlagsRegister { zero: false, subtract: false, half_carry: false, carry: false }
    }
}

impl Default for FlagsRegister {
    fn default() -> (r: FlagsRegister)
        ensures
            !r.zero && !r.subtract && !r.half_carry && !r.carry,
    {
        FlagsRegister::new()
    }
}

fn bit_of(set: bool, position: u8) -> (r: u8)
    requires
        position < 8,
    ensures
        r == (if set { 1u8 << position } else { 0u8 }),
{
    assert(0u8 << position == 0u8) by (bit_vector);
    (if set { 1u8 } else { 0u8 }) << position
}

impl From<FlagsRegister> for u8 {
    fn from(flag: FlagsRegister) -> (r: u8)
        ensures
            r == flags_to_byte(flag),
    {
        let r = bit_of(flag.zero, ZERO_FLAG_BYTE_POSITION) | bit_of(
            flag.subtract,
            SUBTRACT_FLAG_BYTE_POSITION,
        ) | bit_of(flag.half_carry, HALF_CARRY_FLAG_BYTE_POSITION) | bit_of(
            flag.carry,
            CARRY_FLAG_BYTE_POSITION,
        );
        assert(1u8 << 7u8 == 0x80u8 && 1u8 << 6u8 == 0x40u8 && 1u8 << 5u8 == 0x20u8 && 1u8 << 4u8
            == 0x10u8) by (bit_vector);
        r
    }
}

impl vstd::std_specs::convert::FromSpecImpl<FlagsRegister> for u8 {
    open spec fn obeys_from_spec() -> bool {
        true
    }

    open spec fn from_spec(v: FlagsRegister) -> u8 {
        flags_to_byte(v)
    }
}

fn bit_set(byte: u8, position: u8) -> (r: bool)
    requires
        position < 8,
    ensures
        r == ((byte >> position) & 1 != 0),
{
    ((byte >> position) & 0x01) != 0
}

impl From<u8> for FlagsRegister {
    fn from(byte: u8) -> (r: FlagsRegister)
        ensures
            r == flags_from_byte(byte),
    {
        let zero = bit_set(byte, ZERO_FLAG_BYTE_POSITION);
        let subtract = bit_set(byte, SUBTRACT_FLAG_BYTE_POSITION);
        let half_carry = bit_set(byte, HALF_CARRY_FLAG_BYTE_POSITION);
        let carry = bit_set(byte, CARRY_FLAG_BYTE_POSITION);
        assert(((byte >> 7u8) & 1 != 0) == (byte & 0x80 != 0)) by (bit_vector);
        assert(((byte >> 6u8) & 1 != 0) == (byte & 0x40 != 0)) by (bit_vector);
        assert(((byte >> 5u8) & 1 != 0) == (byte & 0x20 != 0)) by (bit_vector);
        assert(((byte >> 4u8) & 1 != 0) == (byte & 0x10 != 0)) by (bit_vector);
        FlagsRegister { zero, subtract, half_carry, carry }
    }
}

impl vstd::std_specs::convert::FromSpecImpl<u8> for FlagsRegister {
    open spec fn obeys_from_spec() -> bool {
        true
    }

    open spec fn from_spec(v: u8) -> FlagsRegister {
        flags_from_byte(v)
    }
}

/// Encoding a flags value and decoding the byte gives the same flags back.
pub proof fn lemma_flags_round_trip(f: FlagsRegister)
    ensures
        flags_from_byte(flags_to_byte(f)) == f,
{
    let (z, s, h, c) = (f.zero, f.subtract, f.half_carry, f.carry);
    assert(({
        let b = ((if z { 0x80u8 } else { 0u8 }) | (if s { 0x40u8 } else { 0u8 }) | (if h {
            0x20u8
        } else {
            0u8
        }) | (if c { 0x10u8 } else { 0u8 })) as u8;
        (b & 0x80 != 0) == z && (b & 0x40 != 0) == s && (b & 0x20 != 0) == h && (b & 0x10 != 0)
            == c
    })) by (bit_vector);
}

/// Decoding a byte and encoding the flags keeps bits 7 to 4 and clears the
/// low nibble.
pub proof fn lemma_flags_byte_round_trip(b: u8)
    ensures
        flags_to_byte(flags_from_byte(b)) == b & 0xF0,
{
    assert((((if b & 0x80 != 0 { 0x80u8 } else { 0u8 }) | (if b & 0x40 != 0 {
        0x40u8
    } else {
        0u8
    }) | (if b & 0x20 != 0 { 0x20u8 } else { 0u8 }) | (if b & 0x10 != 0 {
        0x10u8
    } else {
        0u8
    })) as u8) == b & 0xF0) by (bit_vector);
}

/// The 16-bit value of a register pair: `high` in the upper byte.
pub open spec fn pair_value(high: u8, low: u8) -> u16 {
    ((high as u16) << 8) | (low as u16)
}

/// The upper byte of a 16-bit value.
pub open spec fn high_byte(v: u16) -> u8 {
    (v >> 8) as u8
}

/// The lower byte of a 16-bit value.
pub open spec fn low_byte(v: u16) -> u8 {
    (v & 0xFF) as u8
}

/// The eight-bit general registers and the flags.
#[derive(Clone, Copy, Debug, PartialEq, Eq, Structural)]
pub struct Registers {
    pub a: u8,
    pub b: u8,
    pub c: u8,
    pub d: u8,
    pub e: u8,
    pub f: FlagsRegister,
    pub h: u8,
    pub l: u8,
}

impl Registers {
    pub open spec fn bc(self) -> u16 {
        pair_value(self.b, self.c)
    }

    pub open spec fn hl(self) -> u16 {
        pair_value(self.h, self.l)
    }

    /// The registers with B and C holding `v`, all else as it was.
    pub open spec fn with_bc(self, v: u16) -> Registers {
        Registers { b: high_byte(v), c: low_byte(v), ..self }
    }

    /// The registers with H and L holding `v`, all else as it was.
    pub open spec fn with_hl(self, v: u16) -> Registers {
        Registers { h: high_byte(v), l: low_byte(v), ..self }
    }

    /// All registers zero and all flags clear.
    pub fn new() -> (r: Registers)
        ensures
            r.a == 0 && r.b == 0 && r.c == 0 && r.d == 0 && r.e == 0 && r.h == 0 && r.l == 0,
            !r.f.zero && !r.f.subtract && !r.f.half_carry && !r.f.carry,
    {
        Registers { a: 0, b: 0, c: 0, d: 0, e: 0, f: FlagsRegister::new(), h: 0, l: 0 }
    }

    /// B and C read as one 16-bit value, B in the upper byte.
    pub fn get_bc(&self) -> (r: u16)
        ensures
            r == self.bc(),
    {
        (self.b as u16) << 8 | self.c as u16
    }

    /// Writes the upper byte of `value` to B and the lower to C.
    pub fn set_bc(&mut self, value: u16)
        ensures
            *final(self) == old(self).with_bc(value),
    {
        self.b = ((value & 0xFF00) >> 8) as u8;
        self.c = (value & 0xFF) as u8;
        assert(((value & 0xFF00) >> 8) as u8 == (value >> 8) as u8) by (bit_vector);
    }

    /// H and L read as one 16-bit value, H in the upper byte.
    pub fn get_hl(&self) -> (r: u16)
        ensures
            r == self.hl(),
    {
        (self.h as u16) << 8 | self.l as u16
    }

    /// Writes the upper byte of `value` to H and the lower to L.
    pub fn set_hl(&mut self, value: u16)
        ensures
            *final(self) == old(self).with_hl(value),
    {
        self.h = ((value & 0xFF00) >> 8) as u8;
        self.l = (value & 0xFF) as u8;
        assert(((value & 0xFF00) >> 8) as u8 == (value >> 8) as u8) by (bit_vector);
    }
}

impl Default for Registers {
    fn default() -> (r: Registers)
        ensures
            r.a == 0 && r.b == 0 && r.c == 0 && r.d == 0 && r.e == 0 && r.h == 0 && r.l == 0,
            !r.f.zero && !r.f.subtract && !r.f.half_carry && !r.f.carry,
    {
        Registers::new()
    }
}

/// A 16-bit value split into its two bytes and joined again is unchanged,
/// and the two bytes of a joined pair are the bytes it was made from.
pub proof fn lemma_pair_bytes(v: u16, high: u8, low: u8)
    ensures
        pair_value(high_byte(v), low_byte(v)) == v,
        high_byte(pair_value(high, low)) == high,
        low_byte(pair_value(high, low)) == low,
{
    assert(((((v >> 8) as u8) as u16) << 8) | (((v & 0xFF) as u8) as u16) == v) by (bit_vector);
    assert(((((high as u16) << 8) | (low as u16)) >> 8) as u8 == high) by (bit_vector);
    assert(((((high as u16) << 8) | (low as u16)) & 0xFF) as u8 == low) by (bit_vector);
}

/// Writing a 16-bit value into the BC pair and reading the pair back gives
/// the value; no register outside the pair changes, nor the flags.
pub proof fn lemma_bc_set_get(r: Registers, v: u16)
    ensures
        r.with_bc(v).bc() == v,
        r.with_bc(v).hl() == r.hl(),
        ({
            let s = r.with_bc(v);
            s.a == r.a && s.d == r.d && s.e == r.e && s.h == r.h && s.l == r.l && s.f == r.f
        }),
{
    lemma_pair_bytes(v, 0, 0);
}

/// Writing a 16-bit value into the HL pair and reading the pair back gives
/// the value; no register outside the pair changes, nor the flags.
pub proof fn lemma_hl_set_get(r: Registers, v: u16)
    ensures
        r.with_hl(v).hl() == v,
        r.with_hl(v).bc() == r.bc(),
        ({
            let s = r.with_hl(v);
            s.a == r.a && s.b == r.b && s.c == r.c && s.d == r.d && s.e == r.e && s.f == r.f
        }),
{
    lemma_pair_bytes(v, 0, 0);
}

} // verus!
