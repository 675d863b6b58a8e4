use vstd::prelude::*;
use vstd::string::StringSliceAdditionalSpecFns;

verus! {

/// How an instruction treats one flag.
#[derive(Clone, Copy, Debug, PartialEq, Eq, Structural)]
pub enum FlagOps {
    AlwaysSet,
    AlwaysReset,
    Dependent,
    DoNothing,
}

/// The flag action written as a one-character token: a flag's letter means the
/// flag depends on the result, `0` and `1` force it, `-` leaves it alone.
pub open spec fn flag_op_of_token(bytes: Seq<u8>) -> Option<FlagOps> {
    if bytes.len() != 1 {
        None
    } else {
        let c = bytes[0];
        if c == 0x5A || c == 0x48 || c == 0x43 || c == 0x4E {
            Some(FlagOps::Dependent)
        } else if c == 0x30 {
            Some(FlagOps::AlwaysReset)
        } else if c == 0x31 {
            Some(FlagOps::AlwaysSet)
        } else if c == 0x2D {
            Some(FlagOps::DoNothing)
        } else {
            None
        }
    }
}

impl FlagOps {
    /// Reads a flag token (`Z`, `N`, `H`, `C`, `0`, `1` or `-`).
    pub fn from_token(s: &str) -> (r: Option<FlagOps>)
        ensures
            r == flag_op_of_token(s.spec_bytes()),
    {
        let b = s.as_bytes();
        if b.len() != 1 {
            return None;
        }
        // Z, H, C, N
        let c = b[0];
        if c == 0x5A || c == 0x48 || c == 0x43 || c == 0x4E {
            Some(FlagOps::Dependent)
        } else if c == 0x30 {
            Some(FlagOps::AlwaysReset)
        } else if c == 0x31 {
            Some(FlagOps::AlwaysSet)
        } else if c == 0x2D {
            Some(FlagOps::DoNothing)
        } else {
            None
        }
    }
}

/// The four CPU flags held in the upper nibble of register F.
#[derive(Clone, Copy, Debug, PartialEq, Eq, Structural)]
pub struct FlagsRegister {
    pub zero: bool,
    pub negative: bool,
    pub half_carry: bool,
    pub carry: bool,
}

pub open spec fn bit_of(b: bool) -> u8 {
    if b {
        1
    } else {
        0
    }
}

impl FlagsRegister {
    /// `(Z << 7) | (N << 6) | (H << 5) | (C << 4)`.
    pub open spec fn spec_to_byte(self) -> u8 {
        (bit_of(self.zero) << 7u8) | (bit_of(self.negative) << 6u8) | (bit_of(self.half_carry)
            << 5u8) | (bit_of(self.carry) << 4u8)
    }

    /// Bits 7..4 of `b` as flags; the low nibble is dropped.
    pub open spec fn spec_from_byte(b: u8) -> FlagsRegister {
        FlagsRegister {
            zero: b & 0x80 == 0x80,
            negative: b & 0x40 == 0x40,
            half_carry: b & 0x20 == 0x20,
            carry: b & 0x10 == 0x10,
        }
    }

    pub fn init() -> (r: Self)
        ensures
            r == (FlagsRegister { zero: false, negative: false, half_carry: false, carry: false }),
    {
        Self { zero: false, negative: false, half_carry: false, carry: false }
    }

    pub fn to_byte(&self) -> (r: u8)
        ensures
            r == self.spec_to_byte(),
    {
        let z: u8 = if self.zero { 1 } else { 0 };
        let n: u8 = if self.negative { 1 } else { 0 };
        let h: u8 = if self.half_carry { 1 } else { 0 };
        let c: u8 = if self.carry { 1 } else { 0 };
        (z << 7u8) | (n << 6u8) | (h << 5u8) | (c << 4u8)
    }

    pub fn from_byte(value: u8) -> (r: Self)
        ensures
            r == Self::spec_from_byte(value),
    {
        Self {
            zero: (value & 0x80) == 0x80,
            negative: (value & 0x40) == 0x40,
            half_carry: (value & 0x20) == 0x20,
            carry: (value & 0x10) == 0x10,
        }
    }
}

impl From<FlagsRegister> for u8 {
    fn from(flag: FlagsRegister) -> (r: u8) {
        flag.to_byte()
    }
}

impl vstd::std_specs::convert::FromSpecImpl<FlagsRegister> for u8 {
    open spec fn obeys_from_spec() -> bool {
        true
    }

    open spec fn from_spec(flag: FlagsRegister) -> u8 {
        flag.spec_to_byte()
    }
}

impl From<u8> for FlagsRegister {
    fn from(value: u8) -> (r: FlagsRegister) {
        FlagsRegister::from_byte(value)
    }
}

impl vstd::std_specs::convert::FromSpecImpl<u8> for FlagsRegister {
    open spec fn obeys_from_spec() -> bool {
        true
    }

    open spec fn from_spec(value: u8) -> FlagsRegister {
        FlagsRegister::spec_from_byte(value)
    }
}

/// The byte form of the flags never has a bit set in its low nibble.
pub proof fn lemma_low_nibble_zero(f: FlagsRegister)
    ensures
        f.spec_to_byte() & 0x0F == 0,
{
    let z = bit_of(f.zero);
    let n = bit_of(f.negative);
    let h = bit_of(f.half_carry);
    let c = bit_of(f.carry);
    assert(((z << 7u8) | (n << 6u8) | (h << 5u8) | (c << 4u8)) & 0x0F == 0) by (bit_vector)
        requires
            z <= 1,
            n <= 1,
            h <= 1,
            c <= 1,
    ;
}

/// Reading a byte with a zero low nibble as flags and writing it back gives the same byte.
pub proof fn lemma_byte_round_trip(b: u8)
    requires
        b & 0x0F == 0,
    ensures
        FlagsRegister::spec_from_byte(b).spec_to_byte() == b,
{
    let f = FlagsRegister::spec_from_byte(b);
    let z = bit_of(f.zero);
    let n = bit_of(f.negative);
    let h = bit_of(f.half_carry);
    let c = bit_of(f.carry);
    assert(((if b & 0x80 == 0x80 { 1u8 } else { 0u8 }) << 7u8 | (if b & 0x40 == 0x40 {
        1u8
    } else {
        0u8
    }) << 6u8 | (if b & 0x20 == 0x20 { 1u8 } else { 0u8 }) << 5u8 | (if b & 0x10 == 0x10 {
        1u8
    } else {
        0u8
    }) << 4u8) == b) by (bit_vector)
        requires
            b & 0x0F == 0,
    ;
}

/// Converting flags to a byte and back gives the same flags.
pub proof fn lemma_flags_round_trip(f: FlagsRegister)
    ensures
        FlagsRegister::spec_from_byte(f.spec_to_byte()) == f,
{
    let z = bit_of(f.zero);
    let n = bit_of(f.negative);
    let h = bit_of(f.half_carry);
    let c = bit_of(f.carry);
    let b = (z << 7u8) | (n << 6u8) | (h << 5u8) | (c << 4u8);
    assert((b & 0x80 == 0x80) == (z == 1) && (b & 0x40 == 0x40) == (n == 1) && (b & 0x20 == 0x20)
        == (h == 1) && (b & 0x10 == 0x10) == (c == 1)) by (bit_vector)
        requires
            z <= 1,
            n <= 1,
            h <= 1,
            c <= 1,
            b == (z << 7u8) | (n << 6u8) | (h << 5u8) | (c << 4u8),
    ;
}

} // verus!
