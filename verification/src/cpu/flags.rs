//! The four flags in the upper nibble of the flags register F.

use vstd::prelude::*;
use crate::cpu::CPU;

verus! {

/// One of the four flags held in the upper nibble of the flags register F.
#[derive(Clone, Copy, Debug, PartialEq, Eq, Structural)]
pub enum Flag {
    /// Bit 7 of F.
    Zero,
    /// Bit 6 of F.
    Subtract,
    /// Bit 5 of F.
    HalfCarry,
    /// Bit 4 of F.
    Carry,
}

impl Flag {
    /// The weight of the flag's bit within F.
    pub open spec fn spec_mask(self) -> u8 {
        match self {
            Flag::Zero => 0x80,
            Flag::Subtract => 0x40,
            Flag::HalfCarry => 0x20,
            Flag::Carry => 0x10,
        }
    }

    /// The weight of the flag's bit within F.
    #[verifier::when_used_as_spec(spec_mask)]
    pub fn mask(self) -> (m: u8)
        ensures
            m == self.spec_mask(),
    {
        match self {
            Flag::Zero => 0x80,
            Flag::Subtract => 0x40,
            Flag::HalfCarry => 0x20,
            Flag::Carry => 0x10,
        }
    }
}

/// Whether `flag` is set in the flags byte `f`.
pub open spec fn flag_in(f: u8, flag: Flag) -> bool {
    match flag {
        Flag::Zero => (f as int / 0x80) % 2 == 1,
        Flag::Subtract => (f as int / 0x40) % 2 == 1,
        Flag::HalfCarry => (f as int / 0x20) % 2 == 1,
        Flag::Carry => (f as int / 0x10) % 2 == 1,
    }
}

/// The flags byte `f` with `flag` set or cleared and every other bit as it
/// was.
pub open spec fn flags_with(f: u8, flag: Flag, on: bool) -> u8 {
    if flag_in(f, flag) == on {
        f
    } else if on {
        (f + flag.mask()) as u8
    } else {
        (f - flag.mask()) as u8
    }
}

/// How testing a bit with a mask relates to dividing by the mask's weight.
proof fn lemma_mask_test(f: u8, flag: Flag)
    ensures
        (f & flag.mask() != 0) == flag_in(f, flag),
        flag_in(f, flag) ==> (f & !flag.mask()) == f - flag.mask(),
        !flag_in(f, flag) ==> (f | flag.mask()) == f + flag.mask(),
        flag_in(f, flag) ==> (f | flag.mask()) == f,
        !flag_in(f, flag) ==> (f & !flag.mask()) == f,
{
    assert((f & 0x80 != 0) == ((f / 0x80) % 2 == 1)) by (bit_vector);
    assert((f & 0x40 != 0) == ((f / 0x40) % 2 == 1)) by (bit_vector);
    assert((f & 0x20 != 0) == ((f / 0x20) % 2 == 1)) by (bit_vector);
    assert((f & 0x10 != 0) == ((f / 0x10) % 2 == 1)) by (bit_vector);
    assert(f & 0x80 != 0 ==> (f & !0x80u8) == f - 0x80 && (f | 0x80) == f) by (bit_vector);
    assert(f & 0x40 != 0 ==> (f & !0x40u8) == f - 0x40 && (f | 0x40) == f) by (bit_vector);
    assert(f & 0x20 != 0 ==> (f & !0x20u8) == f - 0x20 && (f | 0x20) == f) by (bit_vector);
    assert(f & 0x10 != 0 ==> (f & !0x10u8) == f - 0x10 && (f | 0x10) == f) by (bit_vector);
    assert(f & 0x80 == 0 ==> (f | 0x80) == f + 0x80 && (f & !0x80u8) == f) by (bit_vector);
    assert(f & 0x40 == 0 ==> (f | 0x40) == f + 0x40 && (f & !0x40u8) == f) by (bit_vector);
    assert(f & 0x20 == 0 ==> (f | 0x20) == f + 0x20 && (f & !0x20u8) == f) by (bit_vector);
    assert(f & 0x10 == 0 ==> (f | 0x10) == f + 0x10 && (f & !0x10u8) == f) by (bit_vector);
}

/// After a flag is set or cleared it reads as it was written, each of the
/// other three flags reads as before, and the low nibble of the flags byte
/// is as before.
pub proof fn lemma_flag_round_trip(f: u8, flag: Flag, on: bool)
    ensures
        flag_in(flags_with(f, flag, on), flag) == on,
        forall|other: Flag|
            other != flag ==> flag_in(flags_with(f, flag, on), other) == #[trigger] flag_in(
                f,
                other,
            ),
        flags_with(f, flag, on) % 16 == f % 16,
{
    lemma_mask_test(f, flag);
    match flag {
        Flag::Zero => {
            assert({
                &&& ((f | 0x80) / 0x40) % 2 == (f / 0x40) % 2
                &&& ((f | 0x80) / 0x20) % 2 == (f / 0x20) % 2
                &&& ((f | 0x80) / 0x10) % 2 == (f / 0x10) % 2
                &&& (f | 0x80) % 16 == f % 16
            }) by (bit_vector);
            assert({
                &&& ((f & !0x80u8) / 0x40) % 2 == (f / 0x40) % 2
                &&& ((f & !0x80u8) / 0x20) % 2 == (f / 0x20) % 2
                &&& ((f & !0x80u8) / 0x10) % 2 == (f / 0x10) % 2
                &&& (f & !0x80u8) % 16 == f % 16
            }) by (bit_vector);
        },
        Flag::Subtract => {
            assert({
                &&& ((f | 0x40) / 0x80) % 2 == (f / 0x80) % 2
                &&& ((f | 0x40) / 0x20) % 2 == (f / 0x20) % 2
                &&& ((f | 0x40) / 0x10) % 2 == (f / 0x10) % 2
                &&& (f | 0x40) % 16 == f % 16
            }) by (bit_vector);
            assert({
                &&& ((f & !0x40u8) / 0x80) % 2 == (f / 0x80) % 2
                &&& ((f & !0x40u8) / 0x20) % 2 == (f / 0x20) % 2
                &&& ((f & !0x40u8) / 0x10) % 2 == (f / 0x10) % 2
                &&& (f & !0x40u8) % 16 == f % 16
            }) by (bit_vector);
        },
        Flag::HalfCarry => {
            assert({
                &&& ((f | 0x20) / 0x80) % 2 == (f / 0x80) % 2
                &&& ((f | 0x20) / 0x40) % 2 == (f / 0x40) % 2
                &&& ((f | 0x20) / 0x10) % 2 == (f / 0x10) % 2
                &&& (f | 0x20) % 16 == f % 16
            }) by (bit_vector);
            assert({
                &&& ((f & !0x20u8) / 0x80) % 2 == (f / 0x80) % 2
                &&& ((f & !0x20u8) / 0x40) % 2 == (f / 0x40) % 2
                &&& ((f & !0x20u8) / 0x10) % 2 == (f / 0x10) % 2
                &&& (f & !0x20u8) % 16 == f % 16
            }) by (bit_vector);
        },
        Flag::Carry => {
            assert({
                &&& ((f | 0x10) / 0x80) % 2 == (f / 0x80) % 2
                &&& ((f | 0x10) / 0x40) % 2 == (f / 0x40) % 2
                &&& ((f | 0x10) / 0x20) % 2 == (f / 0x20) % 2
                &&& (f | 0x10) % 16 == f % 16
            }) by (bit_vector);
            assert({
                &&& ((f & !0x10u8) / 0x80) % 2 == (f / 0x80) % 2
                &&& ((f & !0x10u8) / 0x40) % 2 == (f / 0x40) % 2
                &&& ((f & !0x10u8) / 0x20) % 2 == (f / 0x20) % 2
                &&& (f & !0x10u8) % 16 == f % 16
            }) by (bit_vector);
        },
    }
}

impl CPU {
    /// Reads one flag of the flags register.
    pub fn flag(&self, flag: Flag) -> (on: bool)
        ensures
            on == flag_in(self.f, flag),
    {
        proof {
            lemma_mask_test(self.f, flag);
        }
        self.f & flag.mask() != 0
    }

    /// Sets or clears one flag of the flags register.
    pub fn set_flag(&mut self, flag: Flag, on: bool)
        ensures
            *final(self) == (CPU { f: flags_with(old(self).f, flag, on), ..*old(self) }),
    {
        proof {
            lemma_mask_test(self.f, flag);
        }
        if on {
            self.f = self.f | flag.mask();
        } else {
            self.f = self.f & !flag.mask();
        }
    }
}

} // verus!
