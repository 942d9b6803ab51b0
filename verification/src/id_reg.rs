//! The identifier register: identifier, frame format and frame type packed
//! into one unsigned integer whose numeric order is the bus priority.
//!
//! Bit layout of the 32-bit register, most significant bit first:
//!
//! | bits   | field                                                        |
//! |--------|--------------------------------------------------------------|
//! | 31..21 | base identifier: all of a standard identifier, or the top 11 |
//! |        | bits of an extended one                                      |
//! | 20..3  | the 18 low bits of an extended identifier; zero for standard |
//! | 2      | IDE: 1 for the standard format, 0 for the extended format    |
//! | 1      | RTR: 1 for a remote frame, 0 for a data frame                |
//! | 0      | always 0                                                     |
//!
//! Bits 31..3 together are the identifier field. A numerically smaller
//! register wins arbitration, so the fields rank in the order of the table:
//! the identifier field first, then the format, then the frame type.
//!
//! The contracts speak of the register as a natural number and read its
//! fields by division and remainder: bit 1 weighs 2, bit 2 weighs 4, the
//! identifier field starts at 8, and a standard identifier starts at
//! `0x20_0000`, which is 2 to the power of 21.

use crate::id::{base_of, ExtendedId, Id, StandardId};
use std::cmp::Ordering;
use vstd::prelude::*;
use vstd::std_specs::cmp::PartialOrdSpecImpl;

verus! {

/// Position of the lowest bit of a standard identifier in the register.
pub const STANDARD_SHIFT: u32 = 21;

/// Position of the lowest bit of an extended identifier in the register.
pub const EXTENDED_SHIFT: u32 = 3;

/// The IDE bit: set for the standard format.
pub const IDE_MASK: u32 = 0x0000_0004;

/// The RTR bit: set for a remote frame.
pub const RTR_MASK: u32 = 0x0000_0002;

/// Register of the data frame with the standard identifier `id`: the
/// identifier in bits 31..21, the IDE bit set, all else clear.
pub open spec fn standard_register(id: nat) -> nat {
    id * 0x20_0000 + 4
}

/// Register of the data frame with the extended identifier `id`: the
/// identifier in bits 31..3, all else clear.
pub open spec fn extended_register(id: nat) -> nat {
    id * 8
}

/// Register of the data frame with the identifier `id`.
pub open spec fn register_of(id: Id) -> nat {
    match id {
        Id::Standard(s) => standard_register(s@),
        Id::Extended(e) => extended_register(e@),
    }
}

/// The 29-bit identifier field of a register.
pub open spec fn ident_field(reg: nat) -> nat {
    reg / 8
}

/// The IDE bit of a register: whether the frame has the standard format.
pub open spec fn ide_bit(reg: nat) -> bool {
    (reg / 4) % 2 == 1
}

/// The RTR bit of a register: whether the frame is a remote frame.
pub open spec fn rtr_bit(reg: nat) -> bool {
    (reg / 2) % 2 == 1
}

/// What the RTR bit adds to a register in which it has the value `rtr`.
pub open spec fn rtr_weight(rtr: bool) -> nat {
    if rtr {
        2
    } else {
        0
    }
}

/// The register `reg` with its RTR bit replaced by `rtr`.
pub open spec fn with_rtr_bit(reg: nat, rtr: bool) -> nat {
    (reg - rtr_weight(rtr_bit(reg)) + rtr_weight(rtr)) as nat
}

/// The identifier that a register holds: the top 11 bits of the identifier
/// field in the standard format, all 29 in the extended format.
pub open spec fn id_of(reg: nat) -> Id {
    if ide_bit(reg) {
        Id::Standard(StandardId::with_raw(base_of(ident_field(reg))))
    } else {
        Id::Extended(ExtendedId::with_raw(ident_field(reg)))
    }
}

/// The order of two numbers.
pub open spec fn compare(a: nat, b: nat) -> Ordering {
    if a < b {
        Ordering::Less
    } else if a == b {
        Ordering::Equal
    } else {
        Ordering::Greater
    }
}

/// The arbitration field of a frame, packed so that comparing two registers
/// as unsigned integers compares the priorities of their frames: the
/// smaller register wins.
///
/// The view of a register is its value as a number.
#[derive(Clone, Copy, Debug, PartialEq, Eq, Ord, Structural)]
pub struct IdReg(u32);

impl View for IdReg {
    type V = nat;

    /// The register as a number.
    closed spec fn view(&self) -> nat {
        self.0 as nat
    }
}

impl IdReg {
    /// The register fits in 32 bits, its lowest bit is clear, and in the
    /// standard format the 18 extension bits are clear.
    #[verifier::type_invariant]
    pub open spec fn is_valid(self) -> bool {
        &&& self@ <= u32::MAX
        &&& self@ % 2 == 0
        &&& ide_bit(self@) ==> ident_field(self@) % 0x4_0000 == 0
    }

    /// Two registers with the same number are the same value.
    pub proof fn lemma_view_injective(a: IdReg, b: IdReg)
        requires
            a@ == b@,
        ensures
            a == b,
    {
    }

    /// The register of a data frame with a standard identifier: the
    /// identifier in the 11 highest bits, the extension bits zero, IDE set,
    /// RTR clear.
    pub fn new_standard(id: StandardId) -> (reg: IdReg)
        ensures
            reg@ == standard_register(id@),
    {
        let raw: u32 = id.as_raw() as u32;
        let bits: u32 = (raw << STANDARD_SHIFT) | IDE_MASK;
        assert(bits == raw * 0x20_0000 + 4) by (bit_vector)
            requires
                raw <= 0x7FF,
                bits == (raw << 21u32) | 4u32,
        ;
        IdReg(bits)
    }

    /// The register of a data frame with an extended identifier: the
    /// identifier in the 29 highest bits, IDE clear, RTR clear.
    pub fn new_extended(id: ExtendedId) -> (reg: IdReg)
        ensures
            reg@ == extended_register(id@),
    {
        let raw: u32 = id.as_raw();
        let bits: u32 = raw << EXTENDED_SHIFT;
        assert(bits == raw * 8) by (bit_vector)
            requires
                raw <= 0x1FFF_FFFF,
                bits == raw << 3u32,
        ;
        IdReg(bits)
    }

    /// A copy of the register with the RTR bit set to `rtr` and every other
    /// bit as it is.
    #[must_use]
    pub fn with_rtr(self, rtr: bool) -> (reg: IdReg)
        ensures
            reg@ == with_rtr_bit(self@, rtr),
            rtr_bit(reg@) == rtr,
            ide_bit(reg@) == ide_bit(self@),
            ident_field(reg@) == ident_field(self@),
    {
        proof {
            use_type_invariant(self);
        }
        let old_bits: u32 = self.0;
        let bits: u32 = if rtr {
            old_bits | RTR_MASK
        } else {
            old_bits & !RTR_MASK
        };
        assert({
            &&& bits % 2 == old_bits % 2
            &&& (bits / 2) % 2 == 1 <==> rtr
            &&& (bits / 4) % 2 == (old_bits / 4) % 2
            &&& bits / 8 == old_bits / 8
            &&& rtr == ((old_bits / 2) % 2 == 1) ==> bits == old_bits
            &&& rtr && (old_bits / 2) % 2 != 1 ==> bits == old_bits + 2
            &&& !rtr && (old_bits / 2) % 2 == 1 ==> bits == old_bits - 2
        }) by (bit_vector)
            requires
                bits == (if rtr {
                    old_bits | 2u32
                } else {
                    old_bits & !2u32
                }),
        ;
        IdReg(bits)
    }

    /// The register as an unsigned integer, laid out as the module
    /// documentation says.
    pub fn as_raw(self) -> (bits: u32)
        ensures
            bits == self@,
    {
        self.0
    }

    /// Returns the identifier.
    pub fn to_id(self) -> (id: Id)
        ensures
            id == id_of(self@),
    {
        let bits: u32 = self.0;
        if self.is_extended() {
            let raw: u32 = bits >> EXTENDED_SHIFT;
            assert(raw == bits / 8 && raw <= 0x1FFF_FFFF) by (bit_vector)
                requires
                    raw == bits >> 3u32,
            ;
            Id::Extended(ExtendedId::new_unchecked(raw))
        } else {
            let raw: u32 = bits >> STANDARD_SHIFT;
            assert(raw == (bits / 8) / 0x4_0000 && raw <= 0x7FF) by (bit_vector)
                requires
                    raw == bits >> 21u32,
            ;
            Id::Standard(StandardId::new_unchecked(raw as u16))
        }
    }

    /// Returns `true` if the identifier is an extended identifier.
    pub fn is_extended(self) -> (extended: bool)
        ensures
            extended == !ide_bit(self@),
    {
        let bits: u32 = self.0;
        assert((bits & 4 == 0) <==> (bits / 4) % 2 != 1) by (bit_vector);
        bits & IDE_MASK == 0
    }

    /// Returns `true` if the identifier is a standard identifier.
    pub fn is_standard(self) -> (standard: bool)
        ensures
            standard == ide_bit(self@),
    {
        !self.is_extended()
    }

    /// Returns `true` if the register belongs to a remote frame.
    pub fn rtr(self) -> (remote: bool)
        ensures
            remote == rtr_bit(self@),
    {
        let bits: u32 = self.0;
        assert((bits & 2 != 0) <==> (bits / 2) % 2 == 1) by (bit_vector);
        bits & RTR_MASK != 0
    }

    /// Compares two registers as unsigned integers. The smaller register
    /// has the higher bus priority, and two registers that compare equal
    /// are the same register.
    pub fn cmp(&self, other: &IdReg) -> (order: Ordering)
        ensures
            order == compare(self@, other@),
            order is Equal <==> *self == *other,
    {
        if self.0 < other.0 {
            Ordering::Less
        } else if self.0 == other.0 {
            Ordering::Equal
        } else {
            Ordering::Greater
        }
    }
}

impl PartialOrd for IdReg {
    fn partial_cmp(&self, other: &Self) -> (order: Option<Ordering>) {
        Some(self.cmp(other))
    }
}

impl PartialOrdSpecImpl for IdReg {
    open spec fn obeys_partial_cmp_spec() -> bool {
        true
    }

    open spec fn partial_cmp_spec(&self, other: &Self) -> Option<Ordering> {
        Some(compare(self@, other@))
    }
}

/// Among standard identifiers the smaller identifier has the smaller
/// register, and so the higher priority.
pub proof fn lemma_standard_order(a: StandardId, b: StandardId)
    requires
        a.is_valid(),
        b.is_valid(),
        a@ < b@,
    ensures
        standard_register(a@) < standard_register(b@),
        compare(standard_register(a@), standard_register(b@)) == Ordering::Less,
{
}

/// Among extended identifiers the smaller identifier has the smaller
/// register, and so the higher priority.
pub proof fn lemma_extended_order(a: ExtendedId, b: ExtendedId)
    requires
        a.is_valid(),
        b.is_valid(),
        a@ < b@,
    ensures
        extended_register(a@) < extended_register(b@),
        compare(extended_register(a@), extended_register(b@)) == Ordering::Less,
{
}

/// An extended identifier that is the standard identifier `s` followed by
/// 18 zero bits has the smaller register of the two: the identifier fields
/// are equal, so the IDE bit decides, and it is clear in the extended
/// format.
pub proof fn lemma_extended_before_standard(s: StandardId, e: ExtendedId)
    requires
        s.is_valid(),
        e.is_valid(),
        base_of(e@) == s@,
        e@ % 0x4_0000 == 0,
    ensures
        extended_register(e@) < standard_register(s@),
        compare(extended_register(e@), standard_register(s@)) == Ordering::Less,
{
}

/// An extended identifier with the base `s` and any extension bit set has
/// a larger register than the standard identifier `s`: the extension bits
/// lie above the IDE bit, so the identifier field decides.
pub proof fn lemma_standard_before_extension(s: StandardId, e: ExtendedId)
    requires
        s.is_valid(),
        e.is_valid(),
        base_of(e@) == s@,
        e@ % 0x4_0000 != 0,
    ensures
        standard_register(s@) < extended_register(e@),
        compare(standard_register(s@), extended_register(e@)) == Ordering::Less,
{
}

/// With one identifier and one format, the data frame has the smaller
/// register: it outranks the remote frame.
pub proof fn lemma_data_before_remote(id: Id)
    requires
        id.is_valid(),
    ensures
        with_rtr_bit(register_of(id), false) < with_rtr_bit(register_of(id), true),
        compare(with_rtr_bit(register_of(id), false), with_rtr_bit(register_of(id), true))
            == Ordering::Less,
{
}

/// Packing an identifier and a frame type gives a register that fits in 32
/// bits and from which both can be read back, together with the format.
pub proof fn lemma_pack_unpack(id: Id, rtr: bool)
    requires
        id.is_valid(),
    ensures
        id_of(with_rtr_bit(register_of(id), rtr)) == id,
        rtr_bit(with_rtr_bit(register_of(id), rtr)) == rtr,
        ide_bit(with_rtr_bit(register_of(id), rtr)) == (id is Standard),
        with_rtr_bit(register_of(id), rtr) <= u32::MAX,
{
    match id {
        Id::Standard(s) => {
            StandardId::lemma_from_view(s);
        },
        Id::Extended(e) => {
            ExtendedId::lemma_from_view(e);
        },
    }
}

/// A valid register is the packing of the identifier and the frame type
/// that it holds: nothing else is stored in it.
pub proof fn lemma_unpack_pack(reg: IdReg)
    requires
        reg.is_valid(),
    ensures
        id_of(reg@).is_valid(),
        with_rtr_bit(register_of(id_of(reg@)), rtr_bit(reg@)) == reg@,
{
    if ide_bit(reg@) {
        StandardId::lemma_with_raw(base_of(ident_field(reg@)));
    } else {
        ExtendedId::lemma_with_raw(ident_field(reg@));
    }
}

/// A register is the sum of its fields, each at its weight.
proof fn lemma_sum_of_fields(bits: u32)
    by (bit_vector)
    ensures
        bits == (bits / 8) * 8 + ((bits / 4) % 2) * 4 + ((bits / 2) % 2) * 2 + bits % 2,
        (bits / 4) % 2 <= 1,
        (bits / 2) % 2 <= 1,
{
}

/// The order of two valid registers is the order of their fields, taken
/// from the most significant down: first the identifier field, then the
/// format with extended before standard, then the frame type with data
/// before remote. Two registers are equal only if all three fields are.
pub proof fn lemma_order_by_fields(a: IdReg, b: IdReg)
    requires
        a.is_valid(),
        b.is_valid(),
    ensures
        a@ < b@ <==> {
            ||| ident_field(a@) < ident_field(b@)
            ||| ident_field(a@) == ident_field(b@) && !ide_bit(a@) && ide_bit(b@)
            ||| ident_field(a@) == ident_field(b@) && ide_bit(a@) == ide_bit(b@) && !rtr_bit(a@)
                && rtr_bit(b@)
        },
        a@ == b@ <==> ident_field(a@) == ident_field(b@) && ide_bit(a@) == ide_bit(b@) && rtr_bit(
            a@,
        ) == rtr_bit(b@),
{
    lemma_sum_of_fields(a.0);
    lemma_sum_of_fields(b.0);
}

} // verus!
