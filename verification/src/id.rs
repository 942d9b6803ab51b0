//! Logical CAN identifiers.
//!
//! A standard identifier has 11 bits, an extended identifier 29. Both types
//! check their width when they are made, so every value that reaches the rest
//! of the crate fits its format.

use vstd::prelude::*;

verus! {

/// Largest value of an 11-bit standard identifier.
pub const STANDARD_ID_MAX: u16 = 0x7FF;

/// Largest value of a 29-bit extended identifier.
pub const EXTENDED_ID_MAX: u32 = 0x1FFF_FFFF;

/// Number of identifier bits that only the extended format has.
pub const EXTENSION_BITS: u32 = 18;

/// An 11-bit identifier of the standard frame format.
#[derive(Clone, Copy, Debug, PartialEq, Eq, Structural)]
pub struct StandardId(u16);

impl View for StandardId {
    type V = nat;

    /// The identifier as a number.
    closed spec fn view(&self) -> nat {
        self.0 as nat
    }
}

impl StandardId {
    /// The identifier fits in 11 bits.
    #[verifier::type_invariant]
    pub open spec fn is_valid(self) -> bool {
        self@ <= STANDARD_ID_MAX
    }

    /// Makes a standard identifier from `raw`, or `None` if `raw` needs more
    /// than 11 bits.
    pub fn new(raw: u16) -> (id: Option<StandardId>)
        ensures
            raw <= STANDARD_ID_MAX ==> id == Some(StandardId::with_raw(raw as nat)),
            raw <= STANDARD_ID_MAX ==> id.unwrap()@ == raw,
            raw > STANDARD_ID_MAX ==> id is None,
    {
        if raw <= STANDARD_ID_MAX {
            Some(StandardId(raw))
        } else {
            None
        }
    }

    /// Makes a standard identifier from a value that is known to fit.
    pub(crate) fn new_unchecked(raw: u16) -> (id: StandardId)
        requires
            raw <= STANDARD_ID_MAX,
        ensures
            id == StandardId::with_raw(raw as nat),
            id@ == raw,
    {
        StandardId(raw)
    }

    /// The identifier as an integer.
    pub fn as_raw(&self) -> (raw: u16)
        ensures
            raw == self@,
            raw <= STANDARD_ID_MAX,
    {
        proof {
            use_type_invariant(self);
        }
        self.0
    }

    /// The standard identifier whose number is `raw`.
    pub closed spec fn with_raw(raw: nat) -> StandardId {
        StandardId(raw as u16)
    }

    /// `with_raw` of an 11-bit number is valid and has that number.
    pub proof fn lemma_with_raw(raw: nat)
        requires
            raw <= STANDARD_ID_MAX,
        ensures
            StandardId::with_raw(raw)@ == raw,
            StandardId::with_raw(raw).is_valid(),
    {
    }

    /// A valid standard identifier is the one that `with_raw` makes from
    /// its number: the number determines the value.
    pub proof fn lemma_from_view(id: StandardId)
        requires
            id.is_valid(),
        ensures
            StandardId::with_raw(id@) == id,
    {
    }
}

/// A 29-bit identifier of the extended frame format.
#[derive(Clone, Copy, Debug, PartialEq, Eq, Structural)]
pub struct ExtendedId(u32);

impl View for ExtendedId {
    type V = nat;

    /// The identifier as a number.
    closed spec fn view(&self) -> nat {
        self.0 as nat
    }
}

impl ExtendedId {
    /// The identifier fits in 29 bits.
    #[verifier::type_invariant]
    pub open spec fn is_valid(self) -> bool {
        self@ <= EXTENDED_ID_MAX
    }

    /// Makes an extended identifier from `raw`, or `None` if `raw` needs more
    /// than 29 bits.
    pub fn new(raw: u32) -> (id: Option<ExtendedId>)
        ensures
            raw <= EXTENDED_ID_MAX ==> id == Some(ExtendedId::with_raw(raw as nat)),
            raw <= EXTENDED_ID_MAX ==> id.unwrap()@ == raw,
            raw > EXTENDED_ID_MAX ==> id is None,
    {
        if raw <= EXTENDED_ID_MAX {
            Some(ExtendedId(raw))
        } else {
            None
        }
    }

    /// Makes an extended identifier from a value that is known to fit.
    pub(crate) fn new_unchecked(raw: u32) -> (id: ExtendedId)
        requires
            raw <= EXTENDED_ID_MAX,
        ensures
            id == ExtendedId::with_raw(raw as nat),
            id@ == raw,
    {
        ExtendedId(raw)
    }

    /// The identifier as an integer.
    pub fn as_raw(&self) -> (raw: u32)
        ensures
            raw == self@,
            raw <= EXTENDED_ID_MAX,
    {
        proof {
            use_type_invariant(self);
        }
        self.0
    }

    /// The base identifier: the 11 most significant bits, which arbitrate
    /// against standard frames.
    pub fn standard_id(&self) -> (base: StandardId)
        ensures
            base == StandardId::with_raw(base_of(self@)),
            base@ == base_of(self@),
    {
        proof {
            use_type_invariant(self);
        }
        let raw: u32 = self.0;
        let top: u32 = raw >> EXTENSION_BITS;
        assert(top == raw / 0x4_0000 && top <= 0x7FF) by (bit_vector)
            requires
                top == raw >> 18u32,
                raw <= 0x1FFF_FFFFu32,
        ;
        StandardId::new_unchecked(top as u16)
    }

    /// The extended identifier whose number is `raw`.
    pub closed spec fn with_raw(raw: nat) -> ExtendedId {
        ExtendedId(raw as u32)
    }

    /// `with_raw` of a 29-bit number is valid and has that number.
    pub proof fn lemma_with_raw(raw: nat)
        requires
            raw <= EXTENDED_ID_MAX,
        ensures
            ExtendedId::with_raw(raw)@ == raw,
            ExtendedId::with_raw(raw).is_valid(),
    {
    }

    /// A valid extended identifier is the one that `with_raw` makes from
    /// its number: the number determines the value.
    pub proof fn lemma_from_view(id: ExtendedId)
        requires
            id.is_valid(),
        ensures
            ExtendedId::with_raw(id@) == id,
    {
    }
}

/// The 11 most significant bits of a 29-bit identifier.
pub open spec fn base_of(extended: nat) -> nat {
    extended / 0x4_0000
}

/// A CAN identifier of either format.
#[derive(Clone, Copy, Debug, PartialEq, Eq, Structural)]
pub enum Id {
    /// An 11-bit identifier.
    Standard(StandardId),
    /// A 29-bit identifier.
    Extended(ExtendedId),
}

impl Id {
    /// The identifier fits its format.
    pub open spec fn is_valid(self) -> bool {
        match self {
            Id::Standard(s) => s.is_valid(),
            Id::Extended(e) => e.is_valid(),
        }
    }

    /// The identifier as a number, whatever its format.
    pub open spec fn raw(self) -> nat {
        match self {
            Id::Standard(s) => s@,
            Id::Extended(e) => e@,
        }
    }
}

} // verus!
