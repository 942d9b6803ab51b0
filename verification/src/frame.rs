//! CAN frames and their priority.

use crate::data::Data;
use crate::id::Id;
use crate::id_reg::{
    compare, id_of, lemma_pack_unpack, lemma_unpack_pack, register_of, rtr_bit, with_rtr_bit,
    IdReg,
};
use std::cmp::Ordering;
use vstd::prelude::*;
use vstd::std_specs::cmp::{PartialEqSpecImpl, PartialOrdSpecImpl};

verus! {

/// What a frame is: a data frame with its payload, or a remote frame with
/// the length that it asks for.
pub enum FrameView {
    /// A frame with the identifier `id` that carries `payload`.
    DataFrame { id: Id, payload: Seq<u8> },
    /// A frame with the identifier `id` that requests `dlc` bytes and
    /// carries none.
    RemoteFrame { id: Id, dlc: nat },
}

impl FrameView {
    /// The identifier of the frame.
    pub open spec fn id(self) -> Id {
        match self {
            FrameView::DataFrame { id, .. } => id,
            FrameView::RemoteFrame { id, .. } => id,
        }
    }

    /// Whether the frame is a remote frame.
    pub open spec fn is_remote(self) -> bool {
        self is RemoteFrame
    }

    /// The data length code: the length of the payload of a data frame, the
    /// requested length of a remote frame.
    pub open spec fn dlc(self) -> nat {
        match self {
            FrameView::DataFrame { payload, .. } => payload.len(),
            FrameView::RemoteFrame { dlc, .. } => dlc,
        }
    }

    /// The payload, which only a data frame has.
    pub open spec fn payload(self) -> Option<Seq<u8>> {
        match self {
            FrameView::DataFrame { payload, .. } => Some(payload),
            FrameView::RemoteFrame { .. } => None,
        }
    }

    /// The identifier register of the frame: its identifier and format,
    /// with the RTR bit set for a remote frame.
    pub open spec fn register(self) -> nat {
        with_rtr_bit(register_of(self.id()), self.is_remote())
    }

    /// The identifier fits its format, a payload has at most eight bytes,
    /// and a remote frame asks for at most seven.
    pub open spec fn is_valid(self) -> bool {
        &&& self.id().is_valid()
        &&& match self {
            FrameView::DataFrame { payload, .. } => payload.len() <= 8,
            FrameView::RemoteFrame { dlc, .. } => dlc < 8,
        }
    }
}

/// A CAN data or remote frame.
#[derive(Debug)]
pub struct Frame {
    id: IdReg,
    data: Data,
}

impl View for Frame {
    type V = FrameView;

    /// The frame as a data frame with its payload or as a remote frame with
    /// its requested length, as the RTR bit of its register says.
    closed spec fn view(&self) -> FrameView {
        if rtr_bit(self.id@) {
            FrameView::RemoteFrame { id: id_of(self.id@), dlc: self.data@.len() }
        } else {
            FrameView::DataFrame { id: id_of(self.id@), payload: self.data@ }
        }
    }
}

impl Frame {
    /// The register and the payload are valid, and a remote frame holds
    /// fewer than eight bytes, all of them zero: nothing but its length.
    #[verifier::type_invariant]
    pub closed spec fn is_valid(self) -> bool {
        &&& self.id.is_valid()
        &&& self.data.is_valid()
        &&& rtr_bit(self.id@) ==> {
            &&& self.data@.len() < 8
            &&& self.data@ == Seq::new(self.data@.len(), |i: int| 0u8)
        }
    }

    /// Every frame is a valid data frame or a valid remote frame.
    pub proof fn lemma_view_valid(self)
        requires
            self.is_valid(),
        ensures
            self@.is_valid(),
    {
        lemma_unpack_pack(self.id);
        self.data.lemma_view_len();
    }

    /// Creates a new data frame.
    pub fn new_data(id: Id, data: Data) -> (frame: Frame)
        ensures
            frame@ == (FrameView::DataFrame { id, payload: data@ }),
            !frame@.is_remote(),
            frame@.dlc() == data@.len(),
            frame@.payload() == Some(data@),
    {
        let reg = match id {
            Id::Standard(id) => {
                proof {
                    use_type_invariant(&id);
                }
                IdReg::new_standard(id)
            },
            Id::Extended(id) => {
                proof {
                    use_type_invariant(&id);
                }
                IdReg::new_extended(id)
            },
        };
        proof {
            use_type_invariant(&data);
            lemma_pack_unpack(id, false);
        }
        Frame { id: reg, data }
    }

    /// Creates a new remote frame with configurable data length code (DLC).
    ///
    /// A remote frame advertises fewer than eight bytes: a `dlc` of 8 or
    /// more is rejected.
    pub fn new_remote(id: Id, dlc: u8) -> (result: Result<Frame, ()>)
        ensures
            dlc < 8 ==> (result matches Ok(frame) && {
                &&& frame@ == (FrameView::RemoteFrame { id, dlc: dlc as nat })
                &&& frame@.is_remote()
                &&& frame@.dlc() == dlc
                &&& frame@.payload() is None
            }),
            dlc >= 8 ==> result is Err,
    {
        if dlc >= 8 {
            return Err(());
        }
        // The frame keeps the length and nothing else: no accessor hands out
        // the bytes of a remote frame.
        let mut frame = Self::new_data(id, Data::zeroed(dlc));
        proof {
            use_type_invariant(&frame);
        }
        frame.id = frame.id.with_rtr(true);
        Ok(frame)
    }

    /// Returns true if this frame is an extended frame.
    pub fn is_extended(&self) -> (extended: bool)
        ensures
            extended == (self@.id() is Extended),
    {
        self.id.is_extended()
    }

    /// Returns true if this frame is a standard frame.
    pub fn is_standard(&self) -> (standard: bool)
        ensures
            standard == (self@.id() is Standard),
    {
        self.id.is_standard()
    }

    /// Returns true if this frame is a remote frame.
    pub fn is_remote_frame(&self) -> (remote: bool)
        ensures
            remote == self@.is_remote(),
    {
        self.id.rtr()
    }

    /// Returns true if this frame is a data frame.
    pub fn is_data_frame(&self) -> (data: bool)
        ensures
            data == !self@.is_remote(),
    {
        !self.is_remote_frame()
    }

    /// Returns the frame identifier.
    pub fn id(&self) -> (id: Id)
        ensures
            id == self@.id(),
    {
        self.id.to_id()
    }

    /// Returns the priority of this frame.
    pub fn priority(&self) -> (priority: FramePriority)
        ensures
            priority@ == self@.register(),
    {
        proof {
            use_type_invariant(self);
            lemma_unpack_pack(self.id);
        }
        FramePriority(self.id)
    }

    /// Returns the data length code (DLC), which is at most 8.
    ///
    /// For data frames the DLC value always matches the length of the data.
    /// Remote frames do not carry any data, yet the DLC can be greater than
    /// 0; it is always less than 8.
    pub fn dlc(&self) -> (dlc: usize)
        ensures
            dlc == self@.dlc(),
            dlc <= 8,
            self@.is_remote() ==> dlc < 8,
    {
        proof {
            use_type_invariant(self);
        }
        self.data.len()
    }

    /// Returns the frame data (0..8 bytes in length) if this is a data frame.
    ///
    /// If this is a remote frame, returns `None`.
    pub fn data(&self) -> (data: Option<&Data>)
        ensures
            match data {
                Some(d) => self@.payload() == Some(d@),
                None => self@.payload() is None,
            },
    {
        if self.is_data_frame() {
            Some(&self.data)
        } else {
            None
        }
    }
}

impl Clone for Frame {
    fn clone(&self) -> (frame: Frame)
        ensures
            frame == *self,
    {
        proof {
            use_type_invariant(self);
        }
        Frame { id: self.id, data: self.data }
    }
}

impl PartialEq for Frame {
    /// Two frames are equal when they are the same kind of frame with the
    /// same identifier and the same payload or requested length.
    fn eq(&self, other: &Self) -> (equal: bool) {
        proof {
            use_type_invariant(self);
            use_type_invariant(other);
            lemma_unpack_pack(self.id);
            lemma_unpack_pack(other.id);
            if self@ == other@ {
                IdReg::lemma_view_injective(self.id, other.id);
                assert(self.data@ =~= other.data@);
            }
        }
        self.id == other.id && self.data == other.data
    }
}

impl PartialEqSpecImpl for Frame {
    open spec fn obeys_eq_spec() -> bool {
        true
    }

    open spec fn eq_spec(&self, other: &Self) -> bool {
        self@ == other@
    }
}

impl Eq for Frame {}

/// Priority of a CAN frame.
///
/// The priority of a frame is determined by the bits of its arbitration
/// field: the identifier, the IDE bit and the RTR bit. This type wraps the
/// identifier register of a frame and orders as the register does: the
/// smaller value wins arbitration.
#[derive(Debug, Copy, Clone, Ord)]
pub struct FramePriority(IdReg);

impl View for FramePriority {
    type V = nat;

    /// The identifier register as a number.
    closed spec fn view(&self) -> nat {
        self.0@
    }
}

impl FramePriority {
    /// Compares two priorities as their registers compare.
    pub fn cmp(&self, other: &FramePriority) -> (order: Ordering)
        ensures
            order == compare(self@, other@),
    {
        self.0.cmp(&other.0)
    }
}

impl PartialOrd for FramePriority {
    fn partial_cmp(&self, other: &Self) -> (order: Option<Ordering>) {
        Some(self.cmp(other))
    }
}

impl PartialOrdSpecImpl for FramePriority {
    open spec fn obeys_partial_cmp_spec() -> bool {
        true
    }

    open spec fn partial_cmp_spec(&self, other: &Self) -> Option<Ordering> {
        Some(compare(self@, other@))
    }
}

impl PartialEq for FramePriority {
    fn eq(&self, other: &Self) -> (equal: bool) {
        match self.cmp(other) {
            Ordering::Equal => true,
            _ => false,
        }
    }
}

impl PartialEqSpecImpl for FramePriority {
    open spec fn obeys_eq_spec() -> bool {
        true
    }

    open spec fn eq_spec(&self, other: &Self) -> bool {
        self@ == other@
    }
}

impl Eq for FramePriority {}

} // verus!
