//! The payload of a CAN frame: zero to eight bytes in a fixed buffer.

use std::ops::{Deref, DerefMut};
use vstd::prelude::*;
use vstd::slice::slice_subrange;
use vstd::std_specs::cmp::PartialEqSpecImpl;
use vstd::std_specs::convert::FromSpecImpl;

verus! {

/// Largest number of bytes that a frame carries.
pub const MAX_LEN: usize = 8;

/// Payload of a CAN data frame.
///
/// Contains 0 to 8 bytes of data. The buffer always has eight bytes; only
/// the first `len` of them are the payload. Every accessor is bounded by
/// `len`, and the view of a `Data` is exactly those bytes.
///
/// `Data` implements `From<[u8; N]>` for all `N` up to 8, which provides a
/// lossless conversion from fixed-length arrays.
#[derive(Debug, Copy, Clone)]
pub struct Data {
    len: u8,
    bytes: [u8; 8],
}

impl View for Data {
    type V = Seq<u8>;

    /// The payload: the first `len` bytes of the buffer.
    closed spec fn view(&self) -> Seq<u8> {
        self.bytes@.subrange(0, self.len as int)
    }
}

impl Data {
    /// The length fits the buffer.
    #[verifier::type_invariant]
    pub closed spec fn is_valid(self) -> bool {
        self.len <= 8
    }

    /// The byte of `bytes` at `i`, or zero behind its end.
    spec fn byte_or_zero(bytes: Seq<u8>, i: int) -> u8 {
        if 0 <= i < bytes.len() {
            bytes[i]
        } else {
            0u8
        }
    }

    /// The payload that holds exactly `bytes`, with zeros in the rest of the
    /// buffer. It is what every constructor returns.
    pub closed spec fn holding(bytes: Seq<u8>) -> Data {
        Data {
            len: bytes.len() as u8,
            bytes: [
                Self::byte_or_zero(bytes, 0),
                Self::byte_or_zero(bytes, 1),
                Self::byte_or_zero(bytes, 2),
                Self::byte_or_zero(bytes, 3),
                Self::byte_or_zero(bytes, 4),
                Self::byte_or_zero(bytes, 5),
                Self::byte_or_zero(bytes, 6),
                Self::byte_or_zero(bytes, 7),
            ],
        }
    }

    /// A sequence of at most eight bytes is the view of the payload that
    /// holds it.
    pub proof fn lemma_holding_view(bytes: Seq<u8>)
        requires
            bytes.len() <= MAX_LEN,
        ensures
            Data::holding(bytes)@ == bytes,
            Data::holding(bytes).is_valid(),
    {
        assert(Data::holding(bytes)@ =~= bytes);
    }

    /// The view of a valid payload has at most eight bytes.
    pub proof fn lemma_view_len(self)
        requires
            self.is_valid(),
        ensures
            self@.len() <= MAX_LEN,
    {
    }

    /// Copies at most eight bytes into a fresh buffer.
    fn copy_of(data: &[u8]) -> (payload: Data)
        requires
            data@.len() <= MAX_LEN,
        ensures
            payload == Data::holding(data@),
            payload@ == data@,
    {
        let mut bytes: [u8; 8] = [0;8];
        let mut i: usize = 0;
        while i < data.len()
            invariant
                i <= data@.len() <= 8,
                forall|j: int| 0 <= j < i ==> bytes@[j] == data@[j],
                forall|j: int| i <= j < 8 ==> bytes@[j] == 0u8,
            decreases data@.len() - i,
        {
            bytes[i] = data[i];
            i += 1;
        }
        let payload = Data { len: data.len() as u8, bytes };
        proof {
            Data::lemma_holding_view(data@);
            assert(payload.bytes =~= Data::holding(data@).bytes);
            assert(payload@ =~= data@);
        }
        payload
    }

    /// Creates a data payload from a raw byte slice.
    ///
    /// Returns `None` if `data` contains more than 8 bytes (which is the
    /// maximum). Nothing is truncated.
    ///
    /// `Data` can also be constructed from fixed-length arrays up to length
    /// 8 via `From`/`Into`.
    pub fn new(data: &[u8]) -> (payload: Option<Data>)
        ensures
            data@.len() <= MAX_LEN ==> payload == Some(Data::holding(data@)),
            data@.len() <= MAX_LEN ==> payload.unwrap()@ == data@,
            data@.len() > MAX_LEN ==> payload is None,
    {
        if data.len() > MAX_LEN {
            return None;
        }
        Some(Data::copy_of(data))
    }

    /// Creates an empty data payload containing 0 bytes.
    pub fn empty() -> (payload: Data)
        ensures
            payload == Data::holding(Seq::<u8>::empty()),
            payload@ == Seq::<u8>::empty(),
    {
        let payload = Data { len: 0, bytes: [0;8] };
        proof {
            Data::lemma_holding_view(Seq::<u8>::empty());
            assert(payload.bytes =~= Data::holding(Seq::<u8>::empty()).bytes);
        }
        payload
    }

    /// A payload of `len` zero bytes. A remote frame keeps the length that it
    /// advertises in such a value, without any content.
    pub(crate) fn zeroed(len: u8) -> (payload: Data)
        requires
            len <= MAX_LEN,
        ensures
            payload@ == Seq::new(len as nat, |i: int| 0u8),
    {
        let payload = Data { len, bytes: [0;8] };
        assert(payload@ =~= Seq::new(len as nat, |i: int| 0u8));
        payload
    }

    /// Returns the number of bytes in the data payload.
    pub fn len(&self) -> (n: usize)
        ensures
            n == self@.len(),
            n <= MAX_LEN,
    {
        proof {
            use_type_invariant(self);
        }
        self.len as usize
    }

    /// Returns `true` when this `Data` is empty.
    pub fn is_empty(&self) -> (empty: bool)
        ensures
            empty == (self@.len() == 0),
    {
        proof {
            use_type_invariant(self);
        }
        self.len == 0
    }
}

impl Deref for Data {
    type Target = [u8];

    /// The payload as a slice, bounded by its length.
    fn deref(&self) -> (bytes: &[u8])
        ensures
            bytes@ == self@,
    {
        proof {
            use_type_invariant(self);
        }
        slice_subrange(&self.bytes, 0, self.len as usize)
    }
}

impl DerefMut for Data {
    /// The payload as a mutable slice, bounded by its length. Writing
    /// through it changes the payload and nothing else: the length stays,
    /// and no byte behind the payload can be reached.
    fn deref_mut(&mut self) -> (bytes: &mut [u8])
        ensures
            bytes@ == old(self)@,
            final(bytes)@.len() == old(self)@.len(),
            final(self)@ == final(bytes)@,
    {
        proof {
            use_type_invariant(&*self);
        }
        let len: usize = self.len as usize;
        let (head, tail) = self.bytes.split_at_mut(len);
        proof {
            // The buffer keeps its eight bytes and the tail is not written,
            // so the head keeps its length whatever is written through it.
            assert(final(self).bytes@ == final(head)@ + final(tail)@);
            assert(final(self).bytes@.len() == 8);
            assert(final(tail)@ == tail@);
            assert(final(self)@ =~= final(head)@);
        }
        head
    }
}

impl AsRef<[u8]> for Data {
    fn as_ref(&self) -> (bytes: &[u8])
        ensures
            bytes@ == self@,
    {
        self.deref()
    }
}

impl AsMut<[u8]> for Data {
    fn as_mut(&mut self) -> (bytes: &mut [u8])
        ensures
            bytes@ == old(self)@,
            final(bytes)@.len() == old(self)@.len(),
            final(self)@ == final(bytes)@,
    {
        self.deref_mut()
    }
}

impl PartialEq for Data {
    /// Two payloads are equal when they hold the same bytes in the same
    /// order, whatever lies behind them in the buffers.
    fn eq(&self, other: &Self) -> (equal: bool) {
        let a = self.deref();
        let b = other.deref();
        if a.len() != b.len() {
            return false;
        }
        let mut i: usize = 0;
        while i < a.len()
            invariant
                i <= a@.len(),
                a@ == self@,
                b@ == other@,
                a@.len() == b@.len(),
                forall|j: int| 0 <= j < i ==> a@[j] == b@[j],
            decreases a@.len() - i,
        {
            if a[i] != b[i] {
                assert(a@[i as int] != b@[i as int]);
                return false;
            }
            i += 1;
        }
        assert(a@ =~= b@);
        true
    }
}

impl PartialEqSpecImpl for Data {
    open spec fn obeys_eq_spec() -> bool {
        true
    }

    open spec fn eq_spec(&self, other: &Self) -> bool {
        self@ == other@
    }
}

impl Eq for Data {}

impl From<[u8; 0]> for Data {
    fn from(arr: [u8; 0]) -> (payload: Data)
        ensures
            payload@ == arr@,
            payload@.len() == 0,
    {
        Data::copy_of(&arr)
    }
}

impl FromSpecImpl<[u8; 0]> for Data {
    open spec fn obeys_from_spec() -> bool {
        true
    }

    open spec fn from_spec(arr: [u8; 0]) -> Data {
        Data::holding(arr@)
    }
}

impl From<[u8; 1]> for Data {
    fn from(arr: [u8; 1]) -> (payload: Data)
        ensures
            payload@ == arr@,
            payload@.len() == 1,
    {
        Data::copy_of(&arr)
    }
}

impl FromSpecImpl<[u8; 1]> for Data {
    open spec fn obeys_from_spec() -> bool {
        true
    }

    open spec fn from_spec(arr: [u8; 1]) -> Data {
        Data::holding(arr@)
    }
}

impl From<[u8; 2]> for Data {
    fn from(arr: [u8; 2]) -> (payload: Data)
        ensures
            payload@ == arr@,
            payload@.len() == 2,
    {
        Data::copy_of(&arr)
    }
}

impl FromSpecImpl<[u8; 2]> for Data {
    open spec fn obeys_from_spec() -> bool {
        true
    }

    open spec fn from_spec(arr: [u8; 2]) -> Data {
        Data::holding(arr@)
    }
}

impl From<[u8; 3]> for Data {
    fn from(arr: [u8; 3]) -> (payload: Data)
        ensures
            payload@ == arr@,
            payload@.len() == 3,
    {
        Data::copy_of(&arr)
    }
}

impl FromSpecImpl<[u8; 3]> for Data {
    open spec fn obeys_from_spec() -> bool {
        true
    }

    open spec fn from_spec(arr: [u8; 3]) -> Data {
        Data::holding(arr@)
    }
}

impl From<[u8; 4]> for Data {
    fn from(arr: [u8; 4]) -> (payload: Data)
        ensures
            payload@ == arr@,
            payload@.len() == 4,
    {
        Data::copy_of(&arr)
    }
}

impl FromSpecImpl<[u8; 4]> for Data {
    open spec fn obeys_from_spec() -> bool {
        true
    }

    open spec fn from_spec(arr: [u8; 4]) -> Data {
        Data::holding(arr@)
    }
}

impl From<[u8; 5]> for Data {
    fn from(arr: [u8; 5]) -> (payload: Data)
        ensures
            payload@ == arr@,
            payload@.len() == 5,
    {
        Data::copy_of(&arr)
    }
}

impl FromSpecImpl<[u8; 5]> for Data {
    open spec fn obeys_from_spec() -> bool {
        true
    }

    open spec fn from_spec(arr: [u8; 5]) -> Data {
        Data::holding(arr@)
    }
}

impl From<[u8; 6]> for Data {
    fn from(arr: [u8; 6]) -> (payload: Data)
        ensures
            payload@ == arr@,
            payload@.len() == 6,
    {
        Data::copy_of(&arr)
    }
}

impl FromSpecImpl<[u8; 6]> for Data {
    open spec fn obeys_from_spec() -> bool {
        true
    }

    open spec fn from_spec(arr: [u8; 6]) -> Data {
        Data::holding(arr@)
    }
}

impl From<[u8; 7]> for Data {
    fn from(arr: [u8; 7]) -> (payload: Data)
        ensures
            payload@ == arr@,
            payload@.len() == 7,
    {
        Data::copy_of(&arr)
    }
}

impl FromSpecImpl<[u8; 7]> for Data {
    open spec fn obeys_from_spec() -> bool {
        true
    }

    open spec fn from_spec(arr: [u8; 7]) -> Data {
        Data::holding(arr@)
    }
}

impl From<[u8; 8]> for Data {
    fn from(arr: [u8; 8]) -> (payload: Data)
        ensures
            payload@ == arr@,
            payload@.len() == 8,
    {
        Data::copy_of(&arr)
    }
}

impl FromSpecImpl<[u8; 8]> for Data {
    open spec fn obeys_from_spec() -> bool {
        true
    }

    open spec fn from_spec(arr: [u8; 8]) -> Data {
        Data::holding(arr@)
    }
}

} // verus!
