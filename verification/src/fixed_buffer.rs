//! A byte buffer of fixed capacity that lives on the stack.
use vstd::prelude::*;

verus! {

/// Similar to a vector but with a fixed, constant capacity. The length is
/// kept in one byte, so a capacity above 255 leaves no room to append.
///
/// The first `len` bytes of `value` are the content; the rest is zero, so
/// that two buffers compare equal exactly when their contents do.
#[derive(Debug, Clone, Copy, PartialEq, Eq, Hash)]
#[must_use]
pub struct FixedBuffer<const CAPACITY: usize> {
    value: [u8; CAPACITY],
    len: u8,
}

impl<const CAPACITY: usize> View for FixedBuffer<CAPACITY> {
    type V = Seq<u8>;

    /// The content of the buffer.
    closed spec fn view(&self) -> Seq<u8> {
        self.value@.take(self.len as int)
    }
}

impl<const CAPACITY: usize> FixedBuffer<CAPACITY> {
    #[verifier::type_invariant]
    spec fn well_formed(self) -> bool {
        &&& self.len <= CAPACITY
        &&& forall|i: int| self.len <= i < CAPACITY ==> self.value@[i] == 0
    }

    /// Creates an empty buffer.
    pub fn new() -> (buffer: Self)
        ensures
            buffer@ == Seq::<u8>::empty(),
    {
        Self { value: [0; CAPACITY], len: 0 }
    }

    /// Creates a buffer that holds the `N` bytes of `array`.
    pub fn from_array<const N: usize>(array: [u8; N]) -> (buffer: Self)
        requires
            N <= CAPACITY <= u8::MAX,
        ensures
            buffer@ == array@,
    {
        let mut buffer = Self::new();
        buffer.push_array(array);
        buffer
    }

    /// Appends the `N` bytes of `array`, for which there has to be room.
    pub fn push_array<const N: usize>(&mut self, array: [u8; N])
        requires
            old(self)@.len() + N <= CAPACITY <= u8::MAX,
        ensures
            final(self)@ == old(self)@ + array@,
    {
        self.push_slice(array.as_slice());
    }

    /// Appends the bytes of `slice`, for which there has to be room.
    pub fn push_slice(&mut self, slice: &[u8])
        requires
            old(self)@.len() + slice@.len() <= CAPACITY <= u8::MAX,
        ensures
            final(self)@ == old(self)@ + slice@,
    {
        proof {
            use_type_invariant(&*self);
        }
        let start: usize = self.len as usize;
        let count: usize = slice.len();
        let mut value = self.value;
        let mut idx: usize = 0;
        while idx < count
            invariant
                idx <= count,
                count == slice@.len(),
                start + count <= CAPACITY <= u8::MAX,
                forall|i: int| 0 <= i < start ==> value@[i] == self.value@[i],
                forall|i: int| 0 <= i < idx ==> value@[start + i] == slice@[i],
                forall|i: int| start + idx <= i < CAPACITY ==> value@[i] == 0,
            decreases count - idx,
        {
            value[start + idx] = slice[idx];
            idx += 1;
        }
        let ghost before = self@;
        *self = Self { value, len: (start + count) as u8 };
        assert(self@ =~= before + slice@);
    }

    /// The content of the buffer.
    #[must_use]
    pub fn as_slice(&self) -> (slice: &[u8])
        ensures
            slice@ == self@,
            slice@.len() <= CAPACITY,
    {
        proof {
            use_type_invariant(self);
        }
        vstd::slice::slice_subrange(self.value.as_slice(), 0, self.len as usize)
    }
}

impl<const CAPACITY: usize> Default for FixedBuffer<CAPACITY> {
    /// An empty buffer.
    fn default() -> (buffer: Self)
        ensures
            buffer@ == Seq::<u8>::empty(),
    {
        Self::new()
    }
}

} // verus!
