use vstd::prelude::*;

use crate::errors::ParseError;

verus! {

/// A bounds-checked read accessor over one packet's raw bytes, borrowed for
/// the duration of one invocation. The view `@` is the byte sequence between
/// the captured start and end boundaries.
///
/// Every multi-byte field read goes through `slice`, the single checked
/// primitive: no byte is dereferenced before its bounds are established.
pub struct PacketView<'a> {
    bytes: &'a [u8],
}

impl<'a> View for PacketView<'a> {
    type V = Seq<u8>;

    closed spec fn view(&self) -> Seq<u8> {
        self.bytes@
    }
}

impl<'a> PacketView<'a> {
    /// Captures the buffer's boundaries for one invocation.
    pub fn new(bytes: &'a [u8]) -> (pkt: Self)
        ensures
            pkt@ == bytes@,
    {
        PacketView { bytes }
    }

    /// How many bytes the captured buffer holds.
    pub fn len(&self) -> (n: usize)
        ensures
            n == self@.len(),
    {
        self.bytes.len()
    }

    /// The `length` bytes starting at `offset`, or `OutOfBounds` whenever
    /// `offset + length` exceeds the buffer's end boundary. No side effects;
    /// nothing is read speculatively.
    pub fn slice(&self, offset: usize, length: usize) -> (r: Result<&'a [u8], ParseError>)
        ensures
            r is Ok <==> offset + length <= self@.len(),
            r matches Ok(s) ==> s@ == self@.subrange(offset as int, offset + length),
            r matches Err(e) ==> e is OutOfBounds,
    {
        if offset <= self.bytes.len() && length <= self.bytes.len() - offset {
            Ok(&self.bytes[offset..offset + length])
        } else {
            Err(ParseError::OutOfBounds)
        }
    }
}

} // verus!
