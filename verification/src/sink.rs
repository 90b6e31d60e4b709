//! Where the bytes of an entry go.

use vstd::prelude::*;

verus! {

/// Where an entry's bytes go as the unpacking library produces them.
///
/// The library pushes an entry in chunks rather than handing over a reader that
/// the caller drives, so this is the only seam at which a caller can see the
/// bytes, and the only one at which it can decline the rest of them.
///
/// Returning `false` aborts the read. That matters for a caller that has to
/// bound what it holds: without it, the only way to stop an entry that turns out
/// to be larger than the caller can accept is to let the whole thing arrive
/// first, which is not a bound.
pub trait DataSink: Sized {
    /// What the sink makes of a chunk: that `before` can become `after` when
    /// `chunk` is written to it, with the given answer. A sink that does not say
    /// promises nothing.
    open spec fn took(before: Self, chunk: Seq<u8>, after: Self, accepted: bool) -> bool {
        true
    }

    /// Takes one chunk. Returns `false` to abort the read.
    fn write_chunk(&mut self, chunk: &[u8]) -> (accepted: bool)
        ensures
            Self::took(*old(self), chunk@, *final(self), accepted),
    ;
}

/// Accumulates the whole entry and never declines.
impl DataSink for Vec<u8> {
    open spec fn took(before: Vec<u8>, chunk: Seq<u8>, after: Vec<u8>, accepted: bool) -> bool {
        accepted && after@ == before@ + chunk
    }

    fn write_chunk(&mut self, chunk: &[u8]) -> (accepted: bool) {
        self.extend_from_slice(chunk);
        assert(self@ =~= old(self)@ + chunk@);
        true
    }
}

} // verus!
