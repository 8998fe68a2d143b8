//! Error taxonomy of the parse-coordination layer.

use vstd::prelude::*;

verus! {

/// An error raised by a chunk source while it produced a fragment.  Its
/// content is carried through the parse verbatim and handed back to the
/// caller once control has returned to a context where error propagation is
/// safe.
#[derive(Debug, PartialEq, Eq)]
pub struct ChunkError {
    pub message: String,
}

impl Clone for ChunkError {
    fn clone(&self) -> (r: Self)
        ensures
            r == *self,
    {
        ChunkError { message: self.message.clone() }
    }
}

/// Every failure of the coordination layer, each kind distinguishable by the
/// caller.
#[derive(Debug, PartialEq, Eq)]
pub enum Error {
    /// A language whose compiled grammar carries an ABI version the engine
    /// does not support was attached; the payload is that version.  The
    /// parser configuration is left untouched.
    AbiMismatch(usize),
    /// The included-ranges set is malformed: a range runs backwards, exceeds
    /// the engine's coordinate space, or overlaps its predecessor.  The
    /// previous configuration stays active.
    InvalidRanges,
    /// Exclusive access to a tree handle was requested while another access
    /// is outstanding.  The caller may retry after the conflicting access is
    /// released.
    BorrowConflict,
    /// The chunk source failed while producing a fragment; the originating
    /// error is preserved and returned instead of any tree the engine built.
    InputSource(ChunkError),
    /// The engine abandoned the parse without a tree: no language was
    /// attached, or its best-effort timeout or cancellation tripped.
    EngineAborted,
}

impl Error {
    /// A short human-readable description of the error kind.
    pub fn describe(&self) -> (s: &'static str)
        ensures
            s@.len() > 0,
    {
        let s = match self {
            Error::AbiMismatch(_) => "incompatible grammar ABI version",
            Error::InvalidRanges => "included ranges are malformed or overlap",
            Error::BorrowConflict => "tree handle is already in use",
            Error::InputSource(_) => "chunk source failed while producing a fragment",
            Error::EngineAborted => "engine abandoned the parse without a tree",
        };
        proof {
            reveal_strlit("incompatible grammar ABI version");
            reveal_strlit("included ranges are malformed or overlap");
            reveal_strlit("tree handle is already in use");
            reveal_strlit("chunk source failed while producing a fragment");
            reveal_strlit("engine abandoned the parse without a tree");
        }
        s
    }
}

} // verus!
