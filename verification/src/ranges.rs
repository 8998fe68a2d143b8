//! Document spans and the validity rules for included-ranges sets.

use vstd::prelude::*;

use crate::position::Point;
use crate::position::column_of;
use crate::position::offset_to_point;
use crate::position::row_of;

verus! {

/// A contiguous span of the document, carried both as byte offsets and as
/// points so that tree coordinates stay aligned with the whole document.
#[derive(Clone, Copy, Debug, PartialEq, Eq, Structural)]
pub struct Range {
    pub start_byte: usize,
    pub end_byte: usize,
    pub start_point: Point,
    pub end_point: Point,
}

/// The engine addresses documents with 32-bit coordinates; a range must fit
/// them, and must not run backwards.
pub open spec fn range_wf(r: Range) -> bool {
    &&& r.start_byte <= r.end_byte
    &&& r.end_byte <= u32::MAX as usize
    &&& r.start_point.row <= u32::MAX as usize
    &&& r.start_point.column <= u32::MAX as usize
    &&& r.end_point.row <= u32::MAX as usize
    &&& r.end_point.column <= u32::MAX as usize
}

/// Each range fits the engine's coordinate space.
pub open spec fn ranges_fit(rs: Seq<Range>) -> bool {
    forall|i: int| 0 <= i < rs.len() ==> range_wf(rs[i])
}

/// The byte ordering the engine demands of an included-ranges set: every
/// range runs forward, and each starts no earlier than its predecessor
/// ends, so the set is ordered and free of overlaps.  The empty set stands
/// for the whole document and is always in order.
pub open spec fn ranges_ordered(rs: Seq<Range>) -> bool {
    &&& forall|i: int| 0 <= i < rs.len() ==> rs[i].start_byte <= rs[i].end_byte
    &&& forall|i: int| 0 < i < rs.len() ==> rs[i - 1].end_byte <= rs[i].start_byte
}

/// A set of spans the parser may restrict itself to: fits the engine's
/// coordinates and is ordered without overlaps.
pub open spec fn ranges_ok(rs: Seq<Range>) -> bool {
    ranges_fit(rs) && ranges_ordered(rs)
}

/// Decide whether `rs` is a valid included-ranges set.
pub fn check_ranges(rs: &Vec<Range>) -> (ok: bool)
    ensures
        ok <==> ranges_ok(rs@),
{
    let n = rs.len();
    let mut i: usize = 0;
    while i < n
        invariant
            i <= n,
            n == rs@.len(),
            forall|k: int| 0 <= k < i ==> range_wf(rs@[k]),
            forall|k: int| 0 < k < i ==> rs@[k - 1].end_byte <= rs@[k].start_byte,
        decreases n - i,
    {
        let r = rs[i];
        let limit = u32::MAX as usize;
        if r.start_byte > r.end_byte || r.end_byte > limit || r.start_point.row > limit
            || r.start_point.column > limit || r.end_point.row > limit || r.end_point.column
            > limit {
            assert(!range_wf(rs@[i as int]));
            return false;
        }
        if i > 0 && rs[i - 1].end_byte > r.start_byte {
            return false;
        }
        i = i + 1;
    }
    true
}

/// Package the span from `start` to `end` of `doc` as a range carrying both
/// position representations.
pub fn span_range(doc: &Vec<u8>, start: usize, end: usize) -> (r: Range)
    requires
        start <= end <= doc@.len(),
    ensures
        r.start_byte == start,
        r.end_byte == end,
        r.start_point.row == row_of(doc@, start as int),
        r.start_point.column == column_of(doc@, start as int),
        r.end_point.row == row_of(doc@, end as int),
        r.end_point.column == column_of(doc@, end as int),
{
    let start_point = offset_to_point(doc, start);
    let end_point = offset_to_point(doc, end);
    Range { start_byte: start, end_byte: end, start_point, end_point }
}

} // verus!
