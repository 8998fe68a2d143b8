//! The position model: bidirectional conversion between an absolute byte
//! offset into a document and a (line, byte-column) pair.
//!
//! Internally both coordinates are 0-based; the host boundary presents byte
//! positions 1-based and lines 1-based, which the accessors provide.  The
//! byte column counts raw bytes on the current line, never glyphs, so it
//! diverges from a display column in multi-byte encoded text.  No component
//! validates offsets against a document other than the one it is handed:
//! callers must take both from the same document state.

use vstd::prelude::*;

verus! {

/// The byte that ends a line.
pub const LINE_FEED: u8 = 10;

/// How many line feeds lie strictly before `off` in `doc`; equivalently the
/// 0-based row of the position `off`.
pub open spec fn newlines_before(doc: Seq<u8>, off: int) -> int
    decreases off,
{
    if off <= 0 {
        0
    } else {
        newlines_before(doc, off - 1) + if doc[off - 1] == LINE_FEED {
            1int
        } else {
            0int
        }
    }
}

/// The offset at which the line containing position `off` begins.
pub open spec fn line_start_at(doc: Seq<u8>, off: int) -> int
    decreases off,
{
    if off <= 0 {
        0
    } else if doc[off - 1] == LINE_FEED {
        off
    } else {
        line_start_at(doc, off - 1)
    }
}

/// The 0-based row of byte offset `off` in `doc`.
pub open spec fn row_of(doc: Seq<u8>, off: int) -> int {
    newlines_before(doc, off)
}

/// The 0-based byte column of byte offset `off` in `doc`.
pub open spec fn column_of(doc: Seq<u8>, off: int) -> int {
    off - line_start_at(doc, off)
}

/// An absolute byte offset into the document, 0-based internally.  The host
/// boundary presents it 1-based through `host_value`.
#[derive(Clone, Copy, Debug, PartialEq, Eq, Structural)]
pub struct BytePos {
    pub offset: usize,
}

impl BytePos {
    /// The 0-based offset wrapped as a position.
    pub fn new(offset: usize) -> (p: BytePos)
        ensures
            p.offset == offset,
    {
        BytePos { offset }
    }

    /// The host-facing 1-based value of this position.
    pub fn host_value(&self) -> (v: usize)
        requires
            self.offset < usize::MAX,
        ensures
            v == self.offset + 1,
    {
        self.offset + 1
    }

    /// The position denoted by a host-facing 1-based value.
    pub fn from_host(v: usize) -> (p: BytePos)
        requires
            v >= 1,
        ensures
            p.offset == v - 1,
    {
        BytePos { offset: v - 1 }
    }
}

/// A two-dimensional text position: 0-based row and 0-based byte column.
/// The host boundary counts lines from 1, which `line_number` provides.
#[derive(Clone, Copy, Debug, PartialEq, Eq, Structural)]
pub struct Point {
    pub row: usize,
    pub column: usize,
}

impl Point {
    /// The host-facing 1-based line number of this point.
    pub fn line_number(&self) -> (n: usize)
        requires
            self.row < usize::MAX,
        ensures
            n == self.row + 1,
    {
        self.row + 1
    }

    /// The 0-based byte column of this point.
    pub fn byte_column(&self) -> (c: usize)
        ensures
            c == self.column,
    {
        self.column
    }

    /// The point on a host-facing 1-based line at a 0-based byte column.
    pub fn from_line_column(line: usize, column: usize) -> (p: Point)
        requires
            line >= 1,
        ensures
            p.row == line - 1,
            p.column == column,
    {
        Point { row: line - 1, column }
    }
}

/// Whether some byte offset of `doc` lies at point `p`.
pub open spec fn valid_point(doc: Seq<u8>, p: Point) -> bool {
    exists|off: int|
        0 <= off <= doc.len() && row_of(doc, off) == p.row && column_of(doc, off) == p.column
}

/// Newline counts never decrease along the document.
proof fn lemma_newlines_monotone(doc: Seq<u8>, a: int, b: int)
    requires
        a <= b,
    ensures
        newlines_before(doc, a) <= newlines_before(doc, b),
    decreases b - a,
{
    if a < b {
        lemma_newlines_monotone(doc, a, b - 1);
    }
}

/// Between two offsets of the same row there is no line feed, so both lie on
/// the same line start.
proof fn lemma_same_row_same_line_start(doc: Seq<u8>, a: int, b: int)
    requires
        0 <= a <= b,
        newlines_before(doc, a) == newlines_before(doc, b),
    ensures
        line_start_at(doc, a) == line_start_at(doc, b),
    decreases b - a,
{
    if a < b {
        lemma_newlines_monotone(doc, a, b - 1);
        assert(newlines_before(doc, b) == newlines_before(doc, b - 1) + if doc[b - 1]
            == LINE_FEED {
            1int
        } else {
            0int
        });
        assert(doc[b - 1] != LINE_FEED);
        lemma_same_row_same_line_start(doc, a, b - 1);
    }
}

/// The conversion from offsets to points loses nothing: two offsets with the
/// same row and byte column are the same offset.  Together with the exact
/// contracts of `offset_to_point` and `point_to_offset` this is the
/// round-trip law for every valid byte offset of a document.
pub proof fn lemma_position_round_trip(doc: Seq<u8>, a: int, b: int)
    requires
        0 <= a <= doc.len(),
        0 <= b <= doc.len(),
        row_of(doc, a) == row_of(doc, b),
        column_of(doc, a) == column_of(doc, b),
    ensures
        a == b,
{
    if a < b {
        lemma_same_row_same_line_start(doc, a, b);
    }
    if b < a {
        lemma_same_row_same_line_start(doc, b, a);
    }
}

/// There are no more line feeds before an offset than bytes.
proof fn lemma_newlines_bounded(doc: Seq<u8>, off: int)
    requires
        0 <= off,
    ensures
        0 <= newlines_before(doc, off) <= off,
    decreases off,
{
    if off > 0 {
        lemma_newlines_bounded(doc, off - 1);
    }
}

/// Every offset within the document bounds lies at its own point, whose
/// coordinates are bounded by the offset itself.
pub proof fn lemma_offset_has_valid_point(doc: Seq<u8>, off: int)
    requires
        0 <= off <= doc.len(),
        off <= usize::MAX,
    ensures
        0 <= row_of(doc, off) <= off,
        0 <= column_of(doc, off) <= off,
        valid_point(
            doc,
            (Point { row: row_of(doc, off) as usize, column: column_of(doc, off) as usize }),
        ),
{
    lemma_newlines_bounded(doc, off);
    lemma_line_start_bounds(doc, off);
    assert(row_of(doc, off) == (Point {
        row: row_of(doc, off) as usize,
        column: column_of(doc, off) as usize,
    }).row);
}

/// The line start lies between 0 and the offset itself.
proof fn lemma_line_start_bounds(doc: Seq<u8>, off: int)
    requires
        0 <= off,
    ensures
        0 <= line_start_at(doc, off) <= off,
    decreases off,
{
    if off > 0 {
        lemma_line_start_bounds(doc, off - 1);
    }
}

/// Convert an absolute byte offset within `doc` to its (row, byte-column)
/// point.
pub fn offset_to_point(doc: &Vec<u8>, off: usize) -> (p: Point)
    requires
        off <= doc@.len(),
    ensures
        p.row == row_of(doc@, off as int),
        p.column == column_of(doc@, off as int),
{
    let mut i: usize = 0;
    let mut row: usize = 0;
    let mut start: usize = 0;
    while i < off
        invariant
            i <= off,
            off <= doc@.len(),
            row <= i,
            start <= i,
            row == newlines_before(doc@, i as int),
            start == line_start_at(doc@, i as int),
        decreases off - i,
    {
        assert(newlines_before(doc@, i + 1) == newlines_before(doc@, i as int) + if doc@[i as int]
            == LINE_FEED {
            1int
        } else {
            0int
        });
        if doc[i] == LINE_FEED {
            row = row + 1;
            start = i + 1;
        }
        i = i + 1;
    }
    Point { row, column: off - start }
}

/// Convert a point of `doc` back to the absolute byte offset that lies at it.
pub fn point_to_offset(doc: &Vec<u8>, p: Point) -> (off: usize)
    requires
        valid_point(doc@, p),
    ensures
        off <= doc@.len(),
        row_of(doc@, off as int) == p.row,
        column_of(doc@, off as int) == p.column,
{
    let ghost w = choose|off: int|
        0 <= off <= doc@.len() && row_of(doc@, off) == p.row && column_of(doc@, off) == p.column;
    let n = doc.len();
    let mut i: usize = 0;
    let mut row: usize = 0;
    let mut start: usize = 0;
    loop
        invariant
            i <= w,
            0 <= w <= doc@.len(),
            n == doc@.len(),
            row <= i,
            start <= i,
            row == newlines_before(doc@, i as int),
            start == line_start_at(doc@, i as int),
            row_of(doc@, w) == p.row,
            column_of(doc@, w) == p.column,
        decreases w - i,
    {
        if row == p.row && i - start == p.column {
            return i;
        }
        proof {
            if i == w {
                assert(row == p.row && i - start == p.column);
            }
            assert(i < w);
            assert(newlines_before(doc@, i + 1) == newlines_before(doc@, i as int) + if doc@[i
                as int] == LINE_FEED {
                1int
            } else {
                0int
            });
        }
        if doc[i] == LINE_FEED {
            row = row + 1;
            start = i + 1;
        }
        i = i + 1;
    }
}

} // verus!
