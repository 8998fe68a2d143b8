//! Shared tree handles with fail-fast single-writer access.
//!
//! A parse result is held in a reference-counted cell so that several
//! logical owners — the caller, and a later parse using the tree as its
//! baseline — can refer to one tree at once.  An access flag in the cell
//! enforces at-most-one exclusive accessor: an operation that needs the
//! tree while it is reserved fails fast with `BorrowConflict` instead of
//! blocking or corrupting state, because a conflict signals a caller
//! protocol violation, not contention to wait out.

use vstd::prelude::*;

use std::cell::RefCell;
use std::rc::Rc;

use crate::engine;
use crate::error::Error;
use crate::position::Point;

verus! {

/// The access state of a shared tree cell.
#[derive(Clone, Copy, Debug, PartialEq, Eq, Structural)]
pub enum Access {
    /// No access is outstanding.
    Idle,
    /// One exclusive access is outstanding.
    Reserved,
}

/// What a request for exclusive access does in a given state: the state
/// afterwards, and whether the request succeeded.
pub open spec fn reserve_outcome(a: Access) -> (Access, bool) {
    match a {
        Access::Idle => (Access::Reserved, true),
        Access::Reserved => (Access::Reserved, false),
    }
}

/// What releasing the outstanding access does: the cell is open again.
pub open spec fn release_outcome(a: Access) -> Access {
    Access::Idle
}

/// While one exclusive access is outstanding, a further request fails and
/// the cell stays reserved for the first accessor.
pub proof fn lemma_exclusive_is_single(a: Access)
    requires
        a is Reserved,
    ensures
        !reserve_outcome(a).1,
        reserve_outcome(a).0 is Reserved,
{
}

/// Once the outstanding access is released, a new request for exclusive
/// access succeeds.
pub proof fn lemma_release_reopens(a: Access)
    ensures
        reserve_outcome(release_outcome(a)).1,
{
}

/// One document mutation, described in byte offsets and points, to be
/// applied to a tree so it can serve as the baseline of an incremental
/// reparse.
#[derive(Clone, Copy, Debug, PartialEq, Eq, Structural)]
pub struct TreeEdit {
    pub start_byte: usize,
    pub old_end_byte: usize,
    pub new_end_byte: usize,
    pub start_point: Point,
    pub old_end_point: Point,
    pub new_end_point: Point,
}

/// The engine stores 32-bit coordinates; an edit must fit them.
pub open spec fn edit_wf(e: TreeEdit) -> bool {
    &&& e.start_byte <= u32::MAX as usize
    &&& e.old_end_byte <= u32::MAX as usize
    &&& e.new_end_byte <= u32::MAX as usize
    &&& e.start_point.row <= u32::MAX as usize
    &&& e.start_point.column <= u32::MAX as usize
    &&& e.old_end_point.row <= u32::MAX as usize
    &&& e.old_end_point.column <= u32::MAX as usize
    &&& e.new_end_point.row <= u32::MAX as usize
    &&& e.new_end_point.column <= u32::MAX as usize
}

/// Decide whether an edit fits the engine's coordinate space.
pub fn edit_fits(e: &TreeEdit) -> (ok: bool)
    ensures
        ok <==> edit_wf(*e),
{
    let limit = u32::MAX as usize;
    e.start_byte <= limit && e.old_end_byte <= limit && e.new_end_byte <= limit
        && e.start_point.row <= limit && e.start_point.column <= limit && e.old_end_point.row
        <= limit && e.old_end_point.column <= limit && e.new_end_point.row <= limit
        && e.new_end_point.column <= limit
}

/// The contents of a shared tree cell: the engine's tree and the access
/// flag guarding it.
pub struct TreeCell {
    pub tree: tree_sitter::Tree,
    pub access: Access,
}

/// A shared handle to one syntax tree.  Handles duplicated from one
/// creation refer to one cell; the tree is released when the last handle
/// drops.
#[verifier::external_body]
pub struct Shared {
    inner: Rc<RefCell<TreeCell>>,
}

/// Relies on Rc::new and RefCell::new to allocate one fresh cell holding
/// the tree.
#[verifier::external_body]
fn cell_new(cell: TreeCell) -> Shared {
    Shared { inner: Rc::new(RefCell::new(cell)) }
}

/// Relies on RefCell::borrow, and on Tree::clone (a cheap copy sharing
/// subtrees), to copy the contents out.  No borrow guard outlives the
/// call, so in this single-threaded model the borrow cannot conflict.
#[verifier::external_body]
fn cell_snapshot(s: &Shared) -> TreeCell {
    let cell = s.inner.borrow();
    TreeCell { tree: cell.tree.clone(), access: cell.access }
}

/// Relies on RefCell::borrow_mut to replace the contents.  No borrow guard
/// outlives the call.
#[verifier::external_body]
fn cell_store(s: &Shared, cell: TreeCell) {
    *s.inner.borrow_mut() = cell;
}

/// Wrap a parse result as a shared handle with no outstanding access.
pub fn shared(tree: tree_sitter::Tree) -> Shared {
    cell_new(TreeCell { tree, access: Access::Idle })
}

impl Shared {
    /// A second handle to the same tree cell.
    ///
    /// Relies on Rc::clone: both handles refer to one cell, so access
    /// through either is guarded by the same flag.
    #[verifier::external_body]
    pub fn duplicate(&self) -> Shared {
        Shared { inner: Rc::clone(&self.inner) }
    }

    /// Request exclusive access to the tree, e.g. around an external
    /// traversal or a series of edits.  Fails fast with `BorrowConflict`
    /// while another exclusive access is outstanding; the conflicting
    /// holder must call `release` first.
    pub fn try_exclusive(&self) -> (r: Result<(), Error>)
        ensures
            r matches Err(e) ==> e == Error::BorrowConflict,
    {
        let cell = cell_snapshot(self);
        match cell.access {
            Access::Idle => {
                cell_store(self, TreeCell { tree: cell.tree, access: Access::Reserved });
                Ok(())
            },
            Access::Reserved => Err(Error::BorrowConflict),
        }
    }

    /// Release the outstanding exclusive access; the tree is open to the
    /// next accessor.
    pub fn release(&self) {
        let cell = cell_snapshot(self);
        cell_store(self, TreeCell { tree: cell.tree, access: Access::Idle });
    }

    /// A snapshot of the tree for use as the baseline of an incremental
    /// parse.  Fails fast with `BorrowConflict` while exclusive access is
    /// outstanding.
    pub(crate) fn baseline(&self) -> (r: Result<tree_sitter::Tree, Error>)
        ensures
            r matches Err(e) ==> e == Error::BorrowConflict,
    {
        let cell = cell_snapshot(self);
        match cell.access {
            Access::Idle => Ok(cell.tree),
            Access::Reserved => Err(Error::BorrowConflict),
        }
    }

    /// Apply one edit to the tree so that it matches a document mutation
    /// already made.  For the tree to stay a correct baseline the edit must
    /// exactly match the real change — a caller contract this layer cannot
    /// check.  The call takes exclusive access for its own duration and
    /// fails fast with `BorrowConflict` while any is outstanding.
    pub fn edit(&self, e: &TreeEdit) -> (r: Result<(), Error>)
        requires
            edit_wf(*e),
        ensures
            r matches Err(err) ==> err == Error::BorrowConflict,
    {
        let cell = cell_snapshot(self);
        match cell.access {
            Access::Reserved => Err(Error::BorrowConflict),
            Access::Idle => {
                let mut tree = cell.tree;
                engine::engine_edit(&mut tree, e);
                cell_store(self, TreeCell { tree, access: Access::Idle });
                Ok(())
            },
        }
    }

    /// The byte span of the tree's root node.  Fails fast with
    /// `BorrowConflict` while exclusive access is outstanding.
    pub fn root_byte_span(&self) -> (r: Result<(usize, usize), Error>)
        ensures
            r matches Err(e) ==> e == Error::BorrowConflict,
    {
        let cell = cell_snapshot(self);
        match cell.access {
            Access::Reserved => Err(Error::BorrowConflict),
            Access::Idle => {
                let start = engine::tree_root_start_byte(&cell.tree);
                let end = engine::tree_root_end_byte(&cell.tree);
                Ok((start, end))
            },
        }
    }

    /// An s-expression rendering of the tree's structure, for comparison
    /// and display.  Fails fast with `BorrowConflict` while exclusive
    /// access is outstanding.
    pub fn structure(&self) -> (r: Result<String, Error>)
        ensures
            r matches Err(e) ==> e == Error::BorrowConflict,
    {
        let cell = cell_snapshot(self);
        match cell.access {
            Access::Reserved => Err(Error::BorrowConflict),
            Access::Idle => Ok(engine::tree_structure(&cell.tree)),
        }
    }
}

} // verus!
