//! The trusted boundary to the grammar engine.
//!
//! Everything the library asks of the tree-sitter engine passes through the
//! wrappers in this module.  Each wrapper's contract states only what the
//! engine's own source or documentation shows; the logic around the calls
//! is verified against these contracts.

use vstd::prelude::*;

use crate::chunks::ChunkInput;
use crate::chunks::ChunkSource;
use crate::lang::LanguageHandle;
use crate::ranges::Range;
use crate::ranges::ranges_fit;
use crate::ranges::ranges_ordered;
use crate::tree::TreeEdit;
use crate::tree::edit_wf;

verus! {

#[verifier::external_type_specification]
#[verifier::external_body]
pub struct ExParser(tree_sitter::Parser);

#[verifier::external_type_specification]
#[verifier::external_body]
pub struct ExLanguage(tree_sitter::Language);

#[verifier::external_type_specification]
#[verifier::external_body]
pub struct ExTree(tree_sitter::Tree);

/// Whether the engine supports grammars generated with the given ABI
/// version: the range test tree_sitter::Parser::set_language applies to
/// Language::version.  The outcome is fixed by the engine build alone.
pub uninterp spec fn abi_supported(version: usize) -> bool;

/// Relies on tree_sitter::Parser::new to allocate a parser with no language
/// attached, no timeout and whole-document ranges.
#[verifier::external_body]
pub(crate) fn engine_new() -> tree_sitter::Parser {
    tree_sitter::Parser::new()
}

/// Relies on tree_sitter::Parser::set_language, whose source accepts a
/// grammar exactly when its ABI version — the tag `language_handle` stored —
/// lies in the engine's supported range, and otherwise leaves the parser
/// untouched.
#[verifier::external_body]
pub(crate) fn engine_set_language(p: &mut tree_sitter::Parser, l: &LanguageHandle) -> (ok: bool)
    ensures
        ok <==> abi_supported(l.abi_spec()),
{
    p.set_language(&l.raw).is_ok()
}

/// Relies on tree_sitter::Parser::parse, which hands the whole text to the
/// engine at once and returns no tree exactly when no language is attached
/// or its best-effort timeout or cancellation tripped.
#[verifier::external_body]
pub(crate) fn engine_parse(
    p: &mut tree_sitter::Parser,
    text: &String,
    old_tree: Option<&tree_sitter::Tree>,
) -> Option<tree_sitter::Tree> {
    p.parse(text.as_bytes(), old_tree)
}

/// Relies on tree_sitter::Parser::parse_with: the engine reads the document
/// only through the supplied callback, which forwards every request to
/// `pull_fragment`, so the input state evolves by recorded pulls alone.
#[verifier::external_body]
pub(crate) fn engine_parse_with<S: ChunkSource>(
    p: &mut tree_sitter::Parser,
    input: &mut ChunkInput<S>,
    old_tree: Option<&tree_sitter::Tree>,
) -> (r: Option<tree_sitter::Tree>)
    ensures
        old(input).history().is_prefix_of(final(input).history()),
        old(input).wf() ==> final(input).wf(),
{
    p.parse_with(
        &mut |byte: usize, point: tree_sitter::Point| crate::chunks::pull_fragment(
            input,
            byte,
            point.row,
            point.column,
        ),
        old_tree,
    )
}

/// Relies on tree_sitter::Parser::reset, which discards the state of a
/// previously interrupted parse so the next one starts from the beginning.
#[verifier::external_body]
pub(crate) fn engine_reset(p: &mut tree_sitter::Parser) {
    p.reset();
}

/// Relies on tree_sitter::Parser::set_timeout_micros, the engine's
/// best-effort deadline hint; zero removes it.
#[verifier::external_body]
pub(crate) fn engine_set_timeout(p: &mut tree_sitter::Parser, micros: u64) {
    p.set_timeout_micros(micros);
}

/// Relies on tree_sitter::Parser::set_included_ranges, which accepts a set
/// exactly when its byte spans run forward and each starts no earlier than
/// its predecessor ends; `range_wf` keeps every coordinate within the
/// 32-bit space the engine stores, so nothing is truncated on the way in.
#[verifier::external_body]
pub(crate) fn engine_set_ranges(p: &mut tree_sitter::Parser, rs: &Vec<Range>) -> (ok: bool)
    requires
        ranges_fit(rs@),
    ensures
        ok <==> ranges_ordered(rs@),
{
    let converted: Vec<tree_sitter::Range> = rs
        .iter()
        .map(|r| tree_sitter::Range {
            start_byte: r.start_byte,
            end_byte: r.end_byte,
            start_point: tree_sitter::Point { row: r.start_point.row, column: r.start_point.column },
            end_point: tree_sitter::Point { row: r.end_point.row, column: r.end_point.column },
        })
        .collect();
    p.set_included_ranges(&converted).is_ok()
}

/// Relies on tree_sitter::Tree::edit to shift the tree's spans to a
/// document mutation; `edit_wf` keeps every coordinate within the engine's
/// 32-bit space.
#[verifier::external_body]
pub(crate) fn engine_edit(t: &mut tree_sitter::Tree, e: &TreeEdit)
    requires
        edit_wf(*e),
{
    t.edit(&tree_sitter::InputEdit {
        start_byte: e.start_byte,
        old_end_byte: e.old_end_byte,
        new_end_byte: e.new_end_byte,
        start_position: tree_sitter::Point { row: e.start_point.row, column: e.start_point.column },
        old_end_position: tree_sitter::Point {
            row: e.old_end_point.row,
            column: e.old_end_point.column,
        },
        new_end_position: tree_sitter::Point {
            row: e.new_end_point.row,
            column: e.new_end_point.column,
        },
    });
}

/// Relies on tree_sitter::Tree::root_node and Node::start_byte to read
/// where the root node's span begins.
#[verifier::external_body]
pub(crate) fn tree_root_start_byte(t: &tree_sitter::Tree) -> usize {
    t.root_node().start_byte()
}

/// Relies on tree_sitter::Tree::root_node and Node::end_byte to read where
/// the root node's span ends.
#[verifier::external_body]
pub(crate) fn tree_root_end_byte(t: &tree_sitter::Tree) -> usize {
    t.root_node().end_byte()
}

/// Relies on tree_sitter::Tree::root_node and Node::to_sexp to render the
/// tree's structure as an s-expression.
#[verifier::external_body]
pub(crate) fn tree_structure(t: &tree_sitter::Tree) -> String {
    t.root_node().to_sexp()
}

} // verus!
