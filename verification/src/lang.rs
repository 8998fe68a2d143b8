//! Language handles: a compiled grammar definition together with its ABI
//! version tag.
//!
//! Grammar definitions are opaque, engine-managed resources; this layer
//! models one as a capability handle carrying the version tag that the
//! engine checks at attach time.

use vstd::prelude::*;

verus! {

/// A loaded grammar definition.  The engine's handle is opaque; the ABI
/// version tag read from it at construction is the one piece of data the
/// attach logic needs.
pub struct LanguageHandle {
    pub(crate) raw: tree_sitter::Language,
    pub(crate) abi: usize,
}

impl LanguageHandle {
    /// The ABI version tag this grammar was generated with.
    pub closed spec fn abi_spec(self) -> usize {
        self.abi
    }

    /// The ABI version tag this grammar was generated with.
    pub fn abi_version(&self) -> (v: usize)
        ensures
            v == self.abi_spec(),
    {
        self.abi
    }
}

/// Wrap an engine grammar as a language handle.
///
/// Relies on tree_sitter::Language::version to read the ABI version tag
/// embedded in the compiled grammar; the tag is a fixed attribute of the
/// grammar, and the handle stores it beside the raw grammar so that every
/// later check can work on the plain value.
#[verifier::external_body]
pub fn language_handle(raw: tree_sitter::Language) -> LanguageHandle {
    let abi = raw.version();
    LanguageHandle { raw, abi }
}

} // verus!
