//! The parse coordinator: parser configuration and the two parse entry
//! points.
//!
//! The coordinator owns the engine's parser together with a plain model of
//! its caller-visible configuration — attached language, timeout, included
//! ranges, and whether the next parse starts fresh.  Every configuration
//! change is stated as a transition on that model; a failed change leaves
//! the model, and the engine it mirrors, untouched.

use vstd::prelude::*;

use crate::chunks::ChunkInput;
use crate::chunks::ChunkSource;
use crate::chunks::first_error;
use crate::engine;
use crate::engine::abi_supported;
use crate::error::Error;
use crate::lang::LanguageHandle;
use crate::ranges::Range;
use crate::ranges::check_ranges;
use crate::ranges::ranges_ok;
use crate::tree::Shared;
use crate::tree::shared;

verus! {

/// The caller-visible configuration of a parse coordinator.
pub struct Config {
    /// The attached grammar, if any.
    pub lang: Option<LanguageHandle>,
    /// The best-effort parse deadline in microseconds; zero means none.
    pub timeout: u64,
    /// The spans of the document presented to the engine; empty means the
    /// whole document.
    pub ranges: Seq<Range>,
    /// Whether the next parse starts from the document beginning rather
    /// than resuming an interrupted one.
    pub fresh: bool,
}

/// What attaching a grammar does to a configuration: with a supported ABI
/// version the grammar is attached; otherwise nothing changes.
pub open spec fn attach_transition(c: Config, l: LanguageHandle) -> (Config, bool) {
    if abi_supported(l.abi_spec()) {
        (Config { lang: Some(l), ..c }, true)
    } else {
        (c, false)
    }
}

/// What setting the included ranges does to a configuration: a valid set
/// replaces the previous one; an invalid set changes nothing.
pub open spec fn ranges_transition(c: Config, rs: Seq<Range>) -> (Config, bool) {
    if ranges_ok(rs) {
        (Config { ranges: rs, ..c }, true)
    } else {
        (c, false)
    }
}

/// What setting the timeout does to a configuration.
pub open spec fn timeout_transition(c: Config, micros: u64) -> Config {
    Config { timeout: micros, ..c }
}

/// What a reset does to a configuration: any interrupted parse is
/// discarded, so the next one starts from the document beginning; all
/// other settings stay.
pub open spec fn reset_transition(c: Config) -> Config {
    Config { fresh: true, ..c }
}

/// Attaching a grammar with a supported ABI version and then one with an
/// unsupported version: the second attach fails and leaves the first
/// grammar attached.
pub proof fn lemma_failed_attach_keeps_language(c: Config, l1: LanguageHandle, l2: LanguageHandle)
    requires
        abi_supported(l1.abi_spec()),
        !abi_supported(l2.abi_spec()),
    ensures
        !attach_transition(attach_transition(c, l1).0, l2).1,
        attach_transition(attach_transition(c, l1).0, l2).0.lang == Some(l1),
{
}

/// Replacing a valid included-ranges set with an invalid one fails and
/// leaves the valid set active.
pub proof fn lemma_rejected_ranges_keep_previous(c: Config, rs1: Seq<Range>, rs2: Seq<Range>)
    requires
        ranges_ok(rs1),
        !ranges_ok(rs2),
    ensures
        !ranges_transition(ranges_transition(c, rs1).0, rs2).1,
        ranges_transition(ranges_transition(c, rs1).0, rs2).0.ranges == rs1,
{
}

/// After a reset the configuration records no interrupted parse, whatever
/// went before: the next parse starts from the document beginning.
pub proof fn lemma_reset_discards_resume(c: Config)
    ensures
        reset_transition(c).fresh,
        reset_transition(c).lang == c.lang,
        reset_transition(c).timeout == c.timeout,
        reset_transition(c).ranges == c.ranges,
{
}

/// The parse coordinator: the engine's parser and the model of its
/// configuration, kept in step by the methods below.  It is exclusively
/// owned by one caller; configuration persists across parses unless reset.
pub struct ParseCoordinator {
    engine: tree_sitter::Parser,
    lang: Option<LanguageHandle>,
    timeout: u64,
    included: Vec<Range>,
    fresh: bool,
}

/// A coordinator with no language attached, no timeout, whole-document
/// ranges, and nothing to resume.
pub fn make_parser() -> (p: ParseCoordinator)
    ensures
        p.cfg().lang is None,
        p.cfg().timeout == 0,
        p.cfg().ranges == Seq::<Range>::empty(),
        p.cfg().fresh,
{
    let p = ParseCoordinator {
        engine: engine::engine_new(),
        lang: None,
        timeout: 0,
        included: Vec::new(),
        fresh: true,
    };
    proof {
        assert(p.cfg().ranges =~= Seq::<Range>::empty());
    }
    p
}

impl ParseCoordinator {
    /// The caller-visible configuration.
    pub closed spec fn cfg(self) -> Config {
        Config {
            lang: self.lang,
            timeout: self.timeout,
            ranges: self.included@,
            fresh: self.fresh,
        }
    }

    /// The configuration parts a parse never changes.
    pub open spec fn same_settings(self, other: Self) -> bool {
        self.cfg().lang == other.cfg().lang && self.cfg().timeout == other.cfg().timeout
            && self.cfg().ranges == other.cfg().ranges
    }

    /// Attach `l` as the grammar for the coming parses.  Fails with
    /// `AbiMismatch`, carrying the offending version, when the grammar was
    /// generated with an ABI the engine does not support; the previous
    /// configuration is left untouched.
    pub fn set_language(&mut self, l: LanguageHandle) -> (r: Result<(), Error>)
        ensures
            final(self).cfg() == attach_transition(old(self).cfg(), l).0,
            r is Ok <==> attach_transition(old(self).cfg(), l).1,
            r matches Err(e) ==> e == Error::AbiMismatch(l.abi_spec()),
    {
        if engine::engine_set_language(&mut self.engine, &l) {
            self.lang = Some(l);
            Ok(())
        } else {
            Err(Error::AbiMismatch(l.abi_version()))
        }
    }

    /// The currently attached grammar, if any.
    pub fn language(&self) -> (r: Option<&LanguageHandle>)
        ensures
            match r {
                Some(l) => self.cfg().lang == Some(*l),
                None => self.cfg().lang is None,
            },
    {
        self.lang.as_ref()
    }

    /// The best-effort parse deadline in microseconds; zero means none.
    pub fn timeout_micros(&self) -> (t: u64)
        ensures
            t == self.cfg().timeout,
    {
        self.timeout
    }

    /// Allow each parse at most `micros` microseconds.  The deadline is a
    /// hint to the engine, not a hard real-time guarantee; after it trips,
    /// the next parse resumes where the interrupted one left off unless
    /// `reset` is called first.
    pub fn set_timeout_micros(&mut self, micros: u64)
        ensures
            final(self).cfg() == timeout_transition(old(self).cfg(), micros),
    {
        engine::engine_set_timeout(&mut self.engine, micros);
        self.timeout = micros;
    }

    /// Start the next parse from the document beginning instead of
    /// resuming a parse interrupted by a timeout or cancellation.
    pub fn reset(&mut self)
        ensures
            final(self).cfg() == reset_transition(old(self).cfg()),
    {
        engine::engine_reset(&mut self.engine);
        self.fresh = true;
    }

    /// The spans of the document the engine parses; empty means the whole
    /// document.
    pub fn included_ranges(&self) -> (r: &Vec<Range>)
        ensures
            r@ == self.cfg().ranges,
    {
        &self.included
    }

    /// Restrict the coming parses to `ranges`, so that part of a
    /// multi-language document can be parsed while tree coordinates stay
    /// aligned with the whole.  An invalid set — a range running backwards,
    /// beyond the engine's coordinate space, or overlapping its
    /// predecessor — is rejected with `InvalidRanges`, and the previous
    /// configuration stays active.
    pub fn set_included_ranges(&mut self, ranges: Vec<Range>) -> (r: Result<(), Error>)
        ensures
            final(self).cfg() == ranges_transition(old(self).cfg(), ranges@).0,
            r is Ok <==> ranges_transition(old(self).cfg(), ranges@).1,
            r matches Err(e) ==> e == Error::InvalidRanges,
    {
        if !check_ranges(&ranges) {
            return Err(Error::InvalidRanges);
        }
        if !engine::engine_set_ranges(&mut self.engine, &ranges) {
            return Err(Error::InvalidRanges);
        }
        self.included = ranges;
        Ok(())
    }

    /// Turn the engine's outcome into the caller's result: a tree becomes
    /// a fresh shared handle; no tree means the engine aborted — no
    /// language attached, or its deadline or cancellation tripped — and may
    /// hold resumable state.
    fn complete_parse(&mut self, outcome: Option<tree_sitter::Tree>) -> (r: Result<Shared, Error>)
        ensures
            final(self).same_settings(*old(self)),
            r is Ok <==> outcome is Some,
            outcome is Some ==> final(self).cfg().fresh,
            outcome is None ==> !final(self).cfg().fresh && (r matches Err(e) && e
                == Error::EngineAborted),
    {
        match outcome {
            Some(t) => {
                self.fresh = true;
                Ok(shared(t))
            },
            None => {
                self.fresh = false;
                Err(Error::EngineAborted)
            },
        }
    }

    /// Parse a complete source string, reusing `old_tree` as the baseline
    /// if one is given.  The baseline handle must have been edited to match
    /// the document exactly; it is read under the fail-fast access
    /// discipline, so a conflicting exclusive access yields
    /// `BorrowConflict` and changes nothing.
    pub fn parse_string(&mut self, input: String, old_tree: Option<&Shared>) -> (r: Result<
        Shared,
        Error,
    >)
        ensures
            final(self).same_settings(*old(self)),
            r matches Err(e) ==> (e == Error::BorrowConflict || e == Error::EngineAborted),
            r matches Err(e) && e == Error::BorrowConflict ==> final(self).cfg()
                == old(self).cfg(),
            r is Ok ==> final(self).cfg().fresh,
            r matches Err(e) && e == Error::EngineAborted ==> !final(self).cfg().fresh,
    {
        let baseline = match old_tree {
            Some(handle) => match handle.baseline() {
                Ok(t) => Some(t),
                Err(e) => {
                    return Err(e);
                },
            },
            None => None,
        };
        let outcome = engine::engine_parse(&mut self.engine, &input, baseline.as_ref());
        self.complete_parse(outcome)
    }

    /// Parse a document pulled chunk by chunk from `input`'s source,
    /// reusing `old_tree` as the baseline if one is given.
    ///
    /// The engine pulls fragments through the deferred-error protocol: the
    /// first error the source raises is captured, the engine winds down on
    /// empty input, and that error — verbatim — is the result, whatever
    /// tree the engine completed in the meantime.  Only when the source
    /// raised no error does the engine's outcome count.
    pub fn parse_chunks<S: ChunkSource>(
        &mut self,
        input: &mut ChunkInput<S>,
        old_tree: Option<&Shared>,
    ) -> (r: Result<Shared, Error>)
        requires
            old(input).fresh(),
        ensures
            final(self).same_settings(*old(self)),
            final(input).wf(),
            r matches Err(e) && e == Error::BorrowConflict ==> final(self).cfg()
                == old(self).cfg() && *final(input) == *old(input),
            match first_error(final(input).history()) {
                Some(m) => r matches Err(e) && (e matches Error::InputSource(c) && c.message@
                    == m),
                None => !(r matches Err(e) && e matches Error::InputSource(_)),
            },
            r is Ok ==> final(self).cfg().fresh,
            r matches Err(e) && e == Error::EngineAborted ==> !final(self).cfg().fresh
                && final(input).deferred() is None,
            r matches Err(e) ==> (e == Error::BorrowConflict || e == Error::EngineAborted
                || e matches Error::InputSource(_)),
    {
        let baseline = match old_tree {
            Some(handle) => match handle.baseline() {
                Ok(t) => Some(t),
                Err(e) => {
                    return Err(e);
                },
            },
            None => None,
        };
        let outcome = engine::engine_parse_with(&mut self.engine, input, baseline.as_ref());
        match input.captured_error() {
            Some(e) => {
                let err = e.clone();
                self.fresh = outcome.is_some();
                Err(Error::InputSource(err))
            },
            None => self.complete_parse(outcome),
        }
    }
}

} // verus!
