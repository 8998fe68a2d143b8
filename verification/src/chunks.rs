//! The pull-based chunk input protocol.
//!
//! The grammar engine pulls the document one fragment at a time through a
//! callback that runs inside foreign control flow, across which an error
//! must not propagate.  The adapter here therefore captures the first error
//! a chunk source raises into a deferred slot, answers the engine with an
//! empty fragment so its state machine terminates cleanly, and lets the
//! caller surface the captured error once control is back in a safe
//! context.  An error from the source always wins over a
//! successfully-completed-looking parse result.

use vstd::prelude::*;

use crate::error::ChunkError;
use crate::position::BytePos;
use crate::position::Point;

verus! {

/// What a source can produce, chunk by chunk.  Implementors supply the next
/// fragment of the document starting at the given position; an empty
/// fragment signals the end of the input.  An `Err` aborts the parse and is
/// handed back to the caller verbatim.
pub trait ChunkSource {
    /// The next fragment of source text starting at `pos`, which `point`
    /// locates a second time as a (line, byte-column) pair.
    fn next_chunk(&mut self, pos: BytePos, point: Point) -> Result<String, ChunkError>;
}

/// One observed answer of a chunk source.
pub enum ChunkEvent {
    /// The source produced this fragment.
    Produced(Seq<char>),
    /// The source failed with an error bearing this message.
    Failed(Seq<char>),
}

/// The message of the first `Failed` event of a history, if any.
pub open spec fn first_error(history: Seq<ChunkEvent>) -> Option<Seq<char>>
    decreases history.len(),
{
    if history.len() == 0 {
        None
    } else {
        match history[0] {
            ChunkEvent::Failed(m) => Some(m),
            ChunkEvent::Produced(_) => first_error(history.drop_first()),
        }
    }
}

/// A chunk source together with the deferred-error slot and the history of
/// its answers.  One value drives one parse.
pub struct ChunkInput<S> {
    source: S,
    pending: Option<ChunkError>,
    history: Ghost<Seq<ChunkEvent>>,
}

impl<S> ChunkInput<S> {
    /// Every answer the source has given so far, in order.
    pub closed spec fn history(self) -> Seq<ChunkEvent> {
        self.history@
    }

    /// The first error the source raised, held back until it can propagate
    /// safely.
    pub closed spec fn deferred(self) -> Option<ChunkError> {
        self.pending
    }

    /// The deferred slot holds exactly the first error of the history.
    pub open spec fn wf(self) -> bool {
        match self.deferred() {
            Some(e) => first_error(self.history()) == Some(e.message@),
            None => first_error(self.history()) is None,
        }
    }

    /// No fragment has been pulled yet and no error captured.
    pub open spec fn fresh(self) -> bool {
        self.history().len() == 0 && self.deferred() is None
    }

    /// Wrap a source, ready to drive one parse.
    pub fn new(source: S) -> (input: ChunkInput<S>)
        ensures
            input.fresh(),
            input.wf(),
    {
        ChunkInput { source, pending: None, history: Ghost(Seq::empty()) }
    }

    /// The error captured from the source, if any.
    pub fn captured_error(&self) -> (r: Option<&ChunkError>)
        ensures
            match r {
                Some(e) => self.deferred() == Some(*e),
                None => self.deferred() is None,
            },
    {
        self.pending.as_ref()
    }
}

/// Appending to an error-free history: the first error is the new event's,
/// if it is a failure.
proof fn lemma_first_error_push(history: Seq<ChunkEvent>, ev: ChunkEvent)
    requires
        first_error(history) is None,
    ensures
        first_error(history.push(ev)) == match ev {
            ChunkEvent::Produced(_) => None::<Seq<char>>,
            ChunkEvent::Failed(m) => Some(m),
        },
    decreases history.len(),
{
    if history.len() == 0 {
        assert(history.push(ev)[0] == ev);
    } else {
        assert(history.push(ev)[0] == history[0]);
        assert(history.push(ev).drop_first() =~= history.drop_first().push(ev));
        lemma_first_error_push(history.drop_first(), ev);
    }
}

/// If the source answered the first `n` pulls with fragments and failed on
/// the pull after them with message `m`, then `m` is the first captured
/// error — whatever fragments came back on the earlier pulls.
pub proof fn lemma_error_on_nth_pull(history: Seq<ChunkEvent>, n: int, m: Seq<char>)
    requires
        0 <= n < history.len(),
        history[n] == ChunkEvent::Failed(m),
        forall|k: int| 0 <= k < n ==> history[k] is Produced,
    ensures
        first_error(history) == Some(m),
    decreases n,
{
    if n > 0 {
        assert(history[0] is Produced);
        assert(history.drop_first()[n - 1] == history[n]);
        assert(forall|k: int| 0 <= k < n - 1 ==> history.drop_first()[k] == history[k + 1]);
        lemma_error_on_nth_pull(history.drop_first(), n - 1, m);
    }
}

/// Answer one pull of the engine.  While no error is pending the source is
/// asked for the fragment at the given position; its answer is recorded.  A
/// failure is captured into the deferred slot and answered with an empty
/// fragment, as is every later pull, so the engine winds down cleanly.
pub fn pull_fragment<S: ChunkSource>(
    input: &mut ChunkInput<S>,
    byte: usize,
    row: usize,
    column: usize,
) -> (frag: String)
    ensures
        old(input).history().is_prefix_of(final(input).history()),
        old(input).wf() ==> final(input).wf(),
        old(input).deferred() is Some ==> *final(input) == *old(input) && frag@
            == Seq::<char>::empty(),
        old(input).deferred() is None ==> {
            &&& final(input).history().len() == old(input).history().len() + 1
            &&& match final(input).history().last() {
                ChunkEvent::Produced(s) => frag@ == s && final(input).deferred() is None,
                ChunkEvent::Failed(m) => frag@ == Seq::<char>::empty() && (final(input).deferred()
                    matches Some(e) && e.message@ == m),
            }
        },
{
    if input.pending.is_some() {
        return String::new();
    }
    let pos = BytePos::new(byte);
    let point = Point { row, column };
    match input.source.next_chunk(pos, point) {
        Ok(fragment) => {
            proof {
                if old(input).wf() {
                    lemma_first_error_push(input.history@, ChunkEvent::Produced(fragment@));
                }
            }
            input.history = Ghost(input.history@.push(ChunkEvent::Produced(fragment@)));
            fragment
        },
        Err(e) => {
            proof {
                if old(input).wf() {
                    lemma_first_error_push(input.history@, ChunkEvent::Failed(e.message@));
                }
            }
            input.history = Ghost(input.history@.push(ChunkEvent::Failed(e.message@)));
            input.pending = Some(e);
            String::new()
        },
    }
}

} // verus!
