use parse_coord::chunks::{ChunkInput, ChunkSource};
use parse_coord::error::{ChunkError, Error};
use parse_coord::lang::language_handle;
use parse_coord::parser::{make_parser, ParseCoordinator};
use parse_coord::position::{BytePos, Point};
use parse_coord::ranges::{Range, span_range};
use parse_coord::tree::TreeEdit;

fn json_parser() -> ParseCoordinator {
    let mut p = make_parser();
    let lang = language_handle(tree_sitter::Language::new(tree_sitter_json::LANGUAGE));
    p.set_language(lang).expect("the bundled grammar matches the engine");
    p
}

/// Serves an in-memory document chunk by chunk, optionally failing on one
/// particular call.
struct ScriptedSource {
    doc: Vec<u8>,
    chunk: usize,
    calls: usize,
    fail_on_call: Option<usize>,
    message: String,
}

impl ScriptedSource {
    fn new(doc: &str, chunk: usize) -> ScriptedSource {
        ScriptedSource {
            doc: doc.as_bytes().to_vec(),
            chunk,
            calls: 0,
            fail_on_call: None,
            message: String::new(),
        }
    }

    fn failing_on(doc: &str, chunk: usize, call: usize, message: &str) -> ScriptedSource {
        ScriptedSource {
            doc: doc.as_bytes().to_vec(),
            chunk,
            calls: 0,
            fail_on_call: Some(call),
            message: message.to_string(),
        }
    }
}

impl ChunkSource for ScriptedSource {
    fn next_chunk(&mut self, pos: BytePos, _point: Point) -> Result<String, ChunkError> {
        self.calls += 1;
        if self.fail_on_call == Some(self.calls) {
            return Err(ChunkError { message: self.message.clone() });
        }
        let start = pos.offset.min(self.doc.len());
        let end = (start + self.chunk).min(self.doc.len());
        Ok(String::from_utf8(self.doc[start..end].to_vec()).unwrap())
    }
}

#[test]
fn string_parse_covers_the_whole_input() {
    let mut p = json_parser();
    let doc = "[1, [2, 3], {\"k\": true}]";
    let tree = p.parse_string(doc.to_string(), None).unwrap();
    assert_eq!(tree.root_byte_span().unwrap(), (0, doc.len()));
    let structure = tree.structure().unwrap();
    assert!(structure.starts_with("(document"));
}

#[test]
fn parse_without_language_reports_engine_abort() {
    let mut p = make_parser();
    match p.parse_string("[]".to_string(), None) {
        Err(e) => assert_eq!(e, Error::EngineAborted),
        Ok(_) => panic!("expected an engine abort without a language"),
    }
}

#[test]
fn chunked_parse_agrees_with_string_parse() {
    let doc = "[10, {\"deep\": [true, false, null]}, 3]";
    let mut p = json_parser();
    let whole = p.parse_string(doc.to_string(), None).unwrap();
    let mut input = ChunkInput::new(ScriptedSource::new(doc, 3));
    let chunked = p.parse_chunks(&mut input, None).unwrap();
    assert_eq!(
        whole.structure().unwrap(),
        chunked.structure().unwrap()
    );
    assert_eq!(chunked.root_byte_span().unwrap(), (0, doc.len()));
}

#[test]
fn chunk_source_error_wins_over_any_tree() {
    let doc = "[1, 2, 3, 4, 5, 6]";
    let mut p = json_parser();
    let mut input = ChunkInput::new(ScriptedSource::failing_on(doc, 4, 2, "buffer was killed"));
    let r = p.parse_chunks(&mut input, None);
    match r {
        Err(Error::InputSource(e)) => assert_eq!(e.message, "buffer was killed"),
        Err(e) => panic!("expected the source's own error back, got {:?}", e),
        Ok(_) => panic!("expected the source's own error back, got a tree"),
    }
}

#[test]
fn chunk_source_error_on_first_call_is_returned_verbatim() {
    let mut p = json_parser();
    let mut input = ChunkInput::new(ScriptedSource::failing_on("[]", 2, 1, "gone"));
    let r = p.parse_chunks(&mut input, None);
    match r {
        Err(Error::InputSource(e)) => assert_eq!(e.message, "gone"),
        Err(e) => panic!("expected the source's own error back, got {:?}", e),
        Ok(_) => panic!("expected the source's own error back, got a tree"),
    }
}

#[test]
fn incremental_reparse_matches_parse_from_scratch() {
    // Document D1, and D2 obtained from it by replacing "2" with "42".
    let d1 = "[1, 2]";
    let d2 = "[1, 42]";
    let mut p = json_parser();
    let tree = p.parse_string(d1.to_string(), None).unwrap();

    // The edit corresponding exactly to the mutation: one byte at offset 4
    // becomes two bytes.
    let edit = TreeEdit {
        start_byte: 4,
        old_end_byte: 5,
        new_end_byte: 6,
        start_point: Point { row: 0, column: 4 },
        old_end_point: Point { row: 0, column: 5 },
        new_end_point: Point { row: 0, column: 6 },
    };
    tree.edit(&edit).unwrap();

    let mut input = ChunkInput::new(ScriptedSource::new(d2, 2));
    let incremental = p.parse_chunks(&mut input, Some(&tree)).unwrap();
    let mut fresh_parser = json_parser();
    let from_scratch = fresh_parser.parse_string(d2.to_string(), None).unwrap();
    assert_eq!(
        incremental.structure().unwrap(),
        from_scratch.structure().unwrap()
    );
    assert_eq!(incremental.root_byte_span().unwrap(), (0, d2.len()));
}

#[test]
fn exclusive_access_conflicts_fail_fast_and_release_reopens() {
    let mut p = json_parser();
    let tree = p.parse_string("[1]".to_string(), None).unwrap();

    assert_eq!(tree.try_exclusive(), Ok(()));
    // A second exclusive access on the same handle is refused.
    assert_eq!(tree.try_exclusive(), Err(Error::BorrowConflict));
    // The conflict is visible through a duplicated handle too.
    let alias = tree.duplicate();
    assert_eq!(alias.try_exclusive(), Err(Error::BorrowConflict));
    assert_eq!(alias.root_byte_span(), Err(Error::BorrowConflict));

    // A parse that would read the reserved tree as its baseline fails fast
    // and changes nothing.
    let mut input = ChunkInput::new(ScriptedSource::new("[1, 2]", 2));
    match p.parse_chunks(&mut input, Some(&tree)) {
        Err(e) => assert_eq!(e, Error::BorrowConflict),
        Ok(_) => panic!("a reserved baseline must fail fast"),
    }

    // Releasing the first access lets the next one through.
    tree.release();
    assert_eq!(alias.try_exclusive(), Ok(()));
    alias.release();
    assert_eq!(tree.root_byte_span().unwrap(), (0, 3));
}

#[test]
fn editing_a_reserved_tree_is_refused() {
    let mut p = json_parser();
    let tree = p.parse_string("[1]".to_string(), None).unwrap();
    tree.try_exclusive().unwrap();
    let edit = TreeEdit {
        start_byte: 1,
        old_end_byte: 2,
        new_end_byte: 2,
        start_point: Point { row: 0, column: 1 },
        old_end_point: Point { row: 0, column: 2 },
        new_end_point: Point { row: 0, column: 2 },
    };
    assert_eq!(tree.edit(&edit), Err(Error::BorrowConflict));
    tree.release();
    assert_eq!(tree.edit(&edit), Ok(()));
}

#[test]
fn included_ranges_restrict_the_parse_and_survive_a_rejected_set() {
    let doc = "[1] [2]";
    let bytes: Vec<u8> = doc.as_bytes().to_vec();
    let mut p = json_parser();

    let first = vec![span_range(&bytes, 0, 3)];
    p.set_included_ranges(first).unwrap();
    let tree = p.parse_string(doc.to_string(), None).unwrap();
    assert_eq!(tree.root_byte_span().unwrap(), (0, 3));

    // An overlapping pair is rejected and the earlier restriction stays
    // active for the next parse.
    let overlapping = vec![span_range(&bytes, 0, 6), span_range(&bytes, 5, 7)];
    assert_eq!(p.set_included_ranges(overlapping), Err(Error::InvalidRanges));
    let again = p.parse_string(doc.to_string(), None).unwrap();
    assert_eq!(again.root_byte_span().unwrap(), (0, 3));

    // Clearing the restriction widens the parse to the whole document.
    let empty: Vec<Range> = vec![];
    p.set_included_ranges(empty).unwrap();
    let whole = p.parse_string(doc.to_string(), None).unwrap();
    assert_eq!(whole.root_byte_span().unwrap(), (0, doc.len()));
}

#[test]
fn reset_starts_the_next_parse_from_the_beginning() {
    let mut p = json_parser();
    let doc = "[1, 2, 3]";
    let before = p.parse_string(doc.to_string(), None).unwrap();
    assert_eq!(before.root_byte_span().unwrap(), (0, doc.len()));

    // Whatever state an earlier parse left behind, a reset parser covers
    // the document from its beginning.
    p.reset();
    let after = p.parse_string(doc.to_string(), None).unwrap();
    assert_eq!(after.root_byte_span().unwrap(), (0, doc.len()));
    assert_eq!(
        before.structure().unwrap(),
        after.structure().unwrap()
    );
}
