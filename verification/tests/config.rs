use parse_coord::error::Error;
use parse_coord::parser::make_parser;
use parse_coord::position::Point;
use parse_coord::ranges::{check_ranges, Range};

fn byte_range(start: usize, end: usize) -> Range {
    Range {
        start_byte: start,
        end_byte: end,
        start_point: Point { row: 0, column: start },
        end_point: Point { row: 0, column: end },
    }
}

#[test]
fn new_parser_has_default_configuration() {
    let p = make_parser();
    assert!(p.language().is_none());
    assert_eq!(p.timeout_micros(), 0);
    assert!(p.included_ranges().is_empty());
}

#[test]
fn timeout_is_stored_and_survives_reset() {
    let mut p = make_parser();
    p.set_timeout_micros(250_000);
    assert_eq!(p.timeout_micros(), 250_000);
    p.reset();
    assert_eq!(p.timeout_micros(), 250_000);
}

#[test]
fn valid_ranges_are_accepted() {
    let mut p = make_parser();
    let rs = vec![byte_range(0, 5), byte_range(10, 20)];
    assert_eq!(p.set_included_ranges(rs.clone()), Ok(()));
    assert_eq!(p.included_ranges(), &rs);
}

#[test]
fn overlapping_ranges_keep_previous_configuration() {
    let mut p = make_parser();
    let first = vec![byte_range(0, 5), byte_range(10, 20)];
    assert_eq!(p.set_included_ranges(first.clone()), Ok(()));
    let overlapping = vec![byte_range(0, 10), byte_range(5, 15)];
    assert_eq!(p.set_included_ranges(overlapping), Err(Error::InvalidRanges));
    assert_eq!(p.included_ranges(), &first);
}

#[test]
fn backwards_range_is_rejected() {
    let mut p = make_parser();
    assert_eq!(
        p.set_included_ranges(vec![byte_range(7, 3)]),
        Err(Error::InvalidRanges)
    );
    assert!(p.included_ranges().is_empty());
}

#[test]
fn range_checker_accepts_touching_ranges_and_empty_sets() {
    assert!(check_ranges(&vec![]));
    // A range may start exactly where its predecessor ends.
    assert!(check_ranges(&vec![byte_range(0, 5), byte_range(5, 9)]));
    assert!(!check_ranges(&vec![byte_range(0, 6), byte_range(5, 9)]));
    assert!(!check_ranges(&vec![byte_range(4, 2)]));
}

#[test]
fn error_kinds_describe_themselves() {
    assert!(!Error::InvalidRanges.describe().is_empty());
    assert!(!Error::BorrowConflict.describe().is_empty());
    assert!(!Error::EngineAborted.describe().is_empty());
}
