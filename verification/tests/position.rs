use parse_coord::position::{offset_to_point, point_to_offset, BytePos, Point};
use parse_coord::ranges::span_range;

#[test]
fn offset_to_point_counts_lines_and_byte_columns() {
    let doc: Vec<u8> = b"ab\ncd\n\nefg".to_vec();
    let p = offset_to_point(&doc, 0);
    assert_eq!((p.row, p.column), (0, 0));
    let p = offset_to_point(&doc, 2);
    assert_eq!((p.row, p.column), (0, 2));
    let p = offset_to_point(&doc, 3);
    assert_eq!((p.row, p.column), (1, 0));
    let p = offset_to_point(&doc, 6);
    assert_eq!((p.row, p.column), (2, 0));
    let p = offset_to_point(&doc, 7);
    assert_eq!((p.row, p.column), (3, 0));
    let p = offset_to_point(&doc, 10);
    assert_eq!((p.row, p.column), (3, 3));
}

#[test]
fn byte_column_counts_bytes_not_glyphs() {
    // "é" is two bytes in UTF-8, so the column after it is 3, not 2.
    let doc: Vec<u8> = "aé b\ncd".as_bytes().to_vec();
    let p = offset_to_point(&doc, 3);
    assert_eq!((p.row, p.column), (0, 3));
    let p = offset_to_point(&doc, 6);
    assert_eq!((p.row, p.column), (1, 0));
}

#[test]
fn position_round_trip_holds_for_every_offset() {
    let doc: Vec<u8> = "one\ntwö\n\nfour bytes\n".as_bytes().to_vec();
    for off in 0..=doc.len() {
        let p = offset_to_point(&doc, off);
        let back = point_to_offset(&doc, p);
        assert_eq!(back, off);
    }
}

#[test]
fn point_to_offset_finds_interior_positions() {
    let doc: Vec<u8> = b"alpha\nbeta\ngamma".to_vec();
    assert_eq!(point_to_offset(&doc, Point { row: 1, column: 2 }), 8);
    assert_eq!(point_to_offset(&doc, Point { row: 2, column: 5 }), 16);
}

#[test]
fn host_boundary_is_one_based() {
    let pos = BytePos::new(0);
    assert_eq!(pos.host_value(), 1);
    assert_eq!(BytePos::from_host(1), BytePos::new(0));
    assert_eq!(BytePos::from_host(42).offset, 41);

    let point = Point { row: 0, column: 7 };
    assert_eq!(point.line_number(), 1);
    assert_eq!(point.byte_column(), 7);
    assert_eq!(Point::from_line_column(3, 4), Point { row: 2, column: 4 });
}

#[test]
fn span_range_carries_both_representations() {
    let doc: Vec<u8> = b"ab\ncd\nef".to_vec();
    let r = span_range(&doc, 1, 7);
    assert_eq!(r.start_byte, 1);
    assert_eq!(r.end_byte, 7);
    assert_eq!(r.start_point, Point { row: 0, column: 1 });
    assert_eq!(r.end_point, Point { row: 2, column: 1 });
}
