use throne::walls::{parse_walls, spawn_wall, spawn_walls, Wall};
use throne::Vec2;

#[test]
fn single_record() {
    let walls = parse_walls(b"0 1 2 3 4\n").expect("well-formed layout");
    assert_eq!(walls.len(), 1);
    assert_eq!(walls[0], Wall { idx: 0, x: 1_000, y: 2_000, width: 3_000, height: 4_000 });
}

#[test]
fn fractions_read_exactly() {
    let walls = parse_walls(b"1 -0.5 2.25 10.125 0.5").expect("well-formed layout");
    assert_eq!(walls.len(), 1);
    assert_eq!(walls[0], Wall { idx: 1, x: -500, y: 2_250, width: 10_125, height: 500 });
}

#[test]
fn blank_lines_and_padding_skipped() {
    let data = b"\n  \t\n  2   -1.5 3   16 24  \n\n10 0 0 1 1\n";
    let walls = parse_walls(data).expect("well-formed layout");
    assert_eq!(walls.len(), 2);
    assert_eq!(walls[0], Wall { idx: 2, x: -1_500, y: 3_000, width: 16_000, height: 24_000 });
    assert_eq!(walls[1], Wall { idx: 10, x: 0, y: 0, width: 1_000, height: 1_000 });
}

#[test]
fn crlf_lines_accepted() {
    let walls = parse_walls(b"0 1 2 3 4\r\n1 5 6 7 8\r\n").expect("well-formed layout");
    assert_eq!(walls.len(), 2);
    assert_eq!(walls[1], Wall { idx: 1, x: 5_000, y: 6_000, width: 7_000, height: 8_000 });
}

#[test]
fn empty_input_is_empty_layout() {
    assert_eq!(parse_walls(b"").expect("empty layout"), vec![]);
}

#[test]
fn bad_line_is_named() {
    let err = parse_walls(b"0 1 2 3 4\nnot a record\n").expect_err("malformed layout");
    assert_eq!(err.line, 2);
}

#[test]
fn missing_field_rejected() {
    let err = parse_walls(b"0 1 2 3\n").expect_err("four fields are not a record");
    assert_eq!(err.line, 1);
}

#[test]
fn negative_size_rejected() {
    let err = parse_walls(b"0 1 2 -3 4\n").expect_err("a size carries no sign");
    assert_eq!(err.line, 1);
}

#[test]
fn four_fraction_digits_rejected() {
    let err = parse_walls(b"0 1.0001 2 3 4\n").expect_err("at most three fraction digits");
    assert_eq!(err.line, 1);
}

#[test]
fn coordinate_range_boundary() {
    // A billion units is the largest coordinate; one more is out of range.
    assert!(parse_walls(b"0 1000000000 0 1 1\n").is_ok());
    let err = parse_walls(b"0 1000000001 0 1 1\n").expect_err("out of range");
    assert_eq!(err.line, 1);
}

#[test]
fn huge_index_rejected() {
    let err = parse_walls(b"4294967296 0 0 1 1\n").expect_err("index above u32");
    assert_eq!(err.line, 1);
    assert!(parse_walls(b"4294967295 0 0 1 1\n").is_ok());
}

#[test]
fn trailing_junk_rejected() {
    let err = parse_walls(b"0 1 2 3 4 5\n").expect_err("six fields are not a record");
    assert_eq!(err.line, 1);
}

#[test]
fn placement_centers_the_wall() {
    let wall = Wall { idx: 0, x: 10_000, y: 20_000, width: 4_000, height: 6_000 };
    let p = spawn_wall(&wall);
    assert_eq!(p.translation, Vec2::new(12_000, 23_000));
    assert_eq!(p.sprite_size, Vec2::new(4_000, 6_000));
    assert_eq!(p.collider_half, Vec2::new(2_000, 3_000));
}

#[test]
fn spawn_walls_places_every_record() {
    let placements = spawn_walls(b"0 0 0 10 10\n1 -5 -5 2 2\n").expect("well-formed layout");
    assert_eq!(placements.len(), 2);
    assert_eq!(placements[0].translation, Vec2::new(5_000, 5_000));
    assert_eq!(placements[1].translation, Vec2::new(-4_000, -4_000));
}
