use tileworld::codec::MapError;
use tileworld::map::TileMap;

const CELL: i64 = 90_000;

#[test]
fn round_trip_identity() {
    let text = b"0123\n4567\n8901\n";
    let m = TileMap::from_bytes(text, CELL, true).unwrap();
    assert_eq!(m.width, 4);
    assert_eq!(m.height, 3);
    assert_eq!(m.cell_kind(0, 0), 0);
    assert_eq!(m.cell_kind(1, 3), 7);
    assert_eq!(m.cell_kind(2, 1), 9);
    let out = m.to_bytes();
    assert_eq!(out, text.to_vec());
}

#[test]
fn round_trip_after_mutation() {
    let text = b"111\n151\n161\n";
    let mut m = TileMap::from_bytes(text, CELL, true).unwrap();
    m.open_door_at(1, 1);
    let out = m.to_bytes();
    let m2 = TileMap::from_bytes(&out, CELL, true).unwrap();
    for r in 0..3 {
        for c in 0..3 {
            assert_eq!(m.cell_kind(r, c), m2.cell_kind(r, c));
        }
    }
}

#[test]
fn empty_text_refused() {
    let r = TileMap::from_bytes(b"", CELL, false);
    assert!(matches!(r, Err(MapError::Empty)));
}

#[test]
fn empty_first_row_refused() {
    let r = TileMap::from_bytes(b"\n123\n", CELL, false);
    assert!(matches!(r, Err(MapError::Empty)));
}

#[test]
fn ragged_rows_refused() {
    let r = TileMap::from_bytes(b"123\n45\n", CELL, false);
    assert!(matches!(r, Err(MapError::Ragged)));
}

#[test]
fn unterminated_tail_dropped() {
    let m = TileMap::from_bytes(b"12\n34", CELL, false).unwrap();
    assert_eq!(m.height, 1);
    assert_eq!(m.width, 2);
    assert_eq!(m.cell_kind(0, 0), 1);
    assert_eq!(m.cell_kind(0, 1), 2);
}

#[test]
fn no_newline_at_all_refused() {
    let r = TileMap::from_bytes(b"12", CELL, false);
    assert!(matches!(r, Err(MapError::Empty)));
}

#[test]
fn trailing_non_digits_ignored() {
    let m = TileMap::from_bytes(b"12x\n34 \n", CELL, false).unwrap();
    assert_eq!(m.height, 2);
    assert_eq!(m.width, 2);
    assert_eq!(m.cell_kind(1, 0), 3);
    assert_eq!(m.cell_kind(1, 1), 4);
}

#[test]
fn oversized_grid_refused() {
    let mut text = String::with_capacity(1_000_010);
    text.push_str(&"0".repeat(1_000_001));
    text.push('\n');
    let r = TileMap::from_bytes(text.as_bytes(), CELL, false);
    assert!(matches!(r, Err(MapError::TooLarge)));
}

#[test]
fn fresh_map_serializes_to_ones() {
    let m = TileMap::new(3, 2, CELL, false);
    assert_eq!(m.to_bytes(), b"111\n111\n".to_vec());
}

#[test]
fn out_of_range_cells_read_empty() {
    let m = TileMap::new(3, 2, CELL, true);
    assert_eq!(m.cell_kind(-1, 0), 0);
    assert_eq!(m.cell_kind(0, -1), 0);
    assert_eq!(m.cell_kind(2, 0), 0);
    assert_eq!(m.cell_kind(0, 3), 0);
    assert_eq!(m.cell_kind(1_000_000_000, 1_000_000_000), 0);
}

#[test]
fn set_kind_out_of_range_is_noop() {
    let mut m = TileMap::new(2, 2, CELL, true);
    m.set_kind(5, 5, 9);
    assert_eq!(m.to_bytes(), b"11\n11\n".to_vec());
}
