use glyphmesh::atlas::{AtlasError, AtlasLayout, glyph_to_uv_rect};

#[test]
fn atlas_rejects_empty_grid() {
    assert_eq!(AtlasLayout::new(0, 8), Err(AtlasError::ZeroColumns));
    assert_eq!(AtlasLayout::new(8, 0), Err(AtlasError::ZeroRows));
    assert_eq!(AtlasLayout::new(0, 0), Err(AtlasError::ZeroColumns));
    assert!(AtlasLayout::new(1, 1).is_ok());
}

#[test]
fn atlas_glyph_nine_of_eight_by_eight() {
    let layout = AtlasLayout::new(8, 8).unwrap();
    let rect = glyph_to_uv_rect(9, &layout);
    // Row 1, column 1; top-left UV is (0.125, 0.125).
    assert_eq!((rect.top_left.u.num, rect.top_left.u.den), (1, 8));
    assert_eq!((rect.top_left.v.num, rect.top_left.v.den), (1, 8));
    assert_eq!(rect.top_left.u.num as f32 / rect.top_left.u.den as f32, 0.125);
    assert_eq!(rect.top_left.v.num as f32 / rect.top_left.v.den as f32, 0.125);
}

#[test]
fn atlas_corner_order_is_fixed() {
    let layout = AtlasLayout::new(4, 2).unwrap();
    // Glyph 5: row 1, column 1 of a 4x2 grid.
    let rect = glyph_to_uv_rect(5, &layout);
    assert_eq!((rect.top_left.u.num, rect.top_left.u.den), (1, 4));
    assert_eq!((rect.top_left.v.num, rect.top_left.v.den), (1, 2));
    assert_eq!((rect.bottom_left.u.num, rect.bottom_left.v.num), (1, 2));
    assert_eq!((rect.bottom_right.u.num, rect.bottom_right.v.num), (2, 2));
    assert_eq!((rect.top_right.u.num, rect.top_right.v.num), (2, 1));
}

#[test]
fn atlas_total_over_grid_and_fallback_outside() {
    let layout = AtlasLayout::new(8, 8).unwrap();
    // Every id inside the grid resolves to its own cell.
    let last = glyph_to_uv_rect(63, &layout);
    assert_eq!((last.top_left.u.num, last.top_left.v.num), (7, 7));
    // An id outside the grid falls back to cell 0.
    let miss = glyph_to_uv_rect(64, &layout);
    assert_eq!((miss.top_left.u.num, miss.top_left.v.num), (0, 0));
    assert_eq!((miss.bottom_right.u.num, miss.bottom_right.v.num), (1, 1));
    let far_miss = glyph_to_uv_rect(u32::MAX, &layout);
    assert_eq!((far_miss.top_left.u.num, far_miss.top_left.v.num), (0, 0));
}
