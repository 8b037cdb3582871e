use glyphmesh::atlas::AtlasLayout;
use glyphmesh::glyphs::{
    FALLBACK_GLYPH, GlyphTable, GlyphTableError, character_quads_from_str, default_table,
};
use glyphmesh::rational::Rat;
use glyphmesh::text::{Pos3, TextVecs};

fn rat(num: i64, den: i64) -> Rat {
    Rat { num, den }
}

#[test]
fn glyphs_default_table_validates() {
    assert!(default_table().is_ok());
}

#[test]
fn glyphs_default_table_lookups() {
    let table = default_table().unwrap();
    assert_eq!(table.lookup('A'), Some(0));
    assert_eq!(table.lookup('Z'), Some(25));
    assert_eq!(table.lookup('a'), Some(26));
    assert_eq!(table.lookup('h'), Some(33));
    assert_eq!(table.lookup('j'), Some(34));
    assert_eq!(table.lookup('n'), Some(38));
    // Cell 39 of the atlas sheet is unused: 'o' starts at 40.
    assert_eq!(table.lookup('o'), Some(40));
    assert_eq!(table.lookup('u'), Some(46));
    assert_eq!(table.lookup('y'), Some(50));
    assert_eq!(table.lookup('z'), Some(51));
    assert_eq!(table.lookup(' '), Some(52));
    // The sheet has no cell for 'i'; it is deliberately absent.
    assert_eq!(table.lookup('i'), None);
    assert_eq!(table.glyph_for('i'), FALLBACK_GLYPH);
    assert_eq!(table.glyph_for('!'), FALLBACK_GLYPH);
}

#[test]
fn glyphs_duplicate_keys_rejected() {
    let dup = GlyphTable::new(vec![('a', 0), ('b', 1), ('a', 2)]);
    assert_eq!(dup, Err(GlyphTableError::DuplicateKey));
    let ok = GlyphTable::new(vec![('a', 0), ('b', 0)]);
    assert!(ok.is_ok());
}

#[test]
fn glyphs_layout_advances_by_size() {
    let table = default_table().unwrap();
    let origin = Pos3 { x: rat(10, 1), y: rat(20, 1), z: rat(0, 1) };
    let quads = character_quads_from_str("AB C", origin, rat(5, 1), &table);
    assert_eq!(quads.len(), 4);
    let xs: Vec<i64> = quads.iter().map(|q| q.position.x.num / q.position.x.den).collect();
    assert_eq!(xs, vec![10, 15, 20, 25]);
    for q in &quads {
        assert_eq!(q.position.y.num * 1, 20 * q.position.y.den);
        assert_eq!(q.position.z.num, 0);
        assert_eq!((q.size.w.num, q.size.w.den), (5, 1));
        assert_eq!((q.size.h.num, q.size.h.den), (5, 1));
    }
    assert_eq!(quads[0].character, 0);
    assert_eq!(quads[1].character, 1);
    assert_eq!(quads[2].character, 52);
    assert_eq!(quads[3].character, 2);
}

#[test]
fn glyphs_layout_fractional_size() {
    let table = default_table().unwrap();
    // Origin -1/2, advance 1/10: the classic normalized-coordinates layout.
    let origin = Pos3 { x: rat(-1, 2), y: rat(1, 2), z: rat(0, 1) };
    let quads = character_quads_from_str("ok", origin, rat(1, 10), &table);
    assert_eq!(quads.len(), 2);
    // x_0 == -1/2, x_1 == -1/2 + 1/10 == -2/5, by cross-multiplied value.
    let x0 = quads[0].position.x;
    let x1 = quads[1].position.x;
    assert_eq!(x0.num * 2, -1 * x0.den);
    assert_eq!(x1.num * 5, -2 * x1.den);
    assert_eq!(quads[0].character, 40);
    assert_eq!(quads[1].character, 35);
}

#[test]
fn glyphs_layout_empty_text() {
    let table = default_table().unwrap();
    let origin = Pos3 { x: rat(0, 1), y: rat(0, 1), z: rat(0, 1) };
    let quads = character_quads_from_str("", origin, rat(1, 1), &table);
    assert!(quads.is_empty());
}

#[test]
fn glyphs_layout_feeds_mesh_builder() {
    let table = default_table().unwrap();
    let origin = Pos3 { x: rat(150, 1), y: rat(150, 1), z: rat(0, 1) };
    let quads = character_quads_from_str("Test", origin, rat(50, 1), &table);
    let layout = AtlasLayout::new(8, 8).unwrap();
    let mesh = TextVecs::from_quads(&quads, &layout);
    assert_eq!(mesh.vertices.len(), 16);
    assert_eq!(mesh.indices.len(), 24);
    assert!(mesh.indices.iter().all(|&ix| ix < 16));
}
