use glyphmesh::atlas::AtlasLayout;
use glyphmesh::rational::Rat;
use glyphmesh::text::{CharacterQuad, Pos3, Size2, TextVecs};

fn rat(num: i64, den: i64) -> Rat {
    Rat { num, den }
}

fn quad(x: i64, y: i64, z: i64, w: i64, h: i64, character: u32) -> CharacterQuad {
    CharacterQuad {
        position: Pos3 { x: rat(x, 1), y: rat(y, 1), z: rat(z, 1) },
        size: Size2 { w: rat(w, 1), h: rat(h, 1) },
        character,
    }
}

fn layout_8x8() -> AtlasLayout {
    AtlasLayout::new(8, 8).unwrap()
}

#[test]
fn mesh_counts_and_index_bounds() {
    let quads = vec![quad(0, 0, 0, 1, 1, 0), quad(10, 20, 0, 5, 8, 3), quad(-4, -4, 1, 2, 2, 63)];
    let mesh = TextVecs::from_quads(&quads, &layout_8x8());
    assert_eq!(mesh.vertices.len(), 12);
    assert_eq!(mesh.indices.len(), 18);
    for &ix in &mesh.indices {
        assert!(ix < 12);
    }
}

#[test]
fn mesh_empty_input_yields_empty_mesh() {
    let quads: Vec<CharacterQuad> = Vec::new();
    let mesh = TextVecs::from_quads(&quads, &layout_8x8());
    assert!(mesh.vertices.is_empty());
    assert!(mesh.indices.is_empty());
}

#[test]
fn mesh_single_quad_corner_positions() {
    let mesh = TextVecs::from_quads(&vec![quad(10, 20, 0, 5, 8, 0)], &layout_8x8());
    let expect = [(10, 20), (10, 12), (15, 12), (15, 20)];
    assert_eq!(mesh.vertices.len(), 4);
    for (v, (ex, ey)) in mesh.vertices.iter().zip(expect.iter()) {
        assert_eq!(v.position.x.num * 1, *ex * v.position.x.den);
        assert_eq!(v.position.y.num * 1, *ey * v.position.y.den);
        assert_eq!(v.position.z.num, 0);
    }
}

#[test]
fn mesh_index_pattern_per_quad() {
    let mesh = TextVecs::from_quad(quad(0, 0, 0, 1, 1, 0), Some(2), &layout_8x8());
    assert_eq!(mesh.indices, vec![9, 11, 8, 9, 10, 11]);
    let mesh0 = TextVecs::from_quad(quad(0, 0, 0, 1, 1, 0), None, &layout_8x8());
    assert_eq!(mesh0.indices, vec![1, 3, 0, 1, 2, 3]);
}

#[test]
fn mesh_deterministic_byte_identical() {
    let quads = vec![quad(1, 2, 0, 3, 4, 7), quad(-5, 6, 1, 2, 2, 100)];
    let layout = layout_8x8();
    let m1 = TextVecs::from_quads(&quads, &layout);
    let m2 = TextVecs::from_quads(&quads, &layout);
    assert_eq!(m1, m2);
}

#[test]
fn mesh_permutation_moves_blocks_only() {
    let a = quad(1, 2, 0, 3, 4, 7);
    let b = quad(-5, 6, 1, 2, 2, 9);
    let layout = layout_8x8();
    let m_ab = TextVecs::from_quads(&vec![a, b], &layout);
    let m_ba = TextVecs::from_quads(&vec![b, a], &layout);
    // a's block is block 0 in the first mesh and block 1 in the second.
    assert_eq!(&m_ab.vertices[0..4], &m_ba.vertices[4..8]);
    assert_eq!(&m_ab.vertices[4..8], &m_ba.vertices[0..4]);
    for j in 0..6 {
        assert_eq!(m_ab.indices[j], m_ba.indices[6 + j] - 4);
        assert_eq!(m_ab.indices[6 + j], m_ba.indices[j] + 4);
    }
}

#[test]
fn mesh_degenerate_size_accepted() {
    // Zero and negative sizes build degenerate quads, not errors.
    let mesh = TextVecs::from_quads(
        &vec![quad(0, 0, 0, 0, 0, 0), quad(5, 5, 0, -3, -2, 1)],
        &layout_8x8(),
    );
    assert_eq!(mesh.vertices.len(), 8);
    assert_eq!(mesh.indices.len(), 12);
    // The inverted quad's far corner lies left of and above the anchor.
    let v = &mesh.vertices[6];
    assert_eq!(v.position.x.num, 5 - 3);
    assert_eq!(v.position.y.num, 5 + 2);
}

#[test]
fn mesh_vertex_uvs_match_cell() {
    // Glyph 9 of an 8x8 grid sits at row 1, column 1.
    let mesh = TextVecs::from_quads(&vec![quad(0, 0, 0, 1, 1, 9)], &layout_8x8());
    let tl = &mesh.vertices[0].tex_coords;
    assert_eq!((tl.u.num, tl.u.den), (1, 8));
    assert_eq!((tl.v.num, tl.v.den), (1, 8));
    let br = &mesh.vertices[2].tex_coords;
    assert_eq!((br.u.num, br.u.den), (2, 8));
    assert_eq!((br.v.num, br.v.den), (2, 8));
}
