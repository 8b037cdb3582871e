//! Mesh builder: turns an ordered sequence of glyph quads into one
//! interleaved vertex array and one index array, preserving draw order.
//!
//! Each quad contributes exactly 4 vertices (top-left, bottom-left,
//! bottom-right, top-right) and 6 indices in the fixed two-triangle pattern
//! `[1, 3, 0, 1, 2, 3]`, offset by four times the quad's ordinal position.
//! The quad's anchor is its top-left corner in a Y-up world: the height is
//! subtracted downward from the anchor's y. A zero or negative size is
//! accepted and yields a degenerate quad, never an error.

use vstd::prelude::*;
use crate::atlas::{AtlasLayout, Uv, uv_rect_spec, glyph_to_uv_rect};
use crate::rational::{Rat, Q, q_add, q_sub};

verus! {

/// Largest magnitude allowed for the numerator and denominator of a quad
/// coordinate handed to the mesh builder. The bound keeps the `i64`
/// products formed by one rational addition or subtraction in range.
pub const COORD_BOUND: i64 = 0x4000_0000;

/// A point in world space.
#[derive(Clone, Copy, Debug, PartialEq, Eq, Structural)]
pub struct Pos3 {
    pub x: Rat,
    pub y: Rat,
    pub z: Rat,
}

impl Pos3 {
    pub open spec fn wf(self) -> bool {
        self.x.wf() && self.y.wf() && self.z.wf()
    }
}

/// A quad extent: width and height.
#[derive(Clone, Copy, Debug, PartialEq, Eq, Structural)]
pub struct Size2 {
    pub w: Rat,
    pub h: Rat,
}

impl Size2 {
    pub open spec fn wf(self) -> bool {
        self.w.wf() && self.h.wf()
    }
}

/// The semantic unit of drawable geometry: one glyph placement. The anchor
/// `position` is the quad's top-left corner; `character` is the glyph id
/// looked up in the atlas grid.
#[derive(Clone, Copy, Debug, PartialEq, Eq, Structural)]
pub struct CharacterQuad {
    pub position: Pos3,
    pub size: Size2,
    pub character: u32,
}

impl CharacterQuad {
    pub open spec fn wf(self) -> bool {
        self.position.wf() && self.size.wf()
    }

    /// Every coordinate of the quad bounded by `COORD_BOUND`, so that the
    /// corner arithmetic stays inside `i64`.
    pub open spec fn in_range(self) -> bool {
        &&& self.position.x.in_range(COORD_BOUND as int)
        &&& self.position.y.in_range(COORD_BOUND as int)
        &&& self.position.z.in_range(COORD_BOUND as int)
        &&& self.size.w.in_range(COORD_BOUND as int)
        &&& self.size.h.in_range(COORD_BOUND as int)
    }
}

/// The exact machine-limit conditions under which the two corner sums
/// `x + w` and `y - h` of a quad stay inside `i64`. This is what the mesh
/// builder requires of each quad; `lemma_in_range_corner_safe` gives it for
/// any quad whose coordinates are bounded by `COORD_BOUND`.
pub open spec fn corner_ops_safe(q: CharacterQuad) -> bool {
    &&& q.wf()
    &&& i64::MIN <= q.position.x.num * q.size.w.den <= i64::MAX
    &&& i64::MIN <= q.size.w.num * q.position.x.den <= i64::MAX
    &&& i64::MIN <= q.position.x.num * q.size.w.den + q.size.w.num * q.position.x.den <= i64::MAX
    &&& q.position.x.den * q.size.w.den <= i64::MAX
    &&& i64::MIN <= q.position.y.num * q.size.h.den <= i64::MAX
    &&& i64::MIN <= q.size.h.num * q.position.y.den <= i64::MAX
    &&& i64::MIN <= q.position.y.num * q.size.h.den - q.size.h.num * q.position.y.den <= i64::MAX
    &&& q.position.y.den * q.size.h.den <= i64::MAX
}

/// A quad whose coordinates are bounded by `COORD_BOUND` satisfies the
/// corner-arithmetic side conditions.
pub proof fn lemma_in_range_corner_safe(q: CharacterQuad)
    requires
        q.wf(),
        q.in_range(),
    ensures
        corner_ops_safe(q),
{
    crate::rational::lemma_ops_safe(
        q.position.x,
        q.size.w,
        COORD_BOUND as int,
        COORD_BOUND as int,
    );
    crate::rational::lemma_ops_safe(
        q.position.y,
        q.size.h,
        COORD_BOUND as int,
        COORD_BOUND as int,
    );
}

/// One interleaved vertex: position first, then the texture coordinate.
#[derive(Clone, Copy, Debug, PartialEq, Eq, Structural)]
pub struct CharacterVertex {
    pub position: Pos3,
    pub tex_coords: Uv,
}

impl CharacterVertex {
    pub open spec fn wf(self) -> bool {
        self.position.wf() && self.tex_coords.wf()
    }
}

/// The mesh: one vertex sequence and one index sequence, rebuilt wholesale
/// from the quad list on every change.
#[derive(Debug, PartialEq, Eq)]
pub struct TextVecs {
    pub vertices: Vec<CharacterVertex>,
    pub indices: Vec<u32>,
}

/// The world position of corner `j` (0 top-left, 1 bottom-left,
/// 2 bottom-right, 3 top-right) of a quad, as exact rational values.
pub open spec fn corner_position(q: CharacterQuad, j: int) -> (Q, Q, Q) {
    let x1 = q.position.x.val();
    let y1 = q.position.y.val();
    let z = q.position.z.val();
    let x2 = q_add(q.position.x.val(), q.size.w.val());
    let y2 = q_sub(q.position.y.val(), q.size.h.val());
    if j == 0 {
        (x1, y1, z)
    } else if j == 1 {
        (x1, y2, z)
    } else if j == 2 {
        (x2, y2, z)
    } else {
        (x2, y1, z)
    }
}

/// The texture coordinate of corner `j` of a quad: the atlas-cell corner of
/// the same name, in the same order as `corner_position`.
pub open spec fn corner_uv(q: CharacterQuad, layout: AtlasLayout, j: int) -> (Q, Q) {
    let rect = uv_rect_spec(q.character, layout);
    if j == 0 {
        (rect.top_left.u.val(), rect.top_left.v.val())
    } else if j == 1 {
        (rect.bottom_left.u.val(), rect.bottom_left.v.val())
    } else if j == 2 {
        (rect.bottom_right.u.val(), rect.bottom_right.v.val())
    } else {
        (rect.top_right.u.val(), rect.top_right.v.val())
    }
}

/// `v` is exactly corner `j` of quad `q`: its position and texture
/// coordinate carry the values of `corner_position` and `corner_uv`.
pub open spec fn is_quad_vertex(
    v: CharacterVertex,
    q: CharacterQuad,
    layout: AtlasLayout,
    j: int,
) -> bool {
    &&& (v.position.x.val(), v.position.y.val(), v.position.z.val()) == corner_position(q, j)
    &&& (v.tex_coords.u.val(), v.tex_coords.v.val()) == corner_uv(q, layout, j)
    &&& v.wf()
}

/// Entry `j` of the fixed per-quad index pattern `[1, 3, 0, 1, 2, 3]`: two
/// triangles `(v1, v3, v0)` and `(v1, v2, v3)`, splitting the quad along the
/// diagonal from bottom-left to top-right.
pub open spec fn index_pattern(j: int) -> int {
    if j == 0 {
        1
    } else if j == 1 {
        3
    } else if j == 2 {
        0
    } else if j == 3 {
        1
    } else if j == 4 {
        2
    } else {
        3
    }
}

/// `m` is exactly the mesh built from `quads` over `layout`: `4N` vertices
/// and `6N` indices, where block `k` holds the four corners of quad `k` and
/// its six pattern indices offset by `4k`.
pub open spec fn mesh_of(quads: Seq<CharacterQuad>, layout: AtlasLayout, m: TextVecs) -> bool {
    &&& m.vertices.len() == 4 * quads.len()
    &&& m.indices.len() == 6 * quads.len()
    &&& forall|i: int|
        0 <= i < m.vertices.len() ==> is_quad_vertex(
            #[trigger] m.vertices@[i],
            quads[i / 4],
            layout,
            i % 4,
        )
    &&& forall|i: int|
        0 <= i < m.indices.len() ==> (#[trigger] m.indices@[i]) as int == 4 * (i / 6)
            + index_pattern(i % 6)
}

/// The ordinal position a quad's index block is offset by.
pub open spec fn offset_val(offset: Option<u32>) -> int {
    match offset {
        Some(o) => o as int,
        None => 0,
    }
}

impl TextVecs {
    /// The mesh of a single quad whose ordinal position in its batch is
    /// `offset` (absent means 0): four corner vertices in the fixed order
    /// and the six pattern indices offset by `4 * offset`.
    pub fn from_quad(quad: CharacterQuad, offset: Option<u32>, layout: &AtlasLayout) -> (r:
        TextVecs)
        requires
            layout.wf(),
            corner_ops_safe(quad),
            offset_val(offset) <= 0x3fff_ffff,
        ensures
            r.vertices.len() == 4,
            r.indices.len() == 6,
            forall|j: int| 0 <= j < 4 ==> is_quad_vertex(r.vertices@[j], quad, *layout, j),
            forall|j: int|
                0 <= j < 6 ==> r.indices@[j] as int == 4 * offset_val(offset) + index_pattern(j),
    {
        let offset: u32 = match offset {
            Some(o) => o,
            None => 0,
        };

        let rect = glyph_to_uv_rect(quad.character, layout);

        let x1 = quad.position.x;
        let x2 = quad.position.x.add(quad.size.w);
        let y1 = quad.position.y;
        let y2 = quad.position.y.sub(quad.size.h);
        let z = quad.position.z;

        let mut vertices: Vec<CharacterVertex> = Vec::new();
        vertices.push(
            CharacterVertex { position: Pos3 { x: x1, y: y1, z }, tex_coords: rect.top_left },
        );
        vertices.push(
            CharacterVertex { position: Pos3 { x: x1, y: y2, z }, tex_coords: rect.bottom_left },
        );
        vertices.push(
            CharacterVertex { position: Pos3 { x: x2, y: y2, z }, tex_coords: rect.bottom_right },
        );
        vertices.push(
            CharacterVertex { position: Pos3 { x: x2, y: y1, z }, tex_coords: rect.top_right },
        );

        let base: u32 = offset * 4;
        let mut indices: Vec<u32> = Vec::new();
        indices.push(base + 1);
        indices.push(base + 3);
        indices.push(base);
        indices.push(base + 1);
        indices.push(base + 2);
        indices.push(base + 3);

        TextVecs { vertices, indices }
    }

    /// Builds the whole mesh from an ordered quad list: a pure, deterministic
    /// function of the input sequence. Quad `k`'s vertices stand at positions
    /// `4k..4k+4` and its indices at `6k..6k+6`, so input order is preserved
    /// as draw order; an empty input yields an empty mesh.
    pub fn from_quads(quads: &Vec<CharacterQuad>, layout: &AtlasLayout) -> (r: TextVecs)
        requires
            layout.wf(),
            forall|k: int| 0 <= k < quads.len() ==> corner_ops_safe(#[trigger] quads@[k]),
            quads.len() <= 0x3fff_ffff,
        ensures
            mesh_of(quads@, *layout, r),
            forall|i: int| 0 <= i < r.indices.len() ==> (r.indices@[i] as int) < 4 * quads.len(),
    {
        let mut vertices: Vec<CharacterVertex> = Vec::new();
        let mut indices: Vec<u32> = Vec::new();
        let n = quads.len();
        let mut k: usize = 0;
        while k < n
            invariant
                n == quads.len(),
                n <= 0x3fff_ffff,
                k <= n,
                layout.wf(),
                forall|i: int| 0 <= i < quads.len() ==> corner_ops_safe(#[trigger] quads@[i]),
                vertices.len() == 4 * k,
                indices.len() == 6 * k,
                forall|i: int|
                    0 <= i < vertices.len() ==> is_quad_vertex(
                        #[trigger] vertices@[i],
                        quads@[i / 4],
                        *layout,
                        i % 4,
                    ),
                forall|i: int|
                    0 <= i < indices.len() ==> (#[trigger] indices@[i]) as int == 4 * (i / 6)
                        + index_pattern(i % 6),
            decreases n - k,
        {
            let mut part = TextVecs::from_quad(quads[k], Some(k as u32), layout);
            let ghost pre_v = vertices@;
            let ghost pre_i = indices@;
            let ghost pv = part.vertices@;
            let ghost pi = part.indices@;
            vertices.append(&mut part.vertices);
            indices.append(&mut part.indices);
            proof {
                assert forall|i: int|
                    0 <= i < vertices@.len() implies is_quad_vertex(
                    #[trigger] vertices@[i],
                    quads@[i / 4],
                    *layout,
                    i % 4,
                ) by {
                    if i < pre_v.len() {
                        assert(vertices@[i] == pre_v[i]);
                    } else {
                        let j = i - pre_v.len();
                        assert(vertices@[i] == pv[j]);
                        assert(i / 4 == k as int && i % 4 == j);
                        assert(is_quad_vertex(pv[j], quads@[k as int], *layout, j));
                    }
                }
                assert forall|i: int|
                    0 <= i < indices@.len() implies (#[trigger] indices@[i]) as int == 4 * (i / 6)
                    + index_pattern(i % 6) by {
                    if i < pre_i.len() {
                        assert(indices@[i] == pre_i[i]);
                    } else {
                        let j = i - pre_i.len();
                        assert(indices@[i] == pi[j]);
                        assert(i / 6 == k as int && i % 6 == j);
                        assert(pi[j] as int == 4 * (k as int) + index_pattern(j));
                    }
                }
            }
            k = k + 1;
        }
        let r = TextVecs { vertices, indices };
        proof {
            assert forall|i: int| 0 <= i < r.indices.len() implies (r.indices@[i] as int) < 4
                * quads.len() by {
                assert(r.indices@[i] as int == 4 * (i / 6) + index_pattern(i % 6));
                assert(i / 6 < quads.len());
                assert(index_pattern(i % 6) <= 3);
            }
        }
        r
    }
}

/// Two meshes built from the same quad sequence are identical: the mesh is a
/// deterministic function of its input.
pub proof fn lemma_mesh_deterministic(
    quads: Seq<CharacterQuad>,
    layout: AtlasLayout,
    m1: TextVecs,
    m2: TextVecs,
)
    requires
        mesh_of(quads, layout, m1),
        mesh_of(quads, layout, m2),
    ensures
        m1.vertices@ == m2.vertices@,
        m1.indices@ == m2.indices@,
{
    assert forall|i: int| 0 <= i < m1.vertices@.len() implies m1.vertices@[i] == m2.vertices@[i] by {
        assert(is_quad_vertex(m1.vertices@[i], quads[i / 4], layout, i % 4));
        assert(is_quad_vertex(m2.vertices@[i], quads[i / 4], layout, i % 4));
        lemma_vertex_determined(m1.vertices@[i], m2.vertices@[i], quads[i / 4], layout, i % 4);
    }
    assert(m1.vertices@ =~= m2.vertices@);
    assert forall|i: int| 0 <= i < m1.indices@.len() implies m1.indices@[i] == m2.indices@[i] by {
        assert(m1.indices@[i] as int == 4 * (i / 6) + index_pattern(i % 6));
        assert(m2.indices@[i] as int == 4 * (i / 6) + index_pattern(i % 6));
    }
    assert(m1.indices@ =~= m2.indices@);
}

/// Two vertices that both are corner `j` of the same quad are equal: the
/// corner predicate pins every field.
proof fn lemma_vertex_determined(
    v1: CharacterVertex,
    v2: CharacterVertex,
    q: CharacterQuad,
    layout: AtlasLayout,
    j: int,
)
    requires
        is_quad_vertex(v1, q, layout, j),
        is_quad_vertex(v2, q, layout, j),
    ensures
        v1 == v2,
{
    assert(v1.position.x.val() == v2.position.x.val());
    assert(v1.position.x == v2.position.x);
    assert(v1.position.y == v2.position.y);
    assert(v1.position.z == v2.position.z);
    assert(v1.tex_coords.u == v2.tex_coords.u);
    assert(v1.tex_coords.v == v2.tex_coords.v);
}

/// Moving a quad to another ordinal position changes only where its block
/// stands, not what it holds: vertex `j` of the block is unchanged, and
/// index `j` of the block moves by exactly four per ordinal step.
pub proof fn lemma_mesh_order_independent_content(
    quads1: Seq<CharacterQuad>,
    m1: TextVecs,
    quads2: Seq<CharacterQuad>,
    m2: TextVecs,
    layout: AtlasLayout,
    k1: int,
    k2: int,
    j: int,
)
    requires
        mesh_of(quads1, layout, m1),
        mesh_of(quads2, layout, m2),
        0 <= k1 < quads1.len(),
        0 <= k2 < quads2.len(),
        quads1[k1] == quads2[k2],
        0 <= j < 6,
    ensures
        j < 4 ==> m1.vertices@[4 * k1 + j] == m2.vertices@[4 * k2 + j],
        m1.indices@[6 * k1 + j] as int - 4 * k1 == m2.indices@[6 * k2 + j] as int - 4 * k2,
{
    if j < 4 {
        let i1 = 4 * k1 + j;
        let i2 = 4 * k2 + j;
        assert(i1 / 4 == k1 && i1 % 4 == j);
        assert(i2 / 4 == k2 && i2 % 4 == j);
        assert(is_quad_vertex(m1.vertices@[i1], quads1[k1], layout, j));
        assert(is_quad_vertex(m2.vertices@[i2], quads2[k2], layout, j));
        lemma_vertex_determined(m1.vertices@[i1], m2.vertices@[i2], quads1[k1], layout, j);
    }
    let i1 = 6 * k1 + j;
    let i2 = 6 * k2 + j;
    assert(i1 / 6 == k1 && i1 % 6 == j);
    assert(i2 / 6 == k2 && i2 % 6 == j);
    assert(m1.indices@[i1] as int == 4 * k1 + index_pattern(j));
    assert(m2.indices@[i2] as int == 4 * k2 + index_pattern(j));
}

/// The mesh of an empty quad sequence is empty: no vertices and no indices.
pub proof fn lemma_mesh_of_empty(layout: AtlasLayout, m: TextVecs)
    requires
        mesh_of(Seq::<CharacterQuad>::empty(), layout, m),
    ensures
        m.vertices@ == Seq::<CharacterVertex>::empty(),
        m.indices@ == Seq::<u32>::empty(),
{
    assert(m.vertices@ =~= Seq::<CharacterVertex>::empty());
    assert(m.indices@ =~= Seq::<u32>::empty());
}

} // verus!
