//! Character-to-glyph mapping and text layout.
//!
//! A `GlyphTable` is an explicit, validated mapping from characters to glyph
//! ids, built once at startup and injected where glyphs are resolved; its
//! constructor rejects duplicate keys, so no entry can silently overwrite
//! another. A character absent from the table is a lookup miss and resolves
//! to the fallback glyph, never an error.

use vstd::prelude::*;
use vstd::string::StrSliceExecFns;
use crate::rational::{Rat, q_add, q_mul};
use crate::text::{CharacterQuad, Pos3, Size2, corner_ops_safe};

verus! {

/// Largest magnitude allowed for the numerator and denominator of the
/// layout origin and glyph size, and so chosen that with a text of up to
/// `MAX_TEXT_LEN` characters every product the layout forms fits in `i64`.
pub const LAYOUT_BOUND: i64 = 0x2000;

/// Largest text length the layout accepts; see `LAYOUT_BOUND`.
pub const MAX_TEXT_LEN: usize = 0x10_0000;

/// The glyph id used for characters the table does not know.
pub const FALLBACK_GLYPH: u32 = 0;

/// Error from building a glyph table whose entries collide.
#[derive(Clone, Copy, Debug, PartialEq, Eq, Structural)]
pub enum GlyphTableError {
    DuplicateKey,
}

/// No two entries share a character key.
pub open spec fn no_duplicate_keys(s: Seq<(char, u32)>) -> bool {
    forall|i: int, j: int| 0 <= i < j < s.len() ==> (#[trigger] s[i]).0 != (#[trigger] s[j]).0
}

/// First match for `c` in the entry sequence.
pub open spec fn lookup_spec(s: Seq<(char, u32)>, c: char) -> Option<u32>
    decreases s.len(),
{
    if s.len() == 0 {
        None
    } else if s[0].0 == c {
        Some(s[0].1)
    } else {
        lookup_spec(s.drop_first(), c)
    }
}

/// The glyph id a character resolves to: its table entry, or the fallback
/// glyph on a lookup miss.
pub open spec fn glyph_or_fallback(s: Seq<(char, u32)>, c: char) -> u32 {
    match lookup_spec(s, c) {
        Some(g) => g,
        None => FALLBACK_GLYPH,
    }
}

/// A validated character-to-glyph mapping with pairwise distinct keys.
#[derive(Debug, PartialEq, Eq)]
pub struct GlyphTable {
    pub entries: Vec<(char, u32)>,
}

/// `lookup_spec` only sees the part of the sequence from the first match
/// on: skipping entries that do not hold `c` leaves the result unchanged.
proof fn lemma_lookup_skip(s: Seq<(char, u32)>, c: char, k: int)
    requires
        0 <= k <= s.len(),
        forall|j: int| 0 <= j < k ==> (#[trigger] s[j]).0 != c,
    ensures
        lookup_spec(s, c) == lookup_spec(s.skip(k), c),
    decreases k,
{
    if k > 0 {
        assert(s.skip(0) =~= s);
        assert(s.drop_first().skip(k - 1) =~= s.skip(k));
        lemma_lookup_skip(s.drop_first(), c, k - 1);
    } else {
        assert(s.skip(0) =~= s);
    }
}

impl GlyphTable {
    pub open spec fn wf(self) -> bool {
        no_duplicate_keys(self.entries@)
    }

    /// Builds a table from reviewed entries, rejecting any duplicate key.
    pub fn new(entries: Vec<(char, u32)>) -> (r: Result<GlyphTable, GlyphTableError>)
        ensures
            r is Ok <==> no_duplicate_keys(entries@),
            r is Ok ==> r->Ok_0 == (GlyphTable { entries }) && r->Ok_0.wf(),
            r is Err ==> r == Err::<GlyphTable, GlyphTableError>(GlyphTableError::DuplicateKey),
    {
        let n = entries.len();
        let mut i: usize = 0;
        while i < n
            invariant
                n == entries.len(),
                i <= n,
                forall|a: int, b: int|
                    0 <= a < b < entries.len() && a < i ==> (#[trigger] entries@[a]).0 != (
                    #[trigger] entries@[b]).0,
            decreases n - i,
        {
            let mut j: usize = i + 1;
            while j < n
                invariant
                    n == entries.len(),
                    i < j || i + 1 == j,
                    i < n,
                    i + 1 <= j <= n,
                    forall|b: int| i < b < j ==> (#[trigger] entries@[b]).0 != entries@[i as int].0,
                decreases n - j,
            {
                if entries[i].0 == entries[j].0 {
                    return Err(GlyphTableError::DuplicateKey);
                }
                j = j + 1;
            }
            i = i + 1;
        }
        Ok(GlyphTable { entries })
    }

    /// Looks a character up: the first entry holding it, a miss otherwise.
    pub fn lookup(&self, c: char) -> (r: Option<u32>)
        ensures
            r == lookup_spec(self.entries@, c),
    {
        let n = self.entries.len();
        let mut k: usize = 0;
        while k < n
            invariant
                n == self.entries.len(),
                k <= n,
                forall|j: int| 0 <= j < k ==> (#[trigger] self.entries@[j]).0 != c,
            decreases n - k,
        {
            let e = self.entries[k];
            if e.0 == c {
                proof {
                    lemma_lookup_skip(self.entries@, c, k as int);
                    assert(self.entries@.skip(k as int)[0] == self.entries@[k as int]);
                }
                return Some(e.1);
            }
            k = k + 1;
        }
        proof {
            lemma_lookup_skip(self.entries@, c, n as int);
        }
        None
    }

    /// The glyph id for `c`, falling back for characters the table lacks.
    pub fn glyph_for(&self, c: char) -> (r: u32)
        ensures
            r == glyph_or_fallback(self.entries@, c),
    {
        match self.lookup(c) {
            Some(g) => g,
            None => FALLBACK_GLYPH,
        }
    }
}

/// The entries of the builtin table, in atlas-cell order.
pub open spec fn default_entries_spec() -> Seq<(char, u32)> {
    seq![
        ('A', 0u32),
        ('B', 1u32),
        ('C', 2u32),
        ('D', 3u32),
        ('E', 4u32),
        ('F', 5u32),
        ('G', 6u32),
        ('H', 7u32),
        ('I', 8u32),
        ('J', 9u32),
        ('K', 10u32),
        ('L', 11u32),
        ('M', 12u32),
        ('N', 13u32),
        ('O', 14u32),
        ('P', 15u32),
        ('Q', 16u32),
        ('R', 17u32),
        ('S', 18u32),
        ('T', 19u32),
        ('U', 20u32),
        ('V', 21u32),
        ('W', 22u32),
        ('X', 23u32),
        ('Y', 24u32),
        ('Z', 25u32),
        ('a', 26u32),
        ('b', 27u32),
        ('c', 28u32),
        ('d', 29u32),
        ('e', 30u32),
        ('f', 31u32),
        ('g', 32u32),
        ('h', 33u32),
        ('j', 34u32),
        ('k', 35u32),
        ('l', 36u32),
        ('m', 37u32),
        ('n', 38u32),
        ('o', 40u32),
        ('p', 41u32),
        ('q', 42u32),
        ('r', 43u32),
        ('s', 44u32),
        ('t', 45u32),
        ('u', 46u32),
        ('v', 47u32),
        ('w', 48u32),
        ('x', 49u32),
        ('y', 50u32),
        ('z', 51u32),
        (' ', 52u32),
    ]
}

/// The builtin, reviewed table for the bundled atlas: capitals in cells
/// 0..=25, lower-case letters from cell 26 on, and the space glyph in cell
/// 52. The bundled atlas sheet has no cell for lower-case `i`, so `i` is
/// deliberately absent here and resolves to the fallback glyph; the sheet
/// also leaves cell 39 unused, so `o` through `z` sit in cells 40..=51.
/// The entries are validated for duplicate keys at construction, as any
/// injected table is.
pub fn default_table() -> (r: Result<GlyphTable, GlyphTableError>)
    ensures
        r is Ok <==> no_duplicate_keys(default_entries_spec()),
        r is Ok ==> r->Ok_0.wf() && r->Ok_0.entries@ == default_entries_spec(),
{
    let mut entries: Vec<(char, u32)> = Vec::new();
    entries.push(('A', 0));
    entries.push(('B', 1));
    entries.push(('C', 2));
    entries.push(('D', 3));
    entries.push(('E', 4));
    entries.push(('F', 5));
    entries.push(('G', 6));
    entries.push(('H', 7));
    entries.push(('I', 8));
    entries.push(('J', 9));
    entries.push(('K', 10));
    entries.push(('L', 11));
    entries.push(('M', 12));
    entries.push(('N', 13));
    entries.push(('O', 14));
    entries.push(('P', 15));
    entries.push(('Q', 16));
    entries.push(('R', 17));
    entries.push(('S', 18));
    entries.push(('T', 19));
    entries.push(('U', 20));
    entries.push(('V', 21));
    entries.push(('W', 22));
    entries.push(('X', 23));
    entries.push(('Y', 24));
    entries.push(('Z', 25));
    entries.push(('a', 26));
    entries.push(('b', 27));
    entries.push(('c', 28));
    entries.push(('d', 29));
    entries.push(('e', 30));
    entries.push(('f', 31));
    entries.push(('g', 32));
    entries.push(('h', 33));
    entries.push(('j', 34));
    entries.push(('k', 35));
    entries.push(('l', 36));
    entries.push(('m', 37));
    entries.push(('n', 38));
    entries.push(('o', 40));
    entries.push(('p', 41));
    entries.push(('q', 42));
    entries.push(('r', 43));
    entries.push(('s', 44));
    entries.push(('t', 45));
    entries.push(('u', 46));
    entries.push(('v', 47));
    entries.push(('w', 48));
    entries.push(('x', 49));
    entries.push(('y', 50));
    entries.push(('z', 51));
    entries.push((' ', 52));
    proof {
        assert(entries@ =~= default_entries_spec());
    }
    GlyphTable::new(entries)
}

/// Quad `q` is the placement of the `i`-th character `c` of a text run:
/// its glyph is `c`'s table entry (or the fallback), it sits `i` glyph
/// widths to the right of the origin at the origin's height and depth, and
/// both its extents equal the glyph size.
pub open spec fn layout_quad(
    entries: Seq<(char, u32)>,
    origin: Pos3,
    size: Rat,
    c: char,
    i: int,
    q: CharacterQuad,
) -> bool {
    &&& q.character == glyph_or_fallback(entries, c)
    &&& q.position.x.val() == q_add(origin.x.val(), q_mul(size.val(), (i, 1)))
    &&& q.position.x.wf()
    &&& q.position.y == origin.y
    &&& q.position.z == origin.z
    &&& q.size.w == size
    &&& q.size.h == size
    &&& corner_ops_safe(q)
}

/// Lays a text run out as one quad per character: character `i` stands at
/// `origin + (i * size, 0, 0)` with a square extent of `size`, and carries
/// its glyph id from the table (the fallback id for characters the table
/// lacks). The result feeds the mesh builder directly: every produced quad
/// satisfies its corner-arithmetic side conditions.
pub fn character_quads_from_str(
    text: &str,
    origin: Pos3,
    size: Rat,
    table: &GlyphTable,
) -> (r: Vec<CharacterQuad>)
    requires
        origin.x.in_range(LAYOUT_BOUND as int),
        origin.y.in_range(LAYOUT_BOUND as int),
        origin.z.in_range(LAYOUT_BOUND as int),
        size.in_range(LAYOUT_BOUND as int),
        text@.len() <= MAX_TEXT_LEN,
    ensures
        r.len() == text@.len(),
        forall|i: int|
            0 <= i < r.len() ==> layout_quad(
                table.entries@,
                origin,
                size,
                text@[i],
                i,
                #[trigger] r@[i],
            ),
{
    let n = text.unicode_len();
    let mut quads: Vec<CharacterQuad> = Vec::new();
    let mut i: usize = 0;
    while i < n
        invariant
            n == text@.len(),
            n <= MAX_TEXT_LEN,
            i <= n,
            quads.len() == i,
            origin.x.in_range(LAYOUT_BOUND as int),
            origin.y.in_range(LAYOUT_BOUND as int),
            origin.z.in_range(LAYOUT_BOUND as int),
            size.in_range(LAYOUT_BOUND as int),
            forall|k: int|
                0 <= k < i ==> layout_quad(
                    table.entries@,
                    origin,
                    size,
                    text@[k],
                    k,
                    #[trigger] quads@[k],
                ),
        decreases n - i,
    {
        let c = text.get_char(i);
        let glyph = table.glyph_for(c);
        let idx = Rat { num: i as i64, den: 1 };
        proof {
            assert(i64::MIN <= size.num * idx.num <= i64::MAX) by (nonlinear_arith)
                requires
                    -0x2000 <= size.num <= 0x2000,
                    0 <= idx.num <= 0x10_0000,
            ;
        }
        let step = size.mul(idx);
        proof {
            assert(-0x2_0000_0000 <= step.num <= 0x2_0000_0000) by (nonlinear_arith)
                requires
                    step.num == size.num * idx.num,
                    -0x2000 <= size.num <= 0x2000,
                    0 <= idx.num <= 0x10_0000,
            ;
            assert(step.den == size.den);
            crate::rational::lemma_ops_safe(
                origin.x,
                step,
                LAYOUT_BOUND as int,
                0x2_0000_0000,
            );
        }
        let x = origin.x.add(step);
        proof {
            assert(-0x8000_0000_0000 <= x.num <= 0x8000_0000_0000 && 0 < x.den
                <= 0x400_0000) by (nonlinear_arith)
                requires
                    x.num == origin.x.num * step.den + step.num * origin.x.den,
                    x.den == origin.x.den * step.den,
                    -0x2000 <= origin.x.num <= 0x2000,
                    0 < origin.x.den <= 0x2000,
                    -0x2_0000_0000 <= step.num <= 0x2_0000_0000,
                    0 < step.den <= 0x2000,
            ;
            crate::rational::lemma_ops_safe(x, size, 0x8000_0000_0000, LAYOUT_BOUND as int);
            crate::rational::lemma_ops_safe(origin.y, size, LAYOUT_BOUND as int, LAYOUT_BOUND as int);
        }
        let q = CharacterQuad {
            position: Pos3 { x, y: origin.y, z: origin.z },
            size: Size2 { w: size, h: size },
            character: glyph,
        };
        quads.push(q);
        i = i + 1;
    }
    quads
}

} // verus!
