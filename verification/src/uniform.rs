//! Uniform packer: serializes the camera matrix and offset into the
//! fixed-layout record the shader stage reads.
//!
//! The record layout is: 16 matrix words in column-major order, then the
//! two `camera_position` words, then two padding words. The padding exists
//! solely to make the byte size a multiple of 16 (the uniform-buffer
//! alignment rule) and carries no meaning; it must be present because
//! `camera_position` is part of the layout. Field order and total size are
//! fixed: the consuming shader is written against them.
//!
//! A "word" here is the 32-bit bit pattern of one GPU scalar. The host
//! converts each rational entry to its scalar format; this module fixes the
//! order and the byte layout, which do not depend on that conversion.

use vstd::prelude::*;
use crate::camera::{Camera, Mat4, identity_spec, view_projection_spec};
use crate::rational::Rat;

verus! {

/// The camera record at the rational level: the view-projection matrix and
/// the camera offset the shader applies to vertices.
#[derive(Clone, Copy, Debug, PartialEq, Eq)]
pub struct CameraUniform {
    pub view_proj: Mat4,
    pub position: (Rat, Rat),
}

impl CameraUniform {
    pub open spec fn wf(self) -> bool {
        &&& self.view_proj.wf()
        &&& self.position.0.wf()
        &&& self.position.1.wf()
    }

    /// A fresh record: identity matrix, zero offset.
    pub fn new() -> (r: CameraUniform)
        ensures
            r.view_proj == identity_spec(),
            r.position == (Rat { num: 0, den: 1 }, Rat { num: 0, den: 1 }),
            r.wf(),
    {
        CameraUniform {
            view_proj: Mat4::identity(),
            position: (Rat { num: 0, den: 1 }, Rat { num: 0, den: 1 }),
        }
    }

    /// Refreshes the record from the camera: the matrix is rebuilt from the
    /// current viewport and the offset copied through.
    pub fn update_proj(&mut self, camera: &Camera)
        requires
            camera.wf(),
        ensures
            final(self).view_proj == view_projection_spec(camera.width, camera.height),
            final(self).position == (camera.x, camera.y),
            final(self).wf(),
    {
        self.view_proj = camera.build_matrix();
        self.position = camera.position();
    }
}

/// The matrix's entries in the serialization order of the record: column
/// major, rows within a column from top to bottom.
pub fn matrix_column_major(m: &Mat4) -> (r: Vec<Rat>)
    ensures
        r@ == seq![
            m.m00,
            m.m10,
            m.m20,
            m.m30,
            m.m01,
            m.m11,
            m.m21,
            m.m31,
            m.m02,
            m.m12,
            m.m22,
            m.m32,
            m.m03,
            m.m13,
            m.m23,
            m.m33,
        ],
{
    let mut r: Vec<Rat> = Vec::new();
    r.push(m.m00);
    r.push(m.m10);
    r.push(m.m20);
    r.push(m.m30);
    r.push(m.m01);
    r.push(m.m11);
    r.push(m.m21);
    r.push(m.m31);
    r.push(m.m02);
    r.push(m.m12);
    r.push(m.m22);
    r.push(m.m32);
    r.push(m.m03);
    r.push(m.m13);
    r.push(m.m23);
    r.push(m.m33);
    proof {
        assert(r@ =~= seq![
            m.m00,
            m.m10,
            m.m20,
            m.m30,
            m.m01,
            m.m11,
            m.m21,
            m.m31,
            m.m02,
            m.m12,
            m.m22,
            m.m32,
            m.m03,
            m.m13,
            m.m23,
            m.m33,
        ]);
    }
    r
}

/// Lays out the 20-word camera record: the 16 matrix words, the two offset
/// words, then the two zero padding words.
pub fn pack_uniform_words(matrix: &Vec<u32>, position_x: u32, position_y: u32) -> (r: Vec<u32>)
    requires
        matrix.len() == 16,
    ensures
        r.len() == 20,
        forall|i: int| 0 <= i < 16 ==> r@[i] == matrix@[i],
        r@[16] == position_x,
        r@[17] == position_y,
        r@[18] == 0u32,
        r@[19] == 0u32,
{
    let mut r: Vec<u32> = Vec::new();
    let mut i: usize = 0;
    while i < 16
        invariant
            matrix.len() == 16,
            i <= 16,
            r.len() == i,
            forall|k: int| 0 <= k < i ==> r@[k] == matrix@[k],
        decreases 16 - i,
    {
        r.push(matrix[i]);
        i = i + 1;
    }
    r.push(position_x);
    r.push(position_y);
    r.push(0);
    r.push(0);
    r
}

/// Byte `j` (0 is least significant) of a 32-bit word.
pub open spec fn word_byte(w: u32, j: int) -> u8 {
    if j == 0 {
        (w & 0xff) as u8
    } else if j == 1 {
        ((w >> 8u32) & 0xff) as u8
    } else if j == 2 {
        ((w >> 16u32) & 0xff) as u8
    } else {
        ((w >> 24u32) & 0xff) as u8
    }
}

/// Serializes a word sequence to bytes, least-significant byte of each word
/// first, so the byte at position `4k + j` is byte `j` of word `k`.
pub fn words_to_bytes(words: &Vec<u32>) -> (r: Vec<u8>)
    ensures
        r.len() == 4 * words.len(),
        forall|i: int| 0 <= i < r.len() ==> (#[trigger] r@[i]) == word_byte(words@[i / 4], i % 4),
{
    let mut r: Vec<u8> = Vec::new();
    let mut k: usize = 0;
    while k < words.len()
        invariant
            k <= words.len(),
            r.len() == 4 * k,
            forall|i: int|
                0 <= i < r.len() ==> (#[trigger] r@[i]) == word_byte(words@[i / 4], i % 4),
        decreases words.len() - k,
    {
        let w = words[k];
        proof {
            assert((w & 0xff) <= 0xff && ((w >> 8u32) & 0xff) <= 0xff && ((w >> 16u32) & 0xff)
                <= 0xff && ((w >> 24u32) & 0xff) <= 0xff) by (bit_vector);
        }
        r.push((w & 0xff) as u8);
        r.push(((w >> 8u32) & 0xff) as u8);
        r.push(((w >> 16u32) & 0xff) as u8);
        r.push(((w >> 24u32) & 0xff) as u8);
        proof {
            assert forall|i: int|
                0 <= i < r.len() implies (#[trigger] r@[i]) == word_byte(words@[i / 4], i % 4) by {
                if i >= 4 * k {
                    assert(i / 4 == k as int && i % 4 == i - 4 * k);
                }
            }
        }
        k = k + 1;
    }
    r
}

/// The packed camera record is 20 words, so 80 bytes: a multiple of 16, as
/// the uniform-buffer alignment rule requires.
pub proof fn lemma_uniform_record_aligned(words: Seq<u32>)
    requires
        words.len() == 20,
    ensures
        (4 * words.len()) % 16 == 0,
{
}

} // verus!
