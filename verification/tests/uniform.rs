use glyphmesh::camera::Camera;
use glyphmesh::rational::Rat;
use glyphmesh::uniform::{CameraUniform, matrix_column_major, pack_uniform_words, words_to_bytes};

fn zero() -> Rat {
    Rat { num: 0, den: 1 }
}

#[test]
fn uniform_new_is_identity_with_zero_offset() {
    let u = CameraUniform::new();
    assert_eq!((u.view_proj.m00.num, u.view_proj.m00.den), (1, 1));
    assert_eq!((u.view_proj.m11.num, u.view_proj.m22.num, u.view_proj.m33.num), (1, 1, 1));
    assert_eq!(u.view_proj.m01.num, 0);
    assert_eq!(u.position.0.num, 0);
    assert_eq!(u.position.1.num, 0);
}

#[test]
fn uniform_update_proj_tracks_camera() {
    let cam = Camera::new(800, 600, Rat { num: 7, den: 2 }, zero()).unwrap();
    let mut u = CameraUniform::new();
    u.update_proj(&cam);
    assert_eq!(u.view_proj, cam.build_matrix());
    assert_eq!((u.position.0.num, u.position.0.den), (7, 2));
}

#[test]
fn uniform_matrix_serialization_is_column_major() {
    let cam = Camera::new(800, 600, zero(), zero()).unwrap();
    let m = cam.build_matrix();
    let cols = matrix_column_major(&m);
    assert_eq!(cols.len(), 16);
    // Column 0 starts with the X scale, column 3 holds the translations.
    assert_eq!((cols[0].num, cols[0].den), (2, 800));
    assert_eq!((cols[5].num, cols[5].den), (2, 600));
    assert_eq!((cols[12].num, cols[13].num), (-1, -1));
    assert_eq!((cols[14].num, cols[14].den), (1, 2));
    assert_eq!((cols[15].num, cols[15].den), (1, 1));
}

#[test]
fn uniform_record_layout_and_padding() {
    let matrix: Vec<u32> = (100..116).collect();
    let words = pack_uniform_words(&matrix, 7, 9);
    assert_eq!(words.len(), 20);
    assert_eq!(&words[0..16], &matrix[..]);
    assert_eq!(words[16], 7);
    assert_eq!(words[17], 9);
    assert_eq!(words[18], 0);
    assert_eq!(words[19], 0);
}

#[test]
fn uniform_bytes_are_little_endian_and_aligned() {
    // 0x3F800000 is the 32-bit pattern of the scalar one.
    assert_eq!(1.0f32.to_bits(), 0x3F80_0000);
    let words = vec![0x3F80_0000u32, 0x0102_0304u32];
    let bytes = words_to_bytes(&words);
    assert_eq!(bytes.len(), 8);
    assert_eq!(&bytes[0..4], &[0x00, 0x00, 0x80, 0x3F]);
    assert_eq!(&bytes[4..8], &[0x04, 0x03, 0x02, 0x01]);

    // A whole record is 80 bytes, a multiple of 16.
    let record = pack_uniform_words(&(0u32..16).collect(), 0, 0);
    let record_bytes = words_to_bytes(&record);
    assert_eq!(record_bytes.len(), 80);
    assert_eq!(record_bytes.len() % 16, 0);
    // The padding serializes to zero bytes.
    assert!(record_bytes[72..80].iter().all(|&b| b == 0));
}
