//! Texture decoding and row order: a minimal PNG writer feeds the library
//! a real, valid PNG, and the decoded result is checked byte for byte.

use glquad::error::SetupError;
use glquad::gl::{load_texture, DrawTexture};
use glquad::texture::{flip_rows, Texture};

fn crc32(data: &[u8]) -> u32 {
    let mut crc: u32 = 0xFFFF_FFFF;
    for &b in data {
        crc ^= b as u32;
        for _ in 0..8 {
            if crc & 1 != 0 {
                crc = (crc >> 1) ^ 0xEDB8_8320;
            } else {
                crc >>= 1;
            }
        }
    }
    !crc
}

fn adler32(data: &[u8]) -> u32 {
    let mut a: u32 = 1;
    let mut b: u32 = 0;
    for &x in data {
        a = (a + x as u32) % 65521;
        b = (b + a) % 65521;
    }
    (b << 16) | a
}

fn chunk(out: &mut Vec<u8>, kind: &[u8; 4], data: &[u8]) {
    out.extend_from_slice(&(data.len() as u32).to_be_bytes());
    out.extend_from_slice(kind);
    out.extend_from_slice(data);
    let mut crc_input = Vec::new();
    crc_input.extend_from_slice(kind);
    crc_input.extend_from_slice(data);
    out.extend_from_slice(&crc32(&crc_input).to_be_bytes());
}

/// Builds a valid RGBA PNG holding the given rows, top to bottom, each row
/// `width * 4` bytes, using uncompressed deflate blocks.
pub fn make_png(width: u32, height: u32, rows: &[&[u8]]) -> Vec<u8> {
    assert_eq!(rows.len(), height as usize);
    let mut png = vec![0x89u8, 0x50, 0x4E, 0x47, 0x0D, 0x0A, 0x1A, 0x0A];

    let mut ihdr = Vec::new();
    ihdr.extend_from_slice(&width.to_be_bytes());
    ihdr.extend_from_slice(&height.to_be_bytes());
    ihdr.extend_from_slice(&[8, 6, 0, 0, 0]); // 8-bit RGBA, no interlace
    chunk(&mut png, b"IHDR", &ihdr);

    // Scanlines: one filter byte (0 = None) in front of each row.
    let mut raw = Vec::new();
    for row in rows {
        assert_eq!(row.len(), width as usize * 4);
        raw.push(0u8);
        raw.extend_from_slice(row);
    }

    // zlib: header, one final stored block, adler32 of the raw data.
    let mut idat = vec![0x78u8, 0x01];
    idat.push(0x01);
    idat.extend_from_slice(&(raw.len() as u16).to_le_bytes());
    idat.extend_from_slice(&(!(raw.len() as u16)).to_le_bytes());
    idat.extend_from_slice(&raw);
    idat.extend_from_slice(&adler32(&raw).to_be_bytes());
    chunk(&mut png, b"IDAT", &idat);

    chunk(&mut png, b"IEND", &[]);
    png
}

const RED: [u8; 4] = [255, 0, 0, 255];
const GREEN: [u8; 4] = [0, 255, 0, 255];
const BLUE: [u8; 4] = [0, 0, 255, 255];
const WHITE: [u8; 4] = [255, 255, 255, 255];

fn top_row() -> Vec<u8> {
    let mut r = Vec::new();
    r.extend_from_slice(&RED);
    r.extend_from_slice(&GREEN);
    r
}

fn bottom_row() -> Vec<u8> {
    let mut r = Vec::new();
    r.extend_from_slice(&BLUE);
    r.extend_from_slice(&WHITE);
    r
}

#[test]
fn decoded_texture_has_rows_bottom_to_top() {
    let png = make_png(2, 2, &[&top_row(), &bottom_row()]);
    let tex = load_texture(&png).expect("a valid PNG decodes");
    assert_eq!(tex.width, 2);
    assert_eq!(tex.height, 2);
    // The decoder hands rows top to bottom; the texture stores them
    // reversed, so the bottom row of the image comes first.
    let mut expected = bottom_row();
    expected.extend_from_slice(&top_row());
    assert_eq!(tex.pixels, expected);
}

#[test]
fn invalid_png_fails_with_decode_error() {
    let garbage = vec![1u8, 2, 3, 4, 5];
    match load_texture(&garbage) {
        Err(SetupError::TextureDecode) => {},
        other => panic!("expected the decode error, got {:?}", other.map(|t| t.width)),
    }
    match DrawTexture::new(&garbage) {
        Err(SetupError::TextureDecode) => {},
        Ok(_) => panic!("garbage must not build a resource set"),
        Err(e) => panic!("wrong error: {:?}", e),
    }
}

#[test]
fn empty_input_fails_with_decode_error() {
    let empty: Vec<u8> = Vec::new();
    assert!(matches!(load_texture(&empty), Err(SetupError::TextureDecode)));
}

#[test]
fn flip_rows_reverses_row_order_only() {
    // 1x3 image: three rows of one pixel each.
    let pixels = vec![
        1, 2, 3, 4, // row 0
        5, 6, 7, 8, // row 1
        9, 10, 11, 12, // row 2
    ];
    let flipped = flip_rows(&pixels, 1, 3);
    assert_eq!(flipped, vec![9, 10, 11, 12, 5, 6, 7, 8, 1, 2, 3, 4]);
}

#[test]
fn flip_rows_of_empty_image_is_empty() {
    let pixels: Vec<u8> = Vec::new();
    assert_eq!(flip_rows(&pixels, 0, 0), Vec::<u8>::new());
    assert_eq!(flip_rows(&pixels, 7, 0), Vec::<u8>::new());
}

#[test]
fn flip_rows_twice_restores_the_image() {
    let pixels = vec![
        1, 2, 3, 4, 5, 6, 7, 8, // row 0: two pixels
        9, 10, 11, 12, 13, 14, 15, 16, // row 1
    ];
    let once = flip_rows(&pixels, 2, 2);
    assert_ne!(once, pixels);
    assert_eq!(flip_rows(&once, 2, 2), pixels);
}

#[test]
fn texture_duplicate_is_identical() {
    let tex = Texture { width: 1, height: 2, pixels: vec![1, 2, 3, 4, 5, 6, 7, 8] };
    let copy = tex.duplicate();
    assert_eq!(copy.width, tex.width);
    assert_eq!(copy.height, tex.height);
    assert_eq!(copy.pixels, tex.pixels);
}
