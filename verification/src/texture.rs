//! The immutable 2D texture: PNG bytes decoded to 8-bit RGBA, with rows
//! stored bottom-to-top to match the GL texture coordinate convention.
//!
//! The decode itself is carried out by the `image` crate and is trusted; the
//! reordering of the rows is implemented and verified here.

use vstd::arithmetic::div_mod::lemma_fundamental_div_mod_converse;
use vstd::prelude::*;

verus! {

/// What the PNG decoder yields on the given bytes: `Some` with the pixel
/// dimensions and the top-to-bottom RGBA bytes when they form a valid PNG
/// image, `None` when they do not. The result depends on the bytes alone.
pub uninterp spec fn png_rgba(bytes: Seq<u8>) -> Option<(u32, u32, Seq<u8>)>;

/// Relies on `image::load` with the PNG format, `DynamicImage::to_rgba8`,
/// `ImageBuffer::dimensions` and `ImageBuffer::into_raw`: decoding is a
/// function of the input bytes alone, and the raw buffer of a decoded RGBA
/// image holds exactly 4 bytes per pixel, rows top to bottom.
#[verifier::external_body]
fn decode_png_rgba(bytes: &[u8]) -> (r: Option<(u32, u32, Vec<u8>)>)
    ensures
        r is Some <==> png_rgba(bytes@) is Some,
        r matches Some(d) ==> {
            &&& png_rgba(bytes@) matches Some(s) && d.0 == s.0 && d.1 == s.1 && d.2@ == s.2
            &&& d.2@.len() == 4 * d.0 * d.1
        },
{
    match image::load(std::io::Cursor::new(bytes), image::ImageFormat::Png) {
        Ok(img) => {
            let rgba = img.to_rgba8();
            let (width, height) = rgba.dimensions();
            Some((width, height, rgba.into_raw()))
        },
        Err(_) => None,
    }
}

/// The pixel bytes with their rows reversed: byte `i` of the result comes
/// from the same column of row `height - 1 - row(i)` of the source. An empty
/// image stays empty.
pub open spec fn flipped_rows(pixels: Seq<u8>, width: u32, height: u32) -> Seq<u8>
    recommends
        pixels.len() == 4 * width * height,
{
    let stride = 4 * (width as int);
    Seq::new(
        pixels.len(),
        |i: int|
            if stride == 0 {
                pixels[i]
            } else {
                pixels[(height - 1 - i / stride) * stride + i % stride]
            },
    )
}

/// Reverses the order of the pixel rows of a top-to-bottom RGBA buffer,
/// yielding the bottom-to-top order that the GL convention expects.
pub fn flip_rows(pixels: &Vec<u8>, width: u32, height: u32) -> (r: Vec<u8>)
    requires
        pixels@.len() == 4 * width * height,
    ensures
        r@ == flipped_rows(pixels@, width, height),
        r@.len() == pixels@.len(),
{
    let ghost flipped = flipped_rows(pixels@, width, height);
    if width == 0 || height == 0 {
        assert(pixels@.len() == 0) by (nonlinear_arith)
            requires
                pixels@.len() == 4 * width * height,
                width == 0 || height == 0,
        ;
        let r: Vec<u8> = Vec::new();
        assert(r@ =~= flipped);
        return r;
    }
    let total: usize = pixels.len();
    assert(4 * width <= 4 * width * height && 4 * width * height == (height as int) * (4 * width
        as int)) by (nonlinear_arith)
        requires
            height >= 1,
    ;
    let stride: usize = 4 * (width as usize);
    let mut out: Vec<u8> = Vec::new();
    let mut row: u32 = 0;
    while row < height
        invariant
            1 <= height,
            stride == 4 * width,
            stride > 0,
            pixels@.len() == (height as int) * (stride as int),
            total == pixels@.len(),
            row <= height,
            out@.len() == (row as int) * (stride as int),
            forall|i: int|
                0 <= i < out@.len() ==> out@[i] == flipped_rows(pixels@, width, height)[i],
            flipped == flipped_rows(pixels@, width, height),
        decreases height - row,
    {
        proof {
            lemma_row_arith(row as int, stride as int, height as int);
        }
        let base: usize = ((height - 1 - row) as usize) * stride;
        let mut k: usize = 0;
        while k < stride
            invariant
                1 <= height,
                stride == 4 * width,
                stride > 0,
                pixels@.len() == (height as int) * (stride as int),
                total == pixels@.len(),
                row < height,
                base == (height - 1 - row) as int * (stride as int),
                base + stride <= pixels@.len(),
                k <= stride,
                out@.len() == (row as int) * (stride as int) + k,
                out@.len() + (stride - k) <= pixels@.len(),
                forall|i: int|
                    0 <= i < out@.len() ==> out@[i] == flipped_rows(pixels@, width, height)[i],
            decreases stride - k,
        {
            let ghost n = out@.len() as int;
            out.push(pixels[base + k]);
            proof {
                lemma_fundamental_div_mod_converse(n, stride as int, row as int, k as int);
                assert(out@[n] == flipped_rows(pixels@, width, height)[n]);
            }
            k = k + 1;
        }
        proof {
            assert((row as int + 1) * (stride as int) == (row as int) * (stride as int) + (
            stride as int)) by (nonlinear_arith);
        }
        row = row + 1;
    }
    assert(out@.len() == pixels@.len()) by (nonlinear_arith)
        requires
            out@.len() == (row as int) * (stride as int),
            pixels@.len() == (height as int) * (stride as int),
            row == height,
    ;
    assert(out@ =~= flipped);
    out
}

/// Index arithmetic shared by the row loop: the source row fits in front of
/// the buffer's end, and the written prefix stays inside the buffer.
proof fn lemma_row_arith(row: int, stride: int, height: int)
    requires
        0 <= row < height,
        stride > 0,
    ensures
        (height - 1 - row) * stride + stride <= height * stride,
        row * stride + stride <= height * stride,
        (height - 1 - row) * stride >= 0,
        row * stride >= 0,
{
    assert((height - 1 - row) * stride + stride <= height * stride && (height - 1 - row) * stride
        >= 0 && row * stride + stride <= height * stride && row * stride >= 0) by (nonlinear_arith)
        requires
            0 <= row < height,
            stride > 0,
    ;
}

/// A decoded texture as the GPU receives it: dimensions in pixels and the
/// RGBA bytes, rows bottom to top.
#[derive(Debug, PartialEq, Eq)]
pub struct Texture {
    /// Width in pixels.
    pub width: u32,
    /// Height in pixels.
    pub height: u32,
    /// 4 bytes per pixel, rows bottom to top.
    pub pixels: Vec<u8>,
}

/// The mathematical content of a `Texture`.
pub struct TextureView {
    pub width: u32,
    pub height: u32,
    pub pixels: Seq<u8>,
}

impl View for Texture {
    type V = TextureView;

    open spec fn view(&self) -> TextureView {
        TextureView { width: self.width, height: self.height, pixels: self.pixels@ }
    }
}

impl Texture {
    /// The size invariant: exactly 4 bytes for each pixel.
    pub open spec fn wf(self) -> bool {
        self.pixels@.len() == 4 * self.width * self.height
    }

    /// An identical copy, byte for byte.
    pub fn duplicate(&self) -> (t: Texture)
        ensures
            t@ == self@,
    {
        Texture { width: self.width, height: self.height, pixels: copy_vec(&self.pixels) }
    }
}

/// A fresh vector with the same elements.
pub(crate) fn copy_vec<T: Copy>(src: &Vec<T>) -> (r: Vec<T>)
    ensures
        r@ == src@,
{
    let mut r: Vec<T> = Vec::new();
    let mut i: usize = 0;
    while i < src.len()
        invariant
            i <= src@.len(),
            r@ == src@.subrange(0, i as int),
        decreases src@.len() - i,
    {
        r.push(src[i]);
        assert(r@ =~= src@.subrange(0, i + 1));
        i = i + 1;
    }
    assert(r@ =~= src@);
    r
}

/// The texture that the given PNG bytes decode to, rows already reversed,
/// or `None` when they do not decode.
pub open spec fn texture_of(bytes: Seq<u8>) -> Option<TextureView> {
    match png_rgba(bytes) {
        Some(d) => Some(
            TextureView { width: d.0, height: d.1, pixels: flipped_rows(d.2, d.0, d.1) },
        ),
        None => None,
    }
}

/// Decodes the bundled PNG bytes and reorders the rows bottom-to-top.
/// Succeeds exactly when the bytes form a valid PNG image.
pub fn decode_texture(bytes: &[u8]) -> (r: Option<Texture>)
    ensures
        r is Some <==> texture_of(bytes@) is Some,
        r matches Some(t) ==> texture_of(bytes@) == Some(t@) && t.wf(),
{
    match decode_png_rgba(bytes) {
        Some((width, height, raw)) => {
            let flipped = flip_rows(&raw, width, height);
            Some(Texture { width, height, pixels: flipped })
        },
        None => None,
    }
}

} // verus!
