//! Decoding of PNG bytes into the bottom-up RGBA pixel layout the renderer
//! samples from.
//!
//! A decoded image stores its rows top to bottom, while the texture
//! coordinate convention puts the origin at the bottom-left corner, so the
//! rows of the decoded pixel buffer are reversed before the buffer is handed
//! to the renderer.

use vstd::prelude::*;

verus! {

/// What decoding a PNG byte stream to an 8-bit RGBA pixel buffer yields:
/// `None` where the bytes are not a well-formed PNG image, otherwise the
/// top-down pixel bytes with the width and height in pixels.  Decoding is a
/// function of the input bytes alone.
pub uninterp spec fn png_rgba(bytes: Seq<u8>) -> Option<(Seq<u8>, u32, u32)>;

/// Relies on `image::load` with the PNG format, `DynamicImage::to_rgba8`
/// and `ImageBuffer::into_raw`: decoding depends on the input bytes alone,
/// and an 8-bit RGBA buffer holds four bytes per pixel, rows top to bottom.
#[verifier::external_body]
fn decode_png_rgba(bytes: &Vec<u8>) -> (r: Option<(Vec<u8>, u32, u32)>)
    ensures
        r is Some <==> png_rgba(bytes@) is Some,
        r is Some ==> {
            let (pix, w, h) = png_rgba(bytes@)->Some_0;
            &&& r->Some_0.0@ == pix
            &&& r->Some_0.1 == w
            &&& r->Some_0.2 == h
            &&& pix.len() == 4 * w * h
        },
{
    match image::load(std::io::Cursor::new(bytes.as_slice()), image::ImageFormat::Png) {
        Ok(img) => {
            let rgba = img.to_rgba8();
            let (w, h) = rgba.dimensions();
            Some((rgba.into_raw(), w, h))
        },
        Err(_) => None,
    }
}

/// A decoded texture image: RGBA pixel bytes stored bottom row first, ready
/// for upload, with the dimensions in pixels.
pub struct TextureImage {
    pixels: Vec<u8>,
    width: u32,
    height: u32,
}

impl TextureImage {
    /// The pixel buffer holds exactly four bytes per pixel.
    pub open spec fn wf(self) -> bool {
        self.pixels_spec().len() == 4 * self.width_spec() * self.height_spec()
    }

    /// The stored pixel bytes, bottom row first.
    pub closed spec fn pixels_spec(self) -> Seq<u8> {
        self.pixels@
    }

    /// The width in pixels.
    pub closed spec fn width_spec(self) -> u32 {
        self.width
    }

    /// The height in pixels.
    pub closed spec fn height_spec(self) -> u32 {
        self.height
    }

    /// The pixel bytes, bottom row first, four bytes per pixel.
    pub fn pixels(&self) -> (r: &Vec<u8>)
        ensures
            r@ == self.pixels_spec(),
    {
        &self.pixels
    }

    /// The width in pixels.
    pub fn width(&self) -> (r: u32)
        ensures
            r == self.width_spec(),
    {
        self.width
    }

    /// The height in pixels.
    pub fn height(&self) -> (r: u32)
        ensures
            r == self.height_spec(),
    {
        self.height
    }
}

/// Decodes PNG bytes and reverses the pixel rows, so that the first row of
/// the result is the bottom row of the image, as the texture coordinate
/// convention demands.  Returns `None` exactly where the bytes are not a
/// well-formed PNG image; the caller treats that as a fatal startup fault.
pub fn texture_image(bytes: &Vec<u8>) -> (r: Option<TextureImage>)
    ensures
        r is Some <==> png_rgba(bytes@) is Some,
        r is Some ==> {
            let (pix, w, h) = png_rgba(bytes@)->Some_0;
            &&& r->Some_0.wf()
            &&& r->Some_0.width_spec() == w
            &&& r->Some_0.height_spec() == h
            &&& r->Some_0.pixels_spec() == flipped_rows(pix, w as nat, h as nat)
        },
{
    match decode_png_rgba(bytes) {
        Some((pix, w, h)) => {
            let flipped = flip_rows(&pix, w, h);
            Some(TextureImage { pixels: flipped, width: w, height: h })
        },
        None => None,
    }
}

/// The byte of the row-reversed image at offset `k`, drawn from a top-down
/// RGBA buffer `p` of `h` rows of `4 * w` bytes each: the byte at the same
/// column of the vertically mirrored row.
pub open spec fn flipped_byte(p: Seq<u8>, w: nat, h: nat, k: int) -> u8
    recommends
        p.len() == 4 * w * h,
        0 <= k < p.len(),
{
    let row = k / (4 * w as int);
    let col = k % (4 * w as int);
    p[(h - 1 - row) * (4 * w as int) + col]
}

/// A top-down RGBA buffer with its rows reversed, byte for byte.
pub open spec fn flipped_rows(p: Seq<u8>, w: nat, h: nat) -> Seq<u8>
    recommends
        p.len() == 4 * w * h,
{
    Seq::new(p.len(), |k: int| flipped_byte(p, w, h, k))
}

/// Reverses the rows of a top-down RGBA pixel buffer of `w` by `h` pixels,
/// four bytes per pixel, producing the bottom-up buffer the renderer
/// expects.
pub fn flip_rows(pixels: &Vec<u8>, w: u32, h: u32) -> (r: Vec<u8>)
    requires
        pixels@.len() == 4 * w * h,
    ensures
        r@ == flipped_rows(pixels@, w as nat, h as nat),
{
    let n: usize = pixels.len();
    let mut r: Vec<u8> = Vec::new();
    if h == 0 || w == 0 {
        proof {
            assert(pixels@.len() == 0) by (nonlinear_arith)
                requires
                    pixels@.len() == 4 * (w as int) * (h as int),
                    w == 0 || h == 0,
            ;
            assert(r@ =~= flipped_rows(pixels@, w as nat, h as nat));
        }
        return r;
    }
    proof {
        assert(4 * (w as int) <= 4 * (w as int) * (h as int)) by (nonlinear_arith)
            requires
                1 <= h,
                0 <= w,
        ;
    }
    let row_len: usize = 4 * (w as usize);
    let mut row: usize = 0;
    while row < h as usize
        invariant
            0 < w,
            0 < h,
            row <= h,
            row_len == 4 * w,
            n == pixels@.len(),
            pixels@.len() == 4 * w * h,
            r@.len() == row * row_len,
            forall|k: int|
                0 <= k < r@.len() ==> r@[k] == flipped_byte(pixels@, w as nat, h as nat, k),
        decreases h - row,
    {
        let src_row: usize = (h as usize) - 1 - row;
        proof {
            assert((h - 1 - row) * (row_len as int) + (row_len as int) <= 4 * (w as int) * (h
                as int)) by (nonlinear_arith)
                requires
                    0 <= row < h,
                    row_len == 4 * w,
                    0 < w,
            ;
        }
        let base: usize = src_row * row_len;
        let mut col: usize = 0;
        while col < row_len
            invariant
                0 < w,
                0 < h,
                row < h,
                col <= row_len,
                row_len == 4 * w,
                src_row == h - 1 - row,
                base == src_row * row_len,
                base + row_len <= pixels@.len(),
                n == pixels@.len(),
                pixels@.len() == 4 * w * h,
                r@.len() == row * row_len + col,
                forall|k: int|
                    0 <= k < r@.len() ==> r@[k] == flipped_byte(pixels@, w as nat, h as nat, k),
            decreases row_len - col,
        {
            let b = pixels[base + col];
            r.push(b);
            proof {
                let k = r@.len() - 1;
                assert(k == row * row_len + col);
                assert(k / (row_len as int) == row && k % (row_len as int) == col)
                    by (nonlinear_arith)
                    requires
                        k == row * (row_len as int) + col,
                        0 <= col < row_len,
                        0 < row_len,
                        0 <= row,
                ;
                assert(r@[k] == flipped_byte(pixels@, w as nat, h as nat, k));
            }
            col = col + 1;
        }
        proof {
            assert((row + 1) * (row_len as int) == row * (row_len as int) + row_len)
                by (nonlinear_arith);
        }
        row = row + 1;
    }
    proof {
        assert(r@.len() == 4 * (w as int) * (h as int)) by (nonlinear_arith)
            requires
                r@.len() == (h as int) * (row_len as int),
                row_len == 4 * (w as int),
        ;
        assert(r@ =~= flipped_rows(pixels@, w as nat, h as nat));
    }
    r
}

} // verus!
