//! The rendered image: 8-bit RGB pixels in an in-memory buffer, and its
//! encoding as a PNG file.
//!
//! The camera numbers rows from the bottom of the picture, while the buffer
//! and the PNG format store them from the top; `set_pixel` takes the camera's
//! numbering and does the flip.

use vstd::prelude::*;

verus! {

#[verifier::external_type_specification]
#[verifier::external_body]
pub struct ExLodepngError(lodepng::Error);

/// What lodepng's encoder returns for `pixels`, stored row by row from the
/// top, three bytes per pixel, at the given dimensions.
pub uninterp spec fn png_of_rgb(pixels: Seq<u8>, width: nat, height: nat) -> Seq<u8>;

/// The eight bytes every PNG file starts with.
pub open spec fn png_signature() -> Seq<u8> {
    seq![137u8, 80u8, 78u8, 71u8, 13u8, 10u8, 26u8, 10u8]
}

/// The most scanline bytes (three per pixel and one filter byte per row) that
/// the encoder is given. It writes the compressed pixels as one chunk, whose
/// length must stay below 2^31 bytes; this leaves room for the compressor's
/// overhead.
pub const MAX_SCANLINE_BYTES: usize = 0x7000_0000;

/// Relies on lodepng::encode24: it encodes 8-bit RGB pixels as a PNG file in
/// memory, which depends on the pixels and dimensions alone and starts with
/// the PNG signature; it fails on a zero width or height. Its buffer must
/// hold exactly three bytes per pixel, and the pixel data must stay small
/// enough for one chunk.
#[verifier::external_body]
fn encode24(pixels: &Vec<u8>, width: usize, height: usize) -> (r: Result<Vec<u8>, lodepng::Error>)
    requires
        pixels@.len() == width * height * 3,
        pixels@.len() + height <= MAX_SCANLINE_BYTES,
    ensures
        width == 0 || height == 0 ==> r is Err,
        r matches Ok(png) ==> png@ == png_of_rgb(pixels@, width as nat, height as nat),
        r matches Ok(png) ==> png@.len() >= 8 && png@.subrange(0, 8) == png_signature(),
{
    lodepng::encode24(pixels.as_slice(), width, height)
}

/// Why an image could not be encoded.
#[derive(Clone, Copy, Debug, PartialEq, Eq, Structural)]
pub enum EncodeError {
    /// The image has no pixels.
    Empty,
    /// The image holds more pixel data than one PNG chunk can carry.
    TooLarge,
    /// The encoder reported a failure.
    Encoder,
}

/// Where the three bytes of pixel `(x, y)` start, with `y` counted from the
/// bottom row.
pub open spec fn pixel_offset(width: int, height: int, x: int, y: int) -> int {
    ((height - 1 - y) * width + x) * 3
}

/// An RGB image whose rows are stored from the top.
pub struct Image {
    width: usize,
    height: usize,
    data: Vec<u8>,
}

impl Image {
    pub closed spec fn width_spec(&self) -> nat {
        self.width as nat
    }

    pub closed spec fn height_spec(&self) -> nat {
        self.height as nat
    }

    /// The stored bytes, three per pixel, rows from the top.
    pub closed spec fn bytes(&self) -> Seq<u8> {
        self.data@
    }

    /// The buffer holds exactly three bytes per pixel.
    pub open spec fn wf(&self) -> bool {
        self.bytes().len() == self.width_spec() * self.height_spec() * 3
    }

    /// A black image of the given size.
    pub fn new(width: usize, height: usize) -> (img: Image)
        requires
            width * height * 3 <= usize::MAX,
        ensures
            img.wf(),
            img.width_spec() == width,
            img.height_spec() == height,
            forall|k: int| 0 <= k < img.bytes().len() ==> #[trigger] img.bytes()[k] == 0u8,
    {
        let n: usize = width * height * 3;
        let mut data: Vec<u8> = Vec::new();
        while data.len() < n
            invariant
                data@.len() <= n,
                forall|k: int| 0 <= k < data@.len() ==> #[trigger] data@[k] == 0u8,
            decreases n - data@.len(),
        {
            data.push(0u8);
        }
        Image { width, height, data }
    }

    pub fn width(&self) -> (r: usize)
        ensures
            r == self.width_spec(),
    {
        self.width
    }

    pub fn height(&self) -> (r: usize)
        ensures
            r == self.height_spec(),
    {
        self.height
    }

    /// The stored bytes, rows from the top.
    pub fn as_bytes(&self) -> (r: &Vec<u8>)
        ensures
            r@ == self.bytes(),
    {
        &self.data
    }

    /// Writes the color of pixel `(x, y)`, `y` counted from the bottom row;
    /// every other byte stays as it was.
    pub fn set_pixel(&mut self, x: usize, y: usize, rgb: [u8; 3])
        requires
            old(self).wf(),
            x < old(self).width_spec(),
            y < old(self).height_spec(),
        ensures
            final(self).wf(),
            final(self).width_spec() == old(self).width_spec(),
            final(self).height_spec() == old(self).height_spec(),
            ({
                let o = pixel_offset(
                    old(self).width_spec() as int,
                    old(self).height_spec() as int,
                    x as int,
                    y as int,
                );
                final(self).bytes() == old(self).bytes().update(o, rgb@[0]).update(
                    o + 1,
                    rgb@[1],
                ).update(o + 2, rgb@[2])
            }),
    {
        let w = self.width;
        let h = self.height;
        let n: usize = self.data.len();
        let row: usize = h - 1 - y;
        proof {
            assert((row * w + x) * 3 + 2 < n) by (nonlinear_arith)
                requires
                    row < h,
                    x < w,
                    n == w * h * 3,
            ;
        }
        let o: usize = (row * w + x) * 3;
        self.data.set(o, rgb[0]);
        self.data.set(o + 1, rgb[1]);
        self.data.set(o + 2, rgb[2]);
    }

    /// Encodes the image as a PNG file in memory. An image without pixels,
    /// or with more scanline bytes than `MAX_SCANLINE_BYTES`, is refused;
    /// otherwise the bytes are lodepng's encoding of the buffer, unless the
    /// encoder itself fails.
    pub fn encode_png(&self) -> (r: Result<Vec<u8>, EncodeError>)
        requires
            self.wf(),
        ensures
            (self.width_spec() == 0 || self.height_spec() == 0) <==> r == Err::<
                Vec<u8>,
                EncodeError,
            >(EncodeError::Empty),
            (self.width_spec() > 0 && self.height_spec() > 0 && self.bytes().len()
                + self.height_spec() > MAX_SCANLINE_BYTES) <==> r == Err::<Vec<u8>, EncodeError>(
                EncodeError::TooLarge,
            ),
            r matches Ok(png) ==> png@ == png_of_rgb(
                self.bytes(),
                self.width_spec(),
                self.height_spec(),
            ) && png@.subrange(0, 8) == png_signature(),
    {
        if self.width == 0 || self.height == 0 {
            return Err(EncodeError::Empty);
        }
        if self.data.len() > MAX_SCANLINE_BYTES || MAX_SCANLINE_BYTES - self.data.len() < self.height {
            return Err(EncodeError::TooLarge);
        }
        match encode24(&self.data, self.width, self.height) {
            Ok(png) => Ok(png),
            Err(_) => Err(EncodeError::Encoder),
        }
    }
}

} // verus!
