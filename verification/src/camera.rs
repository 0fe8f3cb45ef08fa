//! Camera frames: the decoded picture, its capture time, and the JPEG bytes
//! it came from or goes out as.

use vstd::prelude::*;
use vstd::slice::slice_to_vec;
use crate::structs::Timestamp;

verus! {

/// The width and the height of a camera frame, in pixels.
pub const CAMERA_FRAME_SIZE: u32 = 240;

/// The largest width or height that a JPEG image can have.
pub const JPEG_MAX_DIMENSION: u32 = 0xFFFF;

/// A rectangle of pixels within a picture.
#[derive(Debug, Clone, Copy, PartialEq, Eq, Structural)]
pub struct Rect {
    pub x: u32,
    pub y: u32,
    pub width: u32,
    pub height: u32,
}

/// A picture of 8-bit RGB pixels, row by row, three bytes a pixel.
#[derive(Debug)]
pub struct RgbImage {
    width: u32,
    height: u32,
    data: Vec<u8>,
}

/// The position of channel `c` of the pixel at (`x`, `y`) in the bytes of a
/// picture that is `width` pixels wide.
pub open spec fn byte_index(width: int, x: int, y: int, c: int) -> int {
    (y * width + x) * 3 + c
}

pub proof fn lemma_byte_index_in_bounds(width: int, height: int, x: int, y: int, c: int)
    requires
        0 <= x < width,
        0 <= y < height,
        0 <= c < 3,
    ensures
        0 <= byte_index(width, x, y, c) < width * height * 3,
        byte_index(width, x, y, c) < height * width * 3,
        0 <= y * width + x < width * height,
{
    assert(width * height == height * width) by (nonlinear_arith);
    assert(y * width + x < width * height) by (nonlinear_arith)
        requires
            0 <= x < width,
            0 <= y < height,
    ;
    assert(0 <= y * width) by (nonlinear_arith)
        requires
            0 <= y,
            0 <= width,
    ;
}

/// The column of a picture from which column `x` of a region is taken:
/// counted from the left edge of `rect`, or from its right edge where the
/// region is mirrored.
pub open spec fn region_column(rect: Rect, mirrored: bool, x: int) -> int {
    if mirrored {
        rect.x + rect.width - 1 - x
    } else {
        rect.x + x
    }
}

/// Whether `copy` holds, for the first `x` pixels of row `y` of a region,
/// the bytes that `source`, a picture `width` pixels wide, holds for them.
spec fn copied_pixels(
    copy: Seq<u8>,
    source: Seq<u8>,
    width: int,
    rect: Rect,
    mirrored: bool,
    y: int,
    x: int,
) -> bool {
    forall|i: int, c: int|
        0 <= i < x && 0 <= c < 3 ==> copy[#[trigger] byte_index(rect.width as int, i, y, c)]
            == source[byte_index(width, region_column(rect, mirrored, i), rect.y + y, c)]
}

/// Whether `copy` holds the first `y` rows of a region in full.
spec fn copied_rows(
    copy: Seq<u8>,
    source: Seq<u8>,
    width: int,
    rect: Rect,
    mirrored: bool,
    y: int,
) -> bool {
    forall|j: int| 0 <= j < y ==> #[trigger] copied_pixels(
        copy,
        source,
        width,
        rect,
        mirrored,
        j,
        rect.width as int,
    )
}

/// Three bytes pushed behind the first `x` pixels of row `y` add the pixel
/// at `x`, and leave what was copied before as it was.
proof fn lemma_pixel_copied(
    before: Seq<u8>,
    after: Seq<u8>,
    source: Seq<u8>,
    width: int,
    height: int,
    rect: Rect,
    mirrored: bool,
    y: int,
    x: int,
)
    requires
        0 <= x < rect.width,
        0 <= y < rect.height,
        rect.x + rect.width <= width,
        rect.y + rect.height <= height,
        before.len() == (y * rect.width + x) * 3,
        copied_rows(before, source, width, rect, mirrored, y),
        copied_pixels(before, source, width, rect, mirrored, y, x),
        after.len() == before.len() + 3,
        forall|k: int| 0 <= k < before.len() ==> after[k] == before[k],
        forall|c: int|
            0 <= c < 3 ==> after[before.len() + c] == source[#[trigger] byte_index(
                width,
                region_column(rect, mirrored, x),
                rect.y + y,
                c,
            )],
    ensures
        copied_rows(after, source, width, rect, mirrored, y),
        copied_pixels(after, source, width, rect, mirrored, y, x + 1),
{
    let cw = rect.width as int;
    lemma_rows_apart(cw, x, y);
    assert forall|j: int| 0 <= j < y implies #[trigger] copied_pixels(
        after,
        source,
        width,
        rect,
        mirrored,
        j,
        cw,
    ) by {
        assert(copied_pixels(before, source, width, rect, mirrored, j, cw));
        assert forall|i: int, c: int| 0 <= i < cw && 0 <= c < 3 implies after[#[trigger] byte_index(
            cw,
            i,
            j,
            c,
        )] == source[byte_index(width, region_column(rect, mirrored, i), rect.y + j, c)] by {
            lemma_byte_index_in_bounds(cw, y, i, j, c);
            assert(after[byte_index(cw, i, j, c)] == before[byte_index(cw, i, j, c)]);
        }
    }
    assert forall|i: int, c: int| 0 <= i < x + 1 && 0 <= c < 3 implies after[#[trigger] byte_index(
        cw,
        i,
        y,
        c,
    )] == source[byte_index(width, region_column(rect, mirrored, i), rect.y + y, c)] by {
        if i < x {
            assert(byte_index(cw, i, y, c) < before.len());
            assert(after[byte_index(cw, i, y, c)] == before[byte_index(cw, i, y, c)]);
        } else {
            assert(byte_index(cw, x, y, c) == before.len() + c);
        }
    }
}

/// A row whose pixels are all copied is a copied row.
proof fn lemma_row_copied(copy: Seq<u8>, source: Seq<u8>, width: int, rect: Rect, mirrored: bool, y: int)
    requires
        copied_rows(copy, source, width, rect, mirrored, y),
        copied_pixels(copy, source, width, rect, mirrored, y, rect.width as int),
    ensures
        copied_rows(copy, source, width, rect, mirrored, y + 1),
{
}

impl Clone for RgbImage {
    fn clone(&self) -> (copy: RgbImage)
        ensures
            copy.spec_width() == self.spec_width(),
            copy.spec_height() == self.spec_height(),
            copy.bytes() == self.bytes(),
    {
        proof {
            use_type_invariant(self);
        }
        RgbImage { width: self.width, height: self.height, data: slice_to_vec(self.data.as_slice()) }
    }
}

/// The position of the first byte of the pixel at (`x`, `y`).
fn pixel_offset(width: u32, height: u32, x: u32, y: u32) -> (offset: usize)
    requires
        x < width,
        y < height,
        width * height * 3 <= usize::MAX,
    ensures
        offset == (y * width + x) * 3,
        offset + 2 < width * height * 3,
        forall|c: int| 0 <= c < 3 ==> offset + c == #[trigger] byte_index(width as int, x as int, y as int, c),
{
    proof {
        lemma_byte_index_in_bounds(width as int, height as int, x as int, y as int, 2);
        assert(0 <= y * width) by (nonlinear_arith)
            requires
                0 <= y,
                0 <= width,
        ;
    }
    (y as usize * width as usize + x as usize) * 3
}

impl RgbImage {
    #[verifier::type_invariant]
    spec fn well_formed(self) -> bool {
        self.data@.len() == self.width * self.height * 3
    }

    /// The width in pixels.
    pub closed spec fn spec_width(self) -> u32 {
        self.width
    }

    /// The height in pixels.
    pub closed spec fn spec_height(self) -> u32 {
        self.height
    }

    /// The bytes of the picture.
    pub closed spec fn bytes(self) -> Seq<u8> {
        self.data@
    }

    /// Channel `c` (red 0, green 1, blue 2) of the pixel at (`x`, `y`).
    pub open spec fn channel(self, x: int, y: int, c: int) -> u8 {
        self.bytes()[byte_index(self.spec_width() as int, x, y, c)]
    }

    /// Makes a picture of the given size from its bytes. `None` where the
    /// number of bytes does not fit the size.
    pub fn from_raw(width: u32, height: u32, data: Vec<u8>) -> (image: Option<RgbImage>)
        ensures
            image.is_some() == (data@.len() == width * height * 3),
            image matches Some(picture) ==> picture.spec_width() == width && picture.spec_height()
                == height && picture.bytes() == data@,
    {
        assert(width * height * 3 <= 0xFFFF_FFFF * 0xFFFF_FFFF * 3) by (nonlinear_arith)
            requires
                0 <= width <= 0xFFFF_FFFF,
                0 <= height <= 0xFFFF_FFFF,
        ;
        assert(width * height <= 0xFFFF_FFFF * 0xFFFF_FFFF) by (nonlinear_arith)
            requires
                0 <= width <= 0xFFFF_FFFF,
                0 <= height <= 0xFFFF_FFFF,
        ;
        let expected: u128 = (width as u128) * (height as u128) * 3;
        if data.len() as u128 == expected {
            Some(RgbImage { width, height, data })
        } else {
            None
        }
    }

    /// The width in pixels.
    pub fn width(&self) -> (width: u32)
        ensures
            width == self.spec_width(),
    {
        self.width
    }

    /// The height in pixels.
    pub fn height(&self) -> (height: u32)
        ensures
            height == self.spec_height(),
    {
        self.height
    }

    /// The bytes of the picture.
    pub fn as_raw(&self) -> (data: &Vec<u8>)
        ensures
            data@ == self.bytes(),
            data@.len() == self.spec_width() * self.spec_height() * 3,
    {
        proof {
            use_type_invariant(self);
        }
        &self.data
    }

    /// Whether `rect` lies within the picture.
    pub open spec fn holds(self, rect: Rect) -> bool {
        rect.x + rect.width <= self.spec_width() && rect.y + rect.height <= self.spec_height()
    }

    /// Whether `cut` is the part of this picture within `rect`: a picture
    /// of the size of `rect` that holds, pixel by pixel, what this picture
    /// holds there, and nothing more.
    pub open spec fn is_cut_to(self, rect: Rect, cut: RgbImage) -> bool {
        &&& cut.spec_width() == rect.width
        &&& cut.spec_height() == rect.height
        &&& cut.bytes().len() == rect.width * rect.height * 3
        &&& forall|x: int, y: int, c: int|
            0 <= x < rect.width && 0 <= y < rect.height && 0 <= c < 3 ==> #[trigger] cut.channel(
                x,
                y,
                c,
            ) == self.channel(rect.x + x, rect.y + y, c)
    }

    /// The pixels within `rect`, as a picture of their own: column by
    /// column as they stand, or from the right edge of `rect` to its left
    /// where `mirrored` is set.
    fn copy_region(&self, rect: Rect, mirrored: bool) -> (part: RgbImage)
        requires
            self.holds(rect),
        ensures
            part.spec_width() == rect.width,
            part.spec_height() == rect.height,
            part.bytes().len() == rect.width * rect.height * 3,
            forall|x: int, y: int, c: int|
                0 <= x < rect.width && 0 <= y < rect.height && 0 <= c < 3 ==> #[trigger] part.channel(
                    x,
                    y,
                    c,
                ) == self.channel(region_column(rect, mirrored, x), rect.y + y, c),
    {
        proof {
            use_type_invariant(self);
        }
        assert(self.data@.len() <= usize::MAX) by {
            vstd::std_specs::vec::axiom_spec_len(&self.data);
        }
        let ghost w = self.width as int;
        let ghost h = self.height as int;
        let ghost cw = rect.width as int;
        let ghost ch = rect.height as int;
        let mut data: Vec<u8> = Vec::new();
        let mut y: u32 = 0;
        while y < rect.height
            invariant
                y <= rect.height,
                self.holds(rect),
                self.data@.len() == w * h * 3,
                w * h * 3 <= usize::MAX,
                w == self.width,
                h == self.height,
                cw == rect.width,
                ch == rect.height,
                data@.len() == y * cw * 3,
                copied_rows(data@, self.data@, w, rect, mirrored, y as int),
            decreases rect.height - y,
        {
            let mut x: u32 = 0;
            while x < rect.width
                invariant
                    x <= rect.width,
                    y < rect.height,
                    self.holds(rect),
                    self.data@.len() == w * h * 3,
                w * h * 3 <= usize::MAX,
                    w == self.width,
                    h == self.height,
                    cw == rect.width,
                    ch == rect.height,
                    data@.len() == (y * cw + x) * 3,
                    copied_rows(data@, self.data@, w, rect, mirrored, y as int),
                    copied_pixels(data@, self.data@, w, rect, mirrored, y as int, x as int),
                decreases rect.width - x,
            {
                let column = if mirrored {
                    rect.x + (rect.width - 1 - x)
                } else {
                    rect.x + x
                };
                let source = pixel_offset(self.width, self.height, column, rect.y + y);
                let ghost before = data@;
                data.push(self.data[source]);
                data.push(self.data[source + 1]);
                data.push(self.data[source + 2]);
                proof {
                    lemma_pixel_copied(before, data@, self.data@, w, h, rect, mirrored, y as int, x as int);
                }
                x += 1;
            }
            proof {
                assert((y * cw + cw) * 3 == (y + 1) * cw * 3) by (nonlinear_arith);
                lemma_row_copied(data@, self.data@, w, rect, mirrored, y as int);
            }
            y += 1;
        }
        proof {
            assert(ch * cw * 3 == cw * ch * 3) by (nonlinear_arith);
        }
        let part = RgbImage { width: rect.width, height: rect.height, data };
        proof {
            assert forall|x: int, y: int, c: int|
                0 <= x < rect.width && 0 <= y < rect.height && 0 <= c < 3 implies #[trigger] part.channel(
                x, y, c) == self.channel(region_column(rect, mirrored, x), rect.y + y, c) by {
                assert(copied_pixels(part.data@, self.data@, w, rect, mirrored, y, cw));
                assert(part.data@[byte_index(cw, x, y, c)] == self.data@[byte_index(
                    w,
                    region_column(rect, mirrored, x),
                    rect.y + y,
                    c,
                )]);
            }
        }
        part
    }

    /// The part of the picture within `rect`, as a picture of its own.
    /// `None` where `rect` does not lie within the picture.
    pub fn crop(&self, rect: Rect) -> (part: Option<RgbImage>)
        ensures
            part.is_some() == self.holds(rect),
            part matches Some(cut) ==> self.is_cut_to(rect, cut),
    {
        if rect.x as u64 + rect.width as u64 > self.width as u64 || rect.y as u64
            + rect.height as u64 > self.height as u64 {
            return None;
        }
        Some(self.copy_region(rect, false))
    }

    /// The picture mirrored left to right.
    pub fn flip_horizontal(&self) -> (mirrored: RgbImage)
        ensures
            mirrored.spec_width() == self.spec_width(),
            mirrored.spec_height() == self.spec_height(),
            forall|x: int, y: int, c: int|
                0 <= x < self.spec_width() && 0 <= y < self.spec_height() && 0 <= c < 3
                    ==> #[trigger] mirrored.channel(x, y, c) == self.channel(
                    self.spec_width() - 1 - x,
                    y,
                    c,
                ),
    {
        self.copy_region(Rect { x: 0, y: 0, width: self.width, height: self.height }, true)
    }

    /// The red channel of every pixel, row by row.
    pub fn red_channel(&self) -> (reds: Vec<u8>)
        ensures
            reds@.len() == self.spec_width() * self.spec_height(),
            forall|x: int, y: int|
                0 <= x < self.spec_width() && 0 <= y < self.spec_height() ==> reds@[y
                    * self.spec_width() + x] == #[trigger] self.channel(x, y, 0),
    {
        proof {
            use_type_invariant(self);
        }
        let count = self.data.len() / 3;
        let mut reds: Vec<u8> = Vec::new();
        let mut i: usize = 0;
        while i < count
            invariant
                i <= count,
                count * 3 == self.data@.len(),
                self.data@.len() <= usize::MAX,
                reds@.len() == i,
                forall|k: int| 0 <= k < i ==> reds@[k] == self.data@[k * 3],
            decreases count - i,
        {
            reds.push(self.data[i * 3]);
            i += 1;
        }
        proof {
            let w = self.width as int;
            let h = self.height as int;
            assert(count == w * h);
            assert forall|x: int, y: int|
                0 <= x < self.spec_width() && 0 <= y < self.spec_height() implies reds@[y
                * self.spec_width() + x] == #[trigger] self.channel(x, y, 0) by {
                lemma_byte_index_in_bounds(w, h, x, y, 0);
            }
        }
        reds
    }
}

/// The bytes of the pixel at (`x`, `y`) begin behind those of every pixel
/// before it in its row, and the row begins behind all rows above it.
proof fn lemma_rows_apart(width: int, x: int, y: int)
    requires
        0 <= x < width,
        0 <= y,
    ensures
        0 <= (y * width + x) * 3,
        forall|i: int, c: int|
            0 <= i < x && 0 <= c < 3 ==> #[trigger] byte_index(width, i, y, c) < (y * width + x) * 3,
        forall|c: int| 0 <= c < 3 ==> #[trigger] byte_index(width, x, y, c) == (y * width + x) * 3 + c,
{
    assert(0 <= y * width) by (nonlinear_arith)
        requires
            0 <= y,
            0 <= width,
    ;
}


// ---------------------------------------------------------------------------
// Encoding and decoding, done by the `image` crate
// ---------------------------------------------------------------------------

/// The JPEG file that the encoder of the `image` crate makes, at its
/// default quality, of an RGB picture of the given size and bytes.
pub uninterp spec fn jpeg_encoding(width: u32, height: u32, pixels: Seq<u8>) -> Seq<u8>;

/// Whether a picture of this size can be written as a JPEG file: width and
/// height are at least 1 and fit into 16 bits.
pub open spec fn jpeg_can_hold(width: u32, height: u32) -> bool {
    1 <= width <= JPEG_MAX_DIMENSION && 1 <= height <= JPEG_MAX_DIMENSION
}

/// What the JPEG decoder of the `image` crate makes of a file: width,
/// height and the bytes of the picture as 8-bit RGB, or `None` where it
/// refuses the file.
pub uninterp spec fn jpeg_decoding(file: Seq<u8>) -> Option<(u32, u32, Seq<u8>)>;

/// Decodes a JPEG file with `image::ImageReader::decode`, set to the JPEG
/// format, and converts the picture to 8-bit RGB with
/// `DynamicImage::into_rgb8`. Returns width, height and bytes; `None` where
/// the decoder reports an error. What comes back is a function of the file
/// alone, and is given its name here.
#[verifier::external_body]
fn decode_jpeg(bytes: &[u8]) -> (decoded: Option<(u32, u32, Vec<u8>)>)
    ensures
        match decoded {
            Some(parts) => jpeg_decoding(bytes@) == Some((parts.0, parts.1, parts.2@)),
            None => jpeg_decoding(bytes@).is_none(),
        },
{
    let mut reader = image::ImageReader::new(std::io::Cursor::new(bytes));
    reader.set_format(image::ImageFormat::Jpeg);
    match reader.decode() {
        Ok(picture) => {
            let rgb = picture.into_rgb8();
            Some((rgb.width(), rgb.height(), rgb.into_raw()))
        },
        Err(_) => None,
    }
}

/// Encodes RGB bytes as a JPEG file with `image::codecs::jpeg::JpegEncoder::encode`.
/// The encoder refuses exactly the sizes that a JPEG file cannot hold; its
/// output is a function of size and bytes alone. It panics where the number
/// of bytes does not fit the size, which the precondition rules out.
#[verifier::external_body]
fn encode_jpeg(width: u32, height: u32, pixels: &[u8]) -> (encoded: Option<Vec<u8>>)
    requires
        pixels@.len() == width * height * 3,
    ensures
        encoded.is_some() == jpeg_can_hold(width, height),
        encoded matches Some(file) ==> file@ == jpeg_encoding(width, height, pixels@),
{
    let mut file = Vec::with_capacity(8192);
    let mut encoder = image::codecs::jpeg::JpegEncoder::new(&mut file);
    match encoder.encode(pixels, width, height, image::ExtendedColorType::Rgb8) {
        Ok(()) => Some(file),
        Err(_) => None,
    }
}

/// Resamples RGB bytes to a new size with `image::imageops::resize` and the
/// Lanczos filter with window 3. Returns the bytes of the new picture, which
/// the crate allocates for the new size, three bytes a pixel. Nothing is
/// claimed of their values, which come out of floating-point arithmetic. The
/// crate panics where the new picture, or the picture it makes in between,
/// of the old width and the new height with four values a pixel, has more
/// values than `usize` holds.
#[verifier::external_body]
fn resize_lanczos3(width: u32, height: u32, pixels: &[u8], new_width: u32, new_height: u32) -> (resized: Vec<u8>)
    requires
        pixels@.len() == width * height * 3,
        new_width * new_height * 3 <= usize::MAX,
        width * new_height * 4 <= usize::MAX,
    ensures
        resized@.len() == new_width * new_height * 3,
{
    let source: image::ImageBuffer<image::Rgb<u8>, &[u8]> = image::ImageBuffer::from_raw(
        width,
        height,
        pixels,
    ).unwrap();
    let filter = image::imageops::FilterType::Lanczos3;
    image::imageops::resize(&source, new_width, new_height, filter).into_raw()
}

impl RgbImage {
    /// Whether what the decoder makes of `file` is a picture: it gives
    /// three bytes for each pixel of the size it names.
    pub open spec fn decodes(file: Seq<u8>) -> bool {
        jpeg_decoding(file) matches Some(parts) && parts.2.len() == parts.0 * parts.1 * 3
    }

    /// The picture that a JPEG file holds, as the decoder makes it out.
    /// `None` where the decoder refuses the file, or does not give three
    /// bytes for each pixel.
    pub fn decode_jpeg(bytes: &[u8]) -> (image: Option<RgbImage>)
        ensures
            image.is_some() == RgbImage::decodes(bytes@),
            image matches Some(picture) ==> jpeg_decoding(bytes@) == Some(
                (picture.spec_width(), picture.spec_height(), picture.bytes()),
            ),
    {
        RgbImage::from_decoder(decode_jpeg(bytes))
    }

    /// Takes what a decoder returned for a picture: `None` where it
    /// returned nothing, or where the bytes do not fit the size it gave.
    pub fn from_decoder(decoded: Option<(u32, u32, Vec<u8>)>) -> (image: Option<RgbImage>)
        ensures
            image.is_some() == (decoded matches Some(parts) && parts.2@.len() == parts.0 * parts.1
                * 3),
            image matches Some(picture) ==> decoded matches Some(parts) && picture.spec_width()
                == parts.0 && picture.spec_height() == parts.1 && picture.bytes() == parts.2@,
    {
        match decoded {
            Some((width, height, data)) => RgbImage::from_raw(width, height, data),
            None => None,
        }
    }

    /// The picture as a JPEG file. `None` where its size is one that a JPEG
    /// file cannot hold.
    pub fn to_jpeg(&self) -> (file: Option<Vec<u8>>)
        ensures
            file.is_some() == jpeg_can_hold(self.spec_width(), self.spec_height()),
            file matches Some(encoded) ==> encoded@ == jpeg_encoding(
                self.spec_width(),
                self.spec_height(),
                self.bytes(),
            ),
    {
        proof {
            use_type_invariant(self);
        }
        encode_jpeg(self.width, self.height, self.data.as_slice())
    }

    /// The picture resampled to `new_width` by `new_height` pixels with the
    /// Lanczos filter: always a picture of that size. What the resampler
    /// returns is checked against the size all the same before it becomes a
    /// picture.
    pub fn resize(&self, new_width: u32, new_height: u32) -> (resized: Option<RgbImage>)
        requires
            new_width * new_height * 3 <= usize::MAX,
            self.spec_width() * new_height * 4 <= usize::MAX,
        ensures
            resized matches Some(picture) && picture.spec_width() == new_width
                && picture.spec_height() == new_height,
    {
        proof {
            use_type_invariant(self);
        }
        let data = resize_lanczos3(self.width, self.height, self.data.as_slice(), new_width, new_height);
        RgbImage::from_raw(new_width, new_height, data)
    }
}

// ---------------------------------------------------------------------------
// Frames
// ---------------------------------------------------------------------------

/// One frame of a camera.
#[derive(Debug, Clone)]
pub struct Frame {
    /// The JPEG file that the frame was decoded from, or was encoded to;
    /// `None` until one of the two has happened.
    pub raw_jpeg_data: Option<Vec<u8>>,
    pub decoded: RgbImage,
    /// When the frame was captured.
    pub timestamp: Timestamp,
}

impl Frame {
    /// The JPEG bytes that the frame holds, if it holds any.
    pub open spec fn raw(self) -> Option<Seq<u8>> {
        match self.raw_jpeg_data {
            Some(file) => Some(file@),
            None => None,
        }
    }

    /// The frame that a camera delivered as the JPEG file `raw` at the time
    /// `timestamp`, given what the decoder made of the file. A file that
    /// the decoder refused gives no frame.
    pub fn from_decoded(raw: Vec<u8>, decoded: Option<RgbImage>, timestamp: Timestamp) -> (frame: Option<Frame>)
        ensures
            frame.is_some() == decoded.is_some(),
            frame matches Some(f) ==> f.raw() == Some(raw@) && Some(f.decoded) == decoded
                && f.timestamp == timestamp,
    {
        match decoded {
            Some(picture) => Some(Frame { raw_jpeg_data: Some(raw), decoded: picture, timestamp }),
            None => None,
        }
    }

    /// The frame that a camera delivered as the JPEG file `raw` at the time
    /// `timestamp`: it holds the file, the picture that the decoder makes of
    /// it, and the time. A file that does not decode to a picture gives no
    /// frame.
    pub fn from_jpeg(raw: Vec<u8>, timestamp: Timestamp) -> (frame: Option<Frame>)
        ensures
            frame.is_some() == RgbImage::decodes(raw@),
            frame matches Some(f) ==> f.raw() == Some(raw@) && f.timestamp == timestamp
                && jpeg_decoding(raw@) == Some(
                (f.decoded.spec_width(), f.decoded.spec_height(), f.decoded.bytes()),
            ),
    {
        let decoded = RgbImage::decode_jpeg(raw.as_slice());
        Frame::from_decoded(raw, decoded, timestamp)
    }

    /// The frame as a JPEG file: the file it was decoded from where it has
    /// one, else a fresh encoding of the picture, which the frame keeps for
    /// the next time. `None` where the frame has no file and its picture is
    /// of a size that a JPEG file cannot hold; the frame is then unchanged.
    pub fn as_jpeg_bytes(&mut self) -> (file: Option<Vec<u8>>)
        ensures
            final(self).decoded == old(self).decoded,
            final(self).timestamp == old(self).timestamp,
            match old(self).raw() {
                Some(kept) => file matches Some(bytes) && bytes@ == kept && final(self).raw()
                    == Some(kept),
                None => if jpeg_can_hold(
                    old(self).decoded.spec_width(),
                    old(self).decoded.spec_height(),
                ) {
                    &&& file matches Some(bytes)
                    &&& bytes@ == jpeg_encoding(
                        old(self).decoded.spec_width(),
                        old(self).decoded.spec_height(),
                        old(self).decoded.bytes(),
                    )
                    &&& final(self).raw() == Some(bytes@)
                } else {
                    file.is_none() && final(self).raw().is_none()
                },
            },
    {
        if self.raw_jpeg_data.is_none() {
            match self.decoded.to_jpeg() {
                Some(encoded) => {
                    self.raw_jpeg_data = Some(encoded);
                },
                None => {
                    return None;
                },
            }
        }
        match &self.raw_jpeg_data {
            Some(kept) => Some(slice_to_vec(kept.as_slice())),
            None => None,
        }
    }
}

} // verus!
