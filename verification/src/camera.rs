//! Camera snapshots: packing the rows of a captured frame, the image kinds
//! a snapshot can be served as, and a cache entry that goes stale with time.
//!
//! Capturing, encoding and the clock are the caller's business; this module
//! holds what is decided and computed from plain values.

use vstd::arithmetic::div_mod::lemma_fundamental_div_mod;
use vstd::arithmetic::mul::{lemma_mul_inequality, lemma_mul_is_distributive_add_other_way};
use vstd::prelude::*;
use vstd::slice::slice_subrange;
use vstd::string::StringExecFns;

verus! {

/// The number of bytes of one pixel: red, green and blue.
pub const BYTES_PER_PIXEL: u64 = 3;

/// The first `row_width` bytes of each of the first `rows` rows of `data`,
/// one row after the other, where a row starts every `stride` bytes.
pub open spec fn packed_rows(data: Seq<u8>, stride: int, row_width: int, rows: nat) -> Seq<u8>
    decreases rows,
{
    if rows == 0 {
        Seq::<u8>::empty()
    } else {
        packed_rows(data, stride, row_width, (rows - 1) as nat) + data.subrange(
            (rows - 1) * stride,
            (rows - 1) * stride + row_width,
        )
    }
}

/// `count` zero bytes.
pub open spec fn zeros(count: int) -> Seq<u8> {
    Seq::new(count as nat, |i: int| 0u8)
}

/// The number of whole rows among the first `used` bytes of a buffer whose
/// rows start every `stride` bytes, for an image `width` pixels wide. An
/// image without width has rows without bytes, and none of them is counted.
pub open spec fn rows_captured(used: int, stride: int, width: int) -> int {
    if width == 0 {
        0
    } else {
        used / stride
    }
}

/// Whether a captured buffer can be packed into an image of the given size:
/// the bytes in use lie within the buffer, the size of the image in bytes
/// fits in 32 bits, the lines captured fit the image, and, where any line
/// was captured, a row is at least as long as the pixels of one line.
pub open spec fn can_unpack(len: int, used: int, stride: int, width: int, height: int) -> bool {
    &&& used <= len
    &&& stride > 0
    &&& BYTES_PER_PIXEL * width <= u32::MAX
    &&& BYTES_PER_PIXEL * width * height <= u32::MAX
    &&& rows_captured(used, stride, width) <= height
    &&& rows_captured(used, stride, width) > 0 ==> BYTES_PER_PIXEL * width <= stride
}

/// The pixels of an image of the given size, packed from a captured buffer:
/// the lines captured without the padding at the end of each row, then zero
/// bytes for the lines that were not captured.
pub open spec fn unpacked(data: Seq<u8>, used: int, stride: int, width: int, height: int) -> Seq<
    u8,
> {
    let row_width = BYTES_PER_PIXEL * width;
    let rows = rows_captured(used, stride, width);
    packed_rows(data, stride, row_width, rows as nat) + zeros(row_width * (height - rows))
}

/// Packs the rows of a captured buffer into the pixels of an image `width`
/// pixels wide and `height` pixels high. Of `data` the first `used` bytes
/// count; a row starts every `stride` bytes and its first `3 * width` bytes
/// are pixels. Returns nothing where the buffer cannot be packed.
pub fn unpack_rows(data: &[u8], used: usize, stride: usize, width: u32, height: u32) -> (pixels:
    Option<Vec<u8>>)
    ensures
        match pixels {
            Some(p) => {
                &&& can_unpack(
                    data@.len() as int,
                    used as int,
                    stride as int,
                    width as int,
                    height as int,
                )
                &&& p@ == unpacked(
                    data@,
                    used as int,
                    stride as int,
                    width as int,
                    height as int,
                )
            },
            None => !can_unpack(
                data@.len() as int,
                used as int,
                stride as int,
                width as int,
                height as int,
            ),
        },
{
    let wide: u64 = BYTES_PER_PIXEL * (width as u64);
    if used > data.len() || stride == 0 || wide > u32::MAX as u64 {
        return None;
    }
    assert(wide * (height as u64) <= u32::MAX * u32::MAX) by (nonlinear_arith)
        requires
            wide <= u32::MAX,
            height <= u32::MAX,
    ;
    let total64: u64 = wide * (height as u64);
    if total64 > u32::MAX as u64 {
        return None;
    }
    let row_width: usize = wide as usize;
    let total: usize = total64 as usize;
    let rows: usize = if width == 0 {
        0
    } else {
        used / stride
    };
    if rows > height as usize || (rows > 0 && wide > stride as u64) {
        return None;
    }
    proof {
        lemma_fundamental_div_mod(used as int, stride as int);
        assert(rows * stride <= used) by (nonlinear_arith)
            requires
                rows == 0 || used == stride * (used as int / stride as int) + (used as int
                    % stride as int) && rows == used as int / stride as int,
                0 <= used as int % stride as int,
                stride > 0,
        ;
        lemma_mul_inequality(rows as int, height as int, row_width as int);
        assert(rows * row_width <= total) by (nonlinear_arith)
            requires
                rows * row_width <= height * row_width,
                total == row_width * height,
        ;
    }
    let mut pixels: Vec<u8> = Vec::new();
    let mut row: usize = 0;
    while row < rows
        invariant
            row <= rows,
            rows * stride <= used <= data@.len(),
            rows > 0 ==> row_width <= stride,
            pixels@ == packed_rows(data@, stride as int, row_width as int, row as nat),
        decreases rows - row,
    {
        proof {
            lemma_mul_inequality(row as int + 1, rows as int, stride as int);
            lemma_mul_is_distributive_add_other_way(stride as int, row as int, 1);
        }
        let start: usize = row * stride;
        let ghost before = pixels@;
        pixels.extend_from_slice(slice_subrange(data, start, start + row_width));
        assert(pixels@ =~= before + data@.subrange(start as int, start + row_width));
        row = row + 1;
    }
    let ghost copied = pixels@;
    proof {
        if rows > 0 {
            lemma_packed_rows_len(data@, stride as int, row_width as int, rows as nat);
        }
        assert(row_width * (height - rows) == total - rows * row_width) by (nonlinear_arith)
            requires
                total == row_width * height,
        ;
    }
    pixels.resize(total, 0u8);
    assert(pixels@ =~= copied + zeros(total - copied.len()));
    Some(pixels)
}

/// What a frame is: its size in pixels and its bytes, three for each pixel,
/// line by line.
pub struct FrameView {
    pub width: u32,
    pub height: u32,
    pub pixels: Seq<u8>,
}

/// An image of red, green and blue bytes. Its buffer holds at least the
/// bytes of all its pixels.
#[derive(Debug)]
pub struct Frame {
    width: u32,
    height: u32,
    pixels: Vec<u8>,
}

impl View for Frame {
    type V = FrameView;

    closed spec fn view(&self) -> FrameView {
        FrameView { width: self.width, height: self.height, pixels: self.pixels@ }
    }
}

/// Whether a buffer of `len` bytes holds an image of the given size.
pub open spec fn frame_fits(width: u32, height: u32, len: int) -> bool {
    BYTES_PER_PIXEL * width * height <= len
}

impl Frame {
    #[verifier::type_invariant]
    spec fn buffer_holds_pixels(self) -> bool {
        frame_fits(self.width, self.height, self.pixels@.len() as int)
    }

    /// An image of the given size over `pixels`, provided the buffer is
    /// large enough for it.
    pub fn from_raw(width: u32, height: u32, pixels: Vec<u8>) -> (frame: Option<Frame>)
        ensures
            frame is Some <==> frame_fits(width, height, pixels@.len() as int),
            frame matches Some(f) ==> f@ == (FrameView { width, height, pixels: pixels@ }),
    {
        let wide: u64 = BYTES_PER_PIXEL * (width as u64);
        assert(wide * (height as u64) <= 3 * u32::MAX * u32::MAX) by (nonlinear_arith)
            requires
                wide <= 3 * u32::MAX,
                height <= u32::MAX,
        ;
        let needed: u128 = (wide as u128) * (height as u128);
        if needed <= pixels.len() as u128 {
            Some(Frame { width, height, pixels })
        } else {
            None
        }
    }

    /// The width in pixels.
    pub fn width(&self) -> (width: u32)
        ensures
            width == self@.width,
    {
        self.width
    }

    /// The height in pixels.
    pub fn height(&self) -> (height: u32)
        ensures
            height == self@.height,
    {
        self.height
    }

    /// The bytes of the image, which hold at least all its pixels.
    pub fn as_raw(&self) -> (pixels: &Vec<u8>)
        ensures
            pixels@ == self@.pixels,
            frame_fits(self@.width, self@.height, pixels@.len() as int),
    {
        proof {
            use_type_invariant(self);
        }
        &self.pixels
    }

    /// Gives up the image for its bytes.
    pub fn into_raw(self) -> (pixels: Vec<u8>)
        ensures
            pixels@ == self@.pixels,
    {
        self.pixels
    }
}

impl Clone for Frame {
    fn clone(&self) -> (copy: Frame)
        ensures
            copy@ == self@,
    {
        proof {
            use_type_invariant(self);
        }
        let pixels = self.pixels.clone();
        assert(pixels@ =~= self.pixels@);
        Frame { width: self.width, height: self.height, pixels }
    }
}

/// The kinds of image that a snapshot can be served as.
#[derive(Clone, Copy, Debug, PartialEq, Eq, Structural)]
pub enum ImageKind {
    Jpeg,
    Png,
    Gif,
    Bmp,
    Ico,
    Tiff,
    WebP,
    Qoi,
}

/// The kind of image that a file extension asks for. An extension that
/// names no kind asks for JPEG.
pub open spec fn kind_of(extension: Seq<char>) -> ImageKind {
    if extension == "jpg"@ {
        ImageKind::Jpeg
    } else if extension == "png"@ {
        ImageKind::Png
    } else if extension == "gif"@ {
        ImageKind::Gif
    } else if extension == "bmp"@ {
        ImageKind::Bmp
    } else if extension == "ico"@ {
        ImageKind::Ico
    } else if extension == "tiff"@ {
        ImageKind::Tiff
    } else if extension == "webp"@ {
        ImageKind::WebP
    } else if extension == "qoi"@ {
        ImageKind::Qoi
    } else {
        ImageKind::Jpeg
    }
}

/// The content type under which an image of a kind is served.
pub open spec fn content_type_of(kind: ImageKind) -> Seq<char> {
    match kind {
        ImageKind::Jpeg => "image/jpeg"@,
        ImageKind::Png => "image/png"@,
        ImageKind::Gif => "image/gif"@,
        ImageKind::Bmp => "image/bmp"@,
        ImageKind::Ico => "image/ico"@,
        ImageKind::Tiff => "image/tiff"@,
        ImageKind::WebP => "image/webp"@,
        ImageKind::Qoi => "image/qoi"@,
    }
}

/// Whether `text` reads exactly as `word`.
fn reads_as(text: &String, word: &str) -> (same: bool)
    ensures
        same == (text@ == word@),
{
    let other = String::from_str(word);
    *text == other
}

impl ImageKind {
    /// The kind of image that a file extension asks for.
    pub fn from_extension(extension: &str) -> (kind: ImageKind)
        ensures
            kind == kind_of(extension@),
    {
        let asked = String::from_str(extension);
        if reads_as(&asked, "jpg") {
            ImageKind::Jpeg
        } else if reads_as(&asked, "png") {
            ImageKind::Png
        } else if reads_as(&asked, "gif") {
            ImageKind::Gif
        } else if reads_as(&asked, "bmp") {
            ImageKind::Bmp
        } else if reads_as(&asked, "ico") {
            ImageKind::Ico
        } else if reads_as(&asked, "tiff") {
            ImageKind::Tiff
        } else if reads_as(&asked, "webp") {
            ImageKind::WebP
        } else if reads_as(&asked, "qoi") {
            ImageKind::Qoi
        } else {
            ImageKind::Jpeg
        }
    }

    /// The content type under which an image of this kind is served.
    pub fn content_type(self) -> (name: &'static str)
        ensures
            name@ == content_type_of(self),
    {
        match self {
            ImageKind::Jpeg => "image/jpeg",
            ImageKind::Png => "image/png",
            ImageKind::Gif => "image/gif",
            ImageKind::Bmp => "image/bmp",
            ImageKind::Ico => "image/ico",
            ImageKind::Tiff => "image/tiff",
            ImageKind::WebP => "image/webp",
            ImageKind::Qoi => "image/qoi",
        }
    }
}

/// The age, in nanoseconds, beyond which a cached image is stale.
pub const CACHE_AGE_NANOS: u128 = 10_000_000_000;

/// What a cache entry is: the image and the time at which it was made, in
/// nanoseconds on a clock that never runs backwards.
pub struct CacheView {
    pub image: FrameView,
    pub created_at: u128,
}

/// A captured image together with the time of its capture.
#[derive(Debug)]
pub struct ImageCache {
    image: Frame,
    created_at: u128,
}

impl View for ImageCache {
    type V = CacheView;

    closed spec fn view(&self) -> CacheView {
        CacheView { image: self.image@, created_at: self.created_at }
    }
}

/// Whether an entry made at `created_at` is stale at `now`: more than the
/// cache age has passed. A clock reading before the entry was made counts as
/// no time passed.
pub open spec fn stale_at(created_at: u128, now: u128) -> bool {
    now - created_at > CACHE_AGE_NANOS
}

impl ImageCache {
    /// An entry for `image`, made at `now`.
    pub fn new(image: Frame, now: u128) -> (cache: ImageCache)
        ensures
            cache@ == (CacheView { image: image@, created_at: now }),
    {
        ImageCache { image, created_at: now }
    }

    /// Whether the entry is stale at `now`.
    pub fn stale(&self, now: u128) -> (stale: bool)
        ensures
            stale == stale_at(self@.created_at, now),
    {
        now > self.created_at && now - self.created_at > CACHE_AGE_NANOS
    }

    /// A copy of the cached image.
    pub fn image(&self) -> (image: Frame)
        ensures
            image@ == self@.image,
    {
        self.image.clone()
    }
}


/// The packed rows hold `row_width` bytes for each row, provided the rows
/// lie within the data.
pub proof fn lemma_packed_rows_len(data: Seq<u8>, stride: int, row_width: int, rows: nat)
    requires
        0 <= row_width <= stride,
        rows * stride <= data.len(),
    ensures
        packed_rows(data, stride, row_width, rows).len() == rows * row_width,
    decreases rows,
{
    if rows == 0 {
        assert(rows * row_width == 0) by (nonlinear_arith)
            requires
                rows == 0,
        ;
    } else {
        let start = (rows - 1) * stride;
        assert(start + stride == rows * stride) by (nonlinear_arith)
            requires
                start == (rows - 1) * stride,
        ;
        assert((rows - 1) * row_width + row_width == rows * row_width) by (nonlinear_arith);
        assert(start >= 0) by (nonlinear_arith)
            requires
                start == (rows - 1) * stride,
                rows >= 1,
                stride >= 0,
        ;
        lemma_packed_rows_len(data, stride, row_width, (rows - 1) as nat);
        assert(data.subrange(start, start + row_width).len() == row_width);
    }
}

} // verus!
