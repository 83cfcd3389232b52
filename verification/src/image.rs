//! Decoding of the `read-image` payload: a base64 PNG, cross-checked against
//! the dimensions the bridge reported and normalised to RGBA8.

use base64::Engine as _;
use vstd::prelude::*;

use crate::clipboard::{rgba_len, ClipboardError, ClipboardImage};

verus! {

/// The sample layout of a decoded 8-bit PNG frame.
#[derive(Clone, Copy, Debug, PartialEq, Eq, Structural)]
pub enum PixelLayout {
    Grayscale,
    Rgb,
    Indexed,
    GrayscaleAlpha,
    Rgba,
}

/// The PNG colour-type numbers (PNG specification, IHDR): 0 grayscale,
/// 2 RGB, 3 palette, 4 grayscale with alpha, 6 RGBA.
pub open spec fn is_png_color_code(code: u8) -> bool {
    code == 0 || code == 2 || code == 3 || code == 4 || code == 6
}

/// The layout named by a PNG colour-type number.
pub open spec fn layout_of_png_code(code: u8) -> Option<PixelLayout> {
    if code == 0 {
        Some(PixelLayout::Grayscale)
    } else if code == 2 {
        Some(PixelLayout::Rgb)
    } else if code == 3 {
        Some(PixelLayout::Indexed)
    } else if code == 4 {
        Some(PixelLayout::GrayscaleAlpha)
    } else if code == 6 {
        Some(PixelLayout::Rgba)
    } else {
        None
    }
}

impl PixelLayout {
    /// The layout named by a PNG colour-type number, if it names one.
    pub fn from_png_code(code: u8) -> (r: Option<PixelLayout>)
        ensures
            r == layout_of_png_code(code),
            r is Some <==> is_png_color_code(code),
    {
        if code == 0 {
            Some(PixelLayout::Grayscale)
        } else if code == 2 {
            Some(PixelLayout::Rgb)
        } else if code == 3 {
            Some(PixelLayout::Indexed)
        } else if code == 4 {
            Some(PixelLayout::GrayscaleAlpha)
        } else if code == 6 {
            Some(PixelLayout::Rgba)
        } else {
            None
        }
    }
}

/// Samples per pixel of the PNG colour type with the given number.
pub open spec fn png_samples(code: u8) -> nat {
    if code == 2 {
        3
    } else if code == 4 {
        2
    } else if code == 6 {
        4
    } else {
        1
    }
}

/// Bytes per pixel of an 8-bit frame in the given layout.
pub open spec fn channels(layout: PixelLayout) -> nat {
    match layout {
        PixelLayout::Grayscale => 1,
        PixelLayout::Rgb => 3,
        PixelLayout::Indexed => 1,
        PixelLayout::GrayscaleAlpha => 2,
        PixelLayout::Rgba => 4,
    }
}

/// Pixel `p` of `buf` as RGBA: gray is replicated to red, green and blue;
/// a missing alpha sample becomes 255 (opaque).
pub open spec fn rgba_pixel(buf: Seq<u8>, layout: PixelLayout, p: int) -> Seq<u8> {
    match layout {
        PixelLayout::Rgb => seq![buf[3 * p], buf[3 * p + 1], buf[3 * p + 2], 255u8],
        PixelLayout::GrayscaleAlpha => seq![buf[2 * p], buf[2 * p], buf[2 * p], buf[2 * p + 1]],
        PixelLayout::Rgba => seq![buf[4 * p], buf[4 * p + 1], buf[4 * p + 2], buf[4 * p + 3]],
        _ => seq![buf[p], buf[p], buf[p], 255u8],
    }
}

/// The first `n` pixels of `buf`, each as RGBA.
pub open spec fn rgba_pixels(buf: Seq<u8>, layout: PixelLayout, n: nat) -> Seq<u8>
    decreases n,
{
    if n == 0 {
        Seq::empty()
    } else {
        rgba_pixels(buf, layout, (n - 1) as nat) + rgba_pixel(buf, layout, n - 1)
    }
}

/// An 8-bit frame as RGBA8: an RGBA frame is taken as it is; any other
/// frame is converted pixel by pixel over its whole pixels (a trailing
/// partial pixel is dropped).
pub open spec fn rgba_expansion(buf: Seq<u8>, layout: PixelLayout) -> Seq<u8> {
    if layout == PixelLayout::Rgba {
        buf
    } else {
        rgba_pixels(buf, layout, buf.len() / channels(layout))
    }
}

proof fn lemma_rgba_pixels_len(buf: Seq<u8>, layout: PixelLayout, n: nat)
    ensures
        rgba_pixels(buf, layout, n).len() == 4 * n,
    decreases n,
{
    if n > 0 {
        lemma_rgba_pixels_len(buf, layout, (n - 1) as nat);
    }
}

proof fn lemma_rgba_pixels_at(buf: Seq<u8>, layout: PixelLayout, n: nat, p: int)
    requires
        0 <= p < n,
    ensures
        rgba_pixels(buf, layout, n).subrange(4 * p, 4 * p + 4) == rgba_pixel(buf, layout, p),
    decreases n,
{
    lemma_rgba_pixels_len(buf, layout, (n - 1) as nat);
    let prev = rgba_pixels(buf, layout, (n - 1) as nat);
    let all = rgba_pixels(buf, layout, n);
    if p == n - 1 {
        assert(all.subrange(4 * p, 4 * p + 4) =~= rgba_pixel(buf, layout, p));
    } else {
        lemma_rgba_pixels_at(buf, layout, (n - 1) as nat, p);
        assert(all.subrange(4 * p, 4 * p + 4) =~= prev.subrange(4 * p, 4 * p + 4));
    }
}

/// Converting a frame that is not RGBA yields four bytes per whole pixel.
pub proof fn law_rgba_expansion_len(buf: Seq<u8>, layout: PixelLayout)
    requires
        layout != PixelLayout::Rgba,
    ensures
        rgba_expansion(buf, layout).len() == 4 * (buf.len() / channels(layout)),
{
    lemma_rgba_pixels_len(buf, layout, buf.len() / channels(layout));
}

/// Pixel `p` of a converted frame is pixel `p` of the source in RGBA: the
/// four bytes at `4 * p` hold it.
pub proof fn law_rgba_expansion_pixel(buf: Seq<u8>, layout: PixelLayout, p: int)
    requires
        0 <= p < buf.len() / channels(layout),
    ensures
        rgba_expansion(buf, layout).subrange(4 * p, 4 * p + 4) == rgba_pixel(buf, layout, p),
{
    if layout == PixelLayout::Rgba {
        assert(4 * p + 4 <= buf.len()) by (nonlinear_arith)
            requires
                p < buf.len() / 4,
                0 <= p,
        ;
        assert(buf.subrange(4 * p, 4 * p + 4) =~= rgba_pixel(buf, layout, p));
    } else {
        lemma_rgba_pixels_at(buf, layout, buf.len() / channels(layout), p);
    }
}

/// Gray and RGB frames carry no alpha: every converted pixel is opaque.
pub proof fn law_rgba_expansion_opaque_without_alpha(buf: Seq<u8>, layout: PixelLayout, p: int)
    requires
        layout == PixelLayout::Rgb || layout == PixelLayout::Grayscale,
        0 <= p < buf.len() / channels(layout),
    ensures
        rgba_expansion(buf, layout)[4 * p + 3] == 255,
{
    law_rgba_expansion_pixel(buf, layout, p);
    law_rgba_expansion_len(buf, layout);
    assert(rgba_expansion(buf, layout).subrange(4 * p, 4 * p + 4)[3] == rgba_expansion(buf, layout)[4 * p + 3]);
}

/// A whole `width` x `height` frame converts to exactly the RGBA buffer
/// size that `write-image` accepts for that size.
pub proof fn law_whole_frame_converts_to_rgba_len(
    pixels: Seq<u8>,
    layout: PixelLayout,
    width: u32,
    height: u32,
)
    requires
        layout != PixelLayout::Indexed,
        pixels.len() == width * height * channels(layout),
    ensures
        rgba_expansion(pixels, layout).len() == rgba_len(width, height),
{
    let c = channels(layout);
    let wh = width * height;
    assert(pixels.len() / c == wh) by (nonlinear_arith)
        requires
            pixels.len() == wh * c,
            c >= 1,
    ;
    assert(4 * wh == width * height * 4) by (nonlinear_arith)
        requires
            wh == width * height,
    ;
    if layout != PixelLayout::Rgba {
        law_rgba_expansion_len(pixels, layout);
    } else {
        assert(pixels.len() == width * height * 4) by (nonlinear_arith)
            requires
                pixels.len() == wh * c,
                c == 4,
                wh == width * height,
        ;
    }
}

fn push_rgba_pixel(out: &mut Vec<u8>, buf: &Vec<u8>, layout: PixelLayout, p: usize)
    requires
        layout != PixelLayout::Rgba,
        layout != PixelLayout::Indexed,
        p < buf@.len() / channels(layout),
    ensures
        final(out)@ == old(out)@ + rgba_pixel(buf@, layout, p as int),
{
    let len = buf.len();
    match layout {
        PixelLayout::Rgb => {
            assert(3 * p + 3 <= len) by (nonlinear_arith)
                requires
                    p < len / 3,
            ;
            let b = 3 * p;
            out.push(buf[b]);
            out.push(buf[b + 1]);
            out.push(buf[b + 2]);
            out.push(255);
        },
        PixelLayout::GrayscaleAlpha => {
            assert(2 * p + 2 <= len) by (nonlinear_arith)
                requires
                    p < len / 2,
            ;
            let b = 2 * p;
            out.push(buf[b]);
            out.push(buf[b]);
            out.push(buf[b]);
            out.push(buf[b + 1]);
        },
        _ => {
            out.push(buf[p]);
            out.push(buf[p]);
            out.push(buf[p]);
            out.push(255);
        },
    }
    assert(final(out)@ =~= old(out)@ + rgba_pixel(buf@, layout, p as int));
}

/// Converts an 8-bit frame to RGBA8 (see `rgba_expansion`).
pub fn expand_to_rgba(buf: Vec<u8>, layout: PixelLayout) -> (out: Vec<u8>)
    requires
        layout != PixelLayout::Indexed,
    ensures
        out@ == rgba_expansion(buf@, layout),
{
    if layout == PixelLayout::Rgba {
        return buf;
    }
    let c: usize = match layout {
        PixelLayout::Rgb => 3,
        PixelLayout::GrayscaleAlpha => 2,
        _ => 1,
    };
    let n = buf.len() / c;
    let mut out: Vec<u8> = Vec::new();
    let mut p: usize = 0;
    while p < n
        invariant
            layout != PixelLayout::Rgba,
            layout != PixelLayout::Indexed,
            c == channels(layout),
            n == buf@.len() / channels(layout),
            p <= n,
            out@ == rgba_pixels(buf@, layout, p as nat),
        decreases n - p,
    {
        push_rgba_pixel(&mut out, &buf, layout, p);
        p = p + 1;
    }
    out
}

/// What becomes of a decoded frame of `png_width` x `png_height` pixels when
/// the bridge reported `width` x `height`: the dimensions must agree (the
/// PNG is the source of truth for the payload, a difference is corruption),
/// palette output is refused, and otherwise the image is the frame as RGBA8
/// with the PNG's dimensions.
pub open spec fn frame_outcome(
    r: Result<ClipboardImage, ClipboardError>,
    pixels: Seq<u8>,
    png_width: u32,
    png_height: u32,
    layout: PixelLayout,
    width: u32,
    height: u32,
) -> bool {
    if png_width != width || png_height != height {
        r == Err::<ClipboardImage, ClipboardError>(
            ClipboardError::DimensionMismatch {
                reported_width: width,
                reported_height: height,
                png_width,
                png_height,
            },
        )
    } else if layout == PixelLayout::Indexed {
        r == Err::<ClipboardImage, ClipboardError>(ClipboardError::UnexpectedIndexed)
    } else {
        &&& r matches Ok(image)
        &&& image.rgba@ == rgba_expansion(pixels, layout)
        &&& image.width == png_width
        &&& image.height == png_height
    }
}

/// Turns a decoded 8-bit frame into the clipboard image, checking it against
/// the dimensions the bridge reported.
pub fn image_from_frame(
    pixels: Vec<u8>,
    png_width: u32,
    png_height: u32,
    layout: PixelLayout,
    width: u32,
    height: u32,
) -> (r: Result<ClipboardImage, ClipboardError>)
    ensures
        frame_outcome(r, pixels@, png_width, png_height, layout, width, height),
{
    if png_width != width || png_height != height {
        return Err(
            ClipboardError::DimensionMismatch {
                reported_width: width,
                reported_height: height,
                png_width,
                png_height,
            },
        );
    }
    if layout == PixelLayout::Indexed {
        return Err(ClipboardError::UnexpectedIndexed);
    }
    let rgba = expand_to_rgba(pixels, layout);
    Ok(ClipboardImage { rgba, width: png_width, height: png_height })
}

/// Name for what the `base64` crate's `STANDARD` engine (RFC 4648 alphabet,
/// `=` padding required, non-canonical trailing bits refused) makes of the
/// UTF-8 text `text` through `Engine::decode`: the decoded bytes, or the
/// `Display` text of the `DecodeError` it reports.
pub uninterp spec fn base64_standard_decode(text: Seq<char>) -> Result<Seq<u8>, Seq<char>>;

/// Name for what the `png` crate (0.17) makes of `png` when a `Decoder` set
/// to `Transformations::normalize_to_color8()` reads its header and then its
/// first frame into a buffer of `Reader::output_buffer_size()` zero bytes:
/// that buffer with the frame's width, height and output colour type (as its
/// PNG colour-type number) and the header's width and height, or the
/// `Display` text of the `DecodingError`.
pub uninterp spec fn png_decode_color8(png: Seq<u8>) -> Result<(Seq<u8>, u32, u32, u8, u32, u32), Seq<char>>;

/// Calls `base64::engine::general_purpose::STANDARD.decode(text)`.
/// Claims only that the result is the one `base64_standard_decode` names,
/// the error turned into its `Display` text.
#[verifier::external_body]
fn decode_base64_standard(text: &str) -> (r: Result<Vec<u8>, String>)
    ensures
        match r {
            Ok(bytes) => base64_standard_decode(text@) == Ok::<Seq<u8>, Seq<char>>(bytes@),
            Err(msg) => base64_standard_decode(text@) == Err::<Seq<u8>, Seq<char>>(msg@),
        },
{
    match base64::engine::general_purpose::STANDARD.decode(text) {
        Ok(bytes) => Ok(bytes),
        Err(e) => Err(e.to_string()),
    }
}

/// Calls the `png` crate's decoder (`Decoder::new`, `set_transformations`
/// with `normalize_to_color8`, `read_info`, `info().size()`,
/// `output_buffer_size`, `next_frame`) on `png`. Claims that the result is
/// the one `png_decode_color8` names, errors turned into their `Display`
/// text, and what the crate's source shows of a decoded frame:
/// - the colour type is one of the PNG colour-type numbers (`ColorType` is
///   `repr(u8)` with exactly those discriminants);
/// - the buffer holds 8-bit samples of that colour type for the whole
///   header size (`output_buffer_size` is `output_line_size(W) * H`, the
///   transformations leave 8-bit samples, and `read_info` refuses a size
///   whose product overflows);
/// - the frame is no larger than the header (an animation frame control is
///   validated against the header bounds when it is read).
/// Left unsaid: the crate allocates the output buffer from the header's
/// dimensions, so a header announcing an enormous image can exhaust memory.
#[verifier::external_body]
fn decode_png_color8(png: &[u8]) -> (r: Result<(Vec<u8>, u32, u32, u8, u32, u32), String>)
    ensures
        match r {
            Ok(frame) => {
                &&& png_decode_color8(png@) == Ok::<(Seq<u8>, u32, u32, u8, u32, u32), Seq<char>>(
                    (frame.0@, frame.1, frame.2, frame.3, frame.4, frame.5),
                )
                &&& is_png_color_code(frame.3)
                &&& frame.0@.len() == png_samples(frame.3) * frame.4 * frame.5
                &&& frame.1 <= frame.4
                &&& frame.2 <= frame.5
            },
            Err(msg) => png_decode_color8(png@) == Err::<(Seq<u8>, u32, u32, u8, u32, u32), Seq<char>>(msg@),
        },
{
    let mut decoder = png::Decoder::new(std::io::Cursor::new(png));
    decoder.set_transformations(png::Transformations::normalize_to_color8());
    let mut reader = match decoder.read_info() {
        Ok(reader) => reader,
        Err(e) => return Err(e.to_string()),
    };
    let (header_width, header_height) = reader.info().size();
    let mut buf = vec![0u8; reader.output_buffer_size()];
    match reader.next_frame(&mut buf) {
        Ok(info) => Ok((buf, info.width, info.height, info.color_type as u8, header_width, header_height)),
        Err(e) => Err(e.to_string()),
    }
}

/// What `decode_png_base64` answers for the payload `png_base64` and the
/// reported `width` x `height`.
pub open spec fn read_image_outcome(
    r: Result<ClipboardImage, ClipboardError>,
    png_base64: Seq<char>,
    width: u32,
    height: u32,
) -> bool {
    match base64_standard_decode(png_base64) {
        Err(msg) => r matches Err(ClipboardError::Base64Decode { detail }) && detail@ == msg,
        Ok(bytes) => match png_decode_color8(bytes) {
            Err(msg) => r matches Err(ClipboardError::PngDecode { detail }) && detail@ == msg,
            Ok(frame) => match layout_of_png_code(frame.3) {
                Some(layout) => {
                    &&& frame_outcome(r, frame.0, frame.1, frame.2, layout, width, height)
                    &&& r matches Ok(image) ==> image.rgba@.len() == 4 * frame.4 * frame.5
                },
                None => false,
            },
        },
    }
}

/// Decodes the bridge's base64 PNG `read-image` payload into RGBA8.
///
/// `width`/`height` come from the ArkTS PixelMap info and are cross-checked
/// against the decoded PNG.
pub fn decode_png_base64(png_base64: &str, width: u32, height: u32) -> (r: Result<ClipboardImage, ClipboardError>)
    ensures
        read_image_outcome(r, png_base64@, width, height),
{
    let bytes = match decode_base64_standard(png_base64) {
        Ok(bytes) => bytes,
        Err(detail) => return Err(ClipboardError::Base64Decode { detail }),
    };
    let (pixels, png_width, png_height, code, header_width, header_height) = match decode_png_color8(
        bytes.as_slice(),
    ) {
        Ok(frame) => frame,
        Err(detail) => return Err(ClipboardError::PngDecode { detail }),
    };
    match PixelLayout::from_png_code(code) {
        Some(layout) => {
            let ghost samples = pixels@;
            let r = image_from_frame(pixels, png_width, png_height, layout, width, height);
            proof {
                lemma_expansion_of_header_sized_buffer(samples, layout, header_width, header_height);
            }
            r
        },
        None => Err(ClipboardError::UnexpectedIndexed),
    }
}

/// The header's size, when the payload decodes to a PNG.
pub open spec fn png_header_size(png_base64: Seq<char>) -> Option<(u32, u32)> {
    match base64_standard_decode(png_base64) {
        Ok(bytes) => match png_decode_color8(bytes) {
            Ok(frame) => Some((frame.4, frame.5)),
            Err(_) => None,
        },
        Err(_) => None,
    }
}

proof fn lemma_expansion_of_header_sized_buffer(
    pixels: Seq<u8>,
    layout: PixelLayout,
    header_width: u32,
    header_height: u32,
)
    requires
        pixels.len() == channels(layout) * header_width * header_height,
    ensures
        rgba_expansion(pixels, layout).len() == 4 * header_width * header_height,
{
    let c = channels(layout);
    let wh = header_width * header_height;
    assert(pixels.len() == c * wh) by (nonlinear_arith)
        requires
            pixels.len() == c * header_width * header_height,
            wh == header_width * header_height,
    ;
    assert(pixels.len() / c == wh) by (nonlinear_arith)
        requires
            pixels.len() == c * wh,
            c >= 1,
    ;
    if layout != PixelLayout::Rgba {
        law_rgba_expansion_len(pixels, layout);
    }
    assert(4 * wh == 4 * header_width * header_height) by (nonlinear_arith)
        requires
            wh == header_width * header_height,
    ;
}

/// A decoded image holds four bytes for every pixel of the PNG's header
/// size; when the PNG's header has the size the bridge reported (every
/// PNG but an animation whose first frame is smaller than its canvas), the
/// image is exactly what `write-image` accepts for that size.
pub proof fn law_read_image_of_whole_png_is_writable(
    r: Result<ClipboardImage, ClipboardError>,
    png_base64: Seq<char>,
    width: u32,
    height: u32,
)
    requires
        read_image_outcome(r, png_base64, width, height),
        png_header_size(png_base64) == Some((width, height)),
    ensures
        r matches Ok(image) ==> {
            &&& image.width == width
            &&& image.height == height
            &&& rgba_len(width, height) <= usize::MAX
            &&& image.rgba@.len() == rgba_len(width, height)
        },
{
    if let Ok(image) = r {
        assert(image.rgba.len() == image.rgba@.len());
        assert(4 * width * height == rgba_len(width, height)) by (nonlinear_arith);
    }
}

/// A decoded clipboard image always has the dimensions the bridge reported
/// for it.
pub proof fn law_read_image_has_reported_size(
    r: Result<ClipboardImage, ClipboardError>,
    png_base64: Seq<char>,
    width: u32,
    height: u32,
)
    requires
        read_image_outcome(r, png_base64, width, height),
    ensures
        r matches Ok(image) ==> image.width == width && image.height == height,
{
}

} // verus!
