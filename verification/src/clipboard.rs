//! Clipboard bridge: the request and response shapes exchanged with the
//! ArkTS pasteboard, the checks made before a request is sent, and how a
//! response is turned into an outcome.

use vstd::prelude::*;

use crate::decimal::{decimal, push_decimal};

verus! {

/// The bridge plugin that serves the clipboard actions from the ability
/// context.
pub struct ClipboardBridgePlugin;

impl ClipboardBridgePlugin {
    /// Plugin id under which the ArkTS side registers the clipboard handlers.
    pub const ID: &'static str = "ohos.clipboard";
}

/// The actions the clipboard plugin serves.
#[derive(Clone, Copy, Debug, PartialEq, Eq, Structural)]
pub enum ClipboardAction {
    ReadText,
    WriteText,
    WriteImage,
    ReadImage,
    WriteHtml,
    Clear,
}

/// The wire name of each clipboard action.
pub open spec fn action_name(action: ClipboardAction) -> Seq<char> {
    match action {
        ClipboardAction::ReadText => "read-text"@,
        ClipboardAction::WriteText => "write-text"@,
        ClipboardAction::WriteImage => "write-image"@,
        ClipboardAction::ReadImage => "read-image"@,
        ClipboardAction::WriteHtml => "write-html"@,
        ClipboardAction::Clear => "clear"@,
    }
}

impl ClipboardAction {
    /// The action name sent over the bridge.
    pub fn as_str(&self) -> (name: &'static str)
        ensures
            name@ == action_name(*self),
    {
        match self {
            ClipboardAction::ReadText => "read-text",
            ClipboardAction::WriteText => "write-text",
            ClipboardAction::WriteImage => "write-image",
            ClipboardAction::ReadImage => "read-image",
            ClipboardAction::WriteHtml => "write-html",
            ClipboardAction::Clear => "clear",
        }
    }
}

/// Why a clipboard operation failed.
#[derive(Clone, Debug)]
pub enum ClipboardError {
    /// `width * height * 4` does not fit in `usize`.
    DimensionsOverflow { width: u32, height: u32 },
    /// The RGBA buffer does not hold exactly `width * height * 4` bytes.
    LengthMismatch { len: usize, expected: usize, width: u32, height: u32 },
    /// The read-image payload is not valid standard base64.
    Base64Decode { detail: String },
    /// The decoded read-image payload is not a decodable PNG.
    PngDecode { detail: String },
    /// The PNG's dimensions differ from those the bridge reported.
    DimensionMismatch { reported_width: u32, reported_height: u32, png_width: u32, png_height: u32 },
    /// The PNG decoder produced palette output although it was asked to expand it.
    UnexpectedIndexed,
    /// The ArkTS side answered the request with `accepted == false`.
    Rejected { action: ClipboardAction },
}

/// The human-readable reason carried by each error.
pub open spec fn error_reason(e: ClipboardError) -> Seq<char> {
    match e {
        ClipboardError::DimensionsOverflow { .. } => "clipboard image dimensions overflow"@,
        ClipboardError::LengthMismatch { len, expected, width, height } =>
            "clipboard rgba len "@ + decimal(len as nat) + " != expected "@ + decimal(expected as nat)
                + " ("@ + decimal(width as nat) + "x"@ + decimal(height as nat) + "x4)"@,
        ClipboardError::Base64Decode { detail } =>
            "clipboard read-image: base64 decode failed: "@ + detail@,
        ClipboardError::PngDecode { detail } =>
            "clipboard read-image: PNG decode failed: "@ + detail@,
        ClipboardError::DimensionMismatch { reported_width, reported_height, png_width, png_height } =>
            "clipboard read-image: dimension mismatch: bridge reported "@ + decimal(reported_width as nat)
                + "x"@ + decimal(reported_height as nat) + ", PNG is "@ + decimal(png_width as nat) + "x"@
                + decimal(png_height as nat),
        ClipboardError::UnexpectedIndexed =>
            "clipboard read-image: unexpected indexed output after normalize_to_color8"@,
        ClipboardError::Rejected { action } => "Clipboard plugin rejected "@ + action_name(action),
    }
}

impl ClipboardError {
    /// The reason text of this error, as reported to the JS side.
    pub fn reason(&self) -> (r: String)
        ensures
            r@ == error_reason(*self),
    {
        let mut s = String::new();
        match self {
            ClipboardError::DimensionsOverflow { .. } => {
                s.append("clipboard image dimensions overflow");
            },
            ClipboardError::LengthMismatch { len, expected, width, height } => {
                s.append("clipboard rgba len ");
                push_decimal(&mut s, *len as u64);
                s.append(" != expected ");
                push_decimal(&mut s, *expected as u64);
                s.append(" (");
                push_decimal(&mut s, *width as u64);
                s.append("x");
                push_decimal(&mut s, *height as u64);
                s.append("x4)");
            },
            ClipboardError::Base64Decode { detail } => {
                s.append("clipboard read-image: base64 decode failed: ");
                s.append(detail.as_str());
            },
            ClipboardError::PngDecode { detail } => {
                s.append("clipboard read-image: PNG decode failed: ");
                s.append(detail.as_str());
            },
            ClipboardError::DimensionMismatch { reported_width, reported_height, png_width, png_height } => {
                s.append("clipboard read-image: dimension mismatch: bridge reported ");
                push_decimal(&mut s, *reported_width as u64);
                s.append("x");
                push_decimal(&mut s, *reported_height as u64);
                s.append(", PNG is ");
                push_decimal(&mut s, *png_width as u64);
                s.append("x");
                push_decimal(&mut s, *png_height as u64);
            },
            ClipboardError::UnexpectedIndexed => {
                s.append("clipboard read-image: unexpected indexed output after normalize_to_color8");
            },
            ClipboardError::Rejected { action } => {
                s.append("Clipboard plugin rejected ");
                s.append(action.as_str());
            },
        }
        s
    }
}

/// The byte count of a tightly packed RGBA8 image of the given size.
pub open spec fn rgba_len(width: u32, height: u32) -> int {
    width * height * 4
}

/// The error reported for an RGBA buffer of `len` bytes that does not fit
/// a `width` x `height` image: overflow when the expected size does not fit
/// in `usize`, otherwise a length mismatch.
pub open spec fn dimension_error(len: int, width: u32, height: u32) -> ClipboardError {
    if rgba_len(width, height) > usize::MAX {
        ClipboardError::DimensionsOverflow { width, height }
    } else {
        ClipboardError::LengthMismatch {
            len: len as usize,
            expected: rgba_len(width, height) as usize,
            width,
            height,
        }
    }
}

/// Checks that `rgba.len() == width * height * 4`, the product computed
/// without overflow.
pub fn validate_image_dimensions(rgba: &[u8], width: u32, height: u32) -> (r: Result<(), ClipboardError>)
    ensures
        r is Ok <==> rgba_len(width, height) <= usize::MAX && rgba@.len() == rgba_len(width, height),
        r matches Err(e) ==> e == dimension_error(rgba@.len() as int, width, height),
{
    let pixels = (width as usize).checked_mul(height as usize);
    let expected = match pixels {
        Some(p) => p.checked_mul(4),
        None => None,
    };
    match expected {
        None => {
            assert(rgba_len(width, height) > usize::MAX) by (nonlinear_arith)
                requires
                    pixels is None ==> width * height > usize::MAX,
                    pixels matches Some(p) ==> p == width * height && p * 4 > usize::MAX,
            ;
            Err(ClipboardError::DimensionsOverflow { width, height })
        },
        Some(expected) => {
            if rgba.len() != expected {
                Err(
                    ClipboardError::LengthMismatch {
                        len: rgba.len(),
                        expected,
                        width,
                        height,
                    },
                )
            } else {
                Ok(())
            }
        },
    }
}

/// Request of the `read-text` action.
#[derive(Clone, Debug, Default)]
pub struct ClipboardReadTextRequest {}

impl ClipboardReadTextRequest {
    pub const TYPE_NAME: &'static str = "ohos.clipboard.ReadTextRequest";
}

/// Response of the `read-text` action; `None` when the clipboard holds no text.
#[derive(Clone, Debug)]
pub struct ClipboardReadTextResponse {
    pub text: Option<String>,
}

impl ClipboardReadTextResponse {
    pub const TYPE_NAME: &'static str = "ohos.clipboard.ReadTextResponse";
}

/// Request of the `write-text` action.
#[derive(Clone, Debug)]
pub struct ClipboardWriteTextRequest {
    pub text: String,
}

impl ClipboardWriteTextRequest {
    pub const TYPE_NAME: &'static str = "ohos.clipboard.WriteTextRequest";
}

/// Response of the `write-text` action.
#[derive(Clone, Debug)]
pub struct ClipboardWriteTextResponse {
    pub accepted: bool,
}

impl ClipboardWriteTextResponse {
    pub const TYPE_NAME: &'static str = "ohos.clipboard.WriteTextResponse";
}

/// Request of the `write-image` action: tightly packed RGBA8 rows, top to bottom.
#[derive(Clone, Debug)]
pub struct ClipboardWriteImageRequest {
    pub rgba: Vec<u8>,
    pub width: u32,
    pub height: u32,
}

impl ClipboardWriteImageRequest {
    pub const TYPE_NAME: &'static str = "ohos.clipboard.WriteImageRequest";
}

/// Response of the `write-image` action.
#[derive(Clone, Debug)]
pub struct ClipboardWriteImageResponse {
    pub accepted: bool,
}

impl ClipboardWriteImageResponse {
    pub const TYPE_NAME: &'static str = "ohos.clipboard.WriteImageResponse";
}

/// Request of the `read-image` action.
#[derive(Clone, Debug, Default)]
pub struct ClipboardReadImageRequest {}

impl ClipboardReadImageRequest {
    pub const TYPE_NAME: &'static str = "ohos.clipboard.ReadImageRequest";
}

/// Response of the `read-image` action: the clipboard PixelMap packed as a
/// base64 PNG, with the dimensions the ArkTS side read from it.
#[derive(Clone, Debug)]
pub struct ClipboardReadImageResponse {
    pub png_base64: String,
    pub width: u32,
    pub height: u32,
}

impl ClipboardReadImageResponse {
    pub const TYPE_NAME: &'static str = "ohos.clipboard.ReadImageResponse";
}

/// A clipboard image decoded to RGBA8 (row-major, top to bottom).
#[derive(Clone, Debug)]
pub struct ClipboardImage {
    pub rgba: Vec<u8>,
    pub width: u32,
    pub height: u32,
}

/// Request of the `write-html` action.
#[derive(Clone, Debug)]
pub struct ClipboardWriteHtmlRequest {
    pub html: String,
}

impl ClipboardWriteHtmlRequest {
    pub const TYPE_NAME: &'static str = "ohos.clipboard.WriteHtmlRequest";
}

/// Response of the `write-html` action.
#[derive(Clone, Debug)]
pub struct ClipboardWriteHtmlResponse {
    pub accepted: bool,
}

impl ClipboardWriteHtmlResponse {
    pub const TYPE_NAME: &'static str = "ohos.clipboard.WriteHtmlResponse";
}

/// Request of the `clear` action.
#[derive(Clone, Debug, Default)]
pub struct ClipboardClearRequest {}

impl ClipboardClearRequest {
    pub const TYPE_NAME: &'static str = "ohos.clipboard.ClearRequest";
}

/// Response of the `clear` action.
#[derive(Clone, Debug)]
pub struct ClipboardClearResponse {
    pub accepted: bool,
}

impl ClipboardClearResponse {
    pub const TYPE_NAME: &'static str = "ohos.clipboard.ClearResponse";
}

/// The outcome of a write-like action (`write-text`, `write-image`,
/// `write-html`, `clear`) once the ArkTS side has answered: success exactly
/// when it accepted the request, otherwise a rejection naming the action.
pub fn acceptance_outcome(action: ClipboardAction, accepted: bool) -> (r: Result<(), ClipboardError>)
    ensures
        r is Ok <==> accepted,
        !accepted ==> r == Err::<(), ClipboardError>(ClipboardError::Rejected { action }),
{
    if accepted {
        Ok(())
    } else {
        Err(ClipboardError::Rejected { action })
    }
}

/// Builds the `write-image` request after checking that `rgba` holds exactly
/// `width * height * 4` bytes; the request carries a copy of `rgba`.
pub fn write_image_request(rgba: &[u8], width: u32, height: u32) -> (r: Result<ClipboardWriteImageRequest, ClipboardError>)
    ensures
        r is Ok <==> rgba_len(width, height) <= usize::MAX && rgba@.len() == rgba_len(width, height),
        r matches Ok(req) ==> req.rgba@ == rgba@ && req.width == width && req.height == height,
        r matches Err(e) ==> e == dimension_error(rgba@.len() as int, width, height),
{
    match validate_image_dimensions(rgba, width, height) {
        Ok(()) => Ok(ClipboardWriteImageRequest { rgba: vstd::slice::slice_to_vec(rgba), width, height }),
        Err(e) => Err(e),
    }
}

} // verus!
