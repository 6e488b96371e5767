//! Raw frames, as a display hands them over, and their WebP encoding.

use vstd::prelude::*;
use crate::clock::Timestamp;
use crate::error::{PipelineError, PipelineErrorView};

verus! {

/// One snapshot of a display: `width` by `height` pixels of four bytes each (red, green,
/// blue, alpha), row after row.
#[derive(Clone, Debug, PartialEq, Eq)]
pub struct RawFrame {
    pub width: u32,
    pub height: u32,
    pub pixels: Vec<u8>,
}

/// The number of bytes that a frame of the given dimensions holds.
pub open spec fn rgba_len(width: u32, height: u32) -> nat {
    4 * (width as nat) * (height as nat)
}

impl RawFrame {
    /// The pixel buffer holds exactly the bytes that the dimensions ask for.
    pub open spec fn well_formed(&self) -> bool {
        self.pixels@.len() == rgba_len(self.width, self.height)
    }

    /// Tests whether the pixel buffer matches the dimensions.
    pub fn is_well_formed(&self) -> (ok: bool)
        ensures
            ok == self.well_formed(),
    {
        let w: u128 = self.width as u128;
        let h: u128 = self.height as u128;
        assert(w * h <= 0xFFFF_FFFF * 0xFFFF_FFFF) by (nonlinear_arith)
            requires
                w <= 0xFFFF_FFFF,
                h <= 0xFFFF_FFFF,
        ;
        let area: u128 = w * h;
        let expected: u128 = 4 * area;
        assert(expected == rgba_len(self.width, self.height)) by (nonlinear_arith)
            requires
                expected == 4 * (w * h),
                w == self.width as nat,
                h == self.height as nat,
                rgba_len(self.width, self.height) == 4 * (self.width as nat) * (self.height as nat),
        ;
        self.pixels.len() as u128 == expected
    }
}

/// A frame in its compressed form, with the display it came from and the instant it was
/// taken at.
#[derive(Clone, Debug, PartialEq, Eq)]
pub struct EncodedFrame {
    pub blob: Vec<u8>,
    pub display: usize,
    pub captured_at: Timestamp,
}

/// What contracts say of an `EncodedFrame`.
pub ghost struct EncodedFrameView {
    pub blob: Seq<u8>,
    pub display: nat,
    pub captured_at: Timestamp,
}

impl View for EncodedFrame {
    type V = EncodedFrameView;

    open spec fn view(&self) -> EncodedFrameView {
        EncodedFrameView {
            blob: self.blob@,
            display: self.display as nat,
            captured_at: self.captured_at,
        }
    }
}

/// What the `image` crate's lossless WebP encoder makes of a frame: the bytes of the file, or
/// the text of the error with which it refuses the frame.
pub uninterp spec fn webp_encoding(width: u32, height: u32, pixels: Seq<u8>) -> Result<
    Seq<u8>,
    Seq<char>,
>;

/// The dimensions that a WebP file can have: from 1 to 16384 pixels each way.
pub open spec fn encodable(width: u32, height: u32) -> bool {
    1 <= width <= 16384 && 1 <= height <= 16384
}

/// An encoding attempt as contracts see it.
pub open spec fn encoding_view(outcome: Result<Vec<u8>, String>) -> Result<Seq<u8>, Seq<char>> {
    match outcome {
        Ok(blob) => Ok(blob@),
        Err(text) => Err(text@),
    }
}

/// Calls `image::codecs::webp::WebPEncoder::encode` on a `new_lossless` encoder that writes
/// to memory; this is the encoder behind `DynamicImage::write_to` for `ImageFormat::WebP`.
/// It is deterministic, so its outcome is `webp_encoding` of the arguments: the file, or the
/// `Display` text of the `ImageError`. The encoder refuses a frame for its dimensions and
/// for nothing else: a width or a height of 0 or of more than 16384. A file is never empty,
/// since it starts with the container's header. A buffer that does not match the dimensions
/// is left out, since the encoder panics on one.
#[verifier::external_body]
fn webp_encode(width: u32, height: u32, pixels: &Vec<u8>) -> (outcome: Result<Vec<u8>, String>)
    requires
        pixels@.len() == rgba_len(width, height),
    ensures
        encoding_view(outcome) == webp_encoding(width, height, pixels@),
        outcome is Ok <==> encodable(width, height),
        outcome matches Ok(file) ==> file@.len() > 0,
{
    let mut file = Vec::new();
    let encoder = image::codecs::webp::WebPEncoder::new_lossless(&mut file);
    match encoder.encode(pixels, width, height, image::ExtendedColorType::Rgba8) {
        Ok(()) => Ok(file),
        Err(error) => Err(error.to_string()),
    }
}

/// The detail of the failure that a frame with a mismatched buffer gets.
pub open spec fn mismatch_detail() -> Seq<char> {
    "pixel buffer does not match the frame's dimensions"@
}

/// What one encoding attempt on display `display` leaves: the display's encoded frame, or
/// the display's `Encoding` failure with the encoder's text.
pub open spec fn concluded(
    encoding: Result<Seq<u8>, Seq<char>>,
    display: nat,
    captured_at: Timestamp,
) -> Result<EncodedFrameView, PipelineErrorView> {
    match encoding {
        Ok(blob) => Ok(EncodedFrameView { blob, display, captured_at }),
        Err(detail) => Err(PipelineErrorView::Encoding { display, detail }),
    }
}

/// What encoding a raw frame yields: a failure for a buffer that does not match its
/// dimensions, else what the encoder makes of the frame.
pub open spec fn encoded(frame: RawFrame, display: nat, captured_at: Timestamp) -> Result<
    EncodedFrameView,
    PipelineErrorView,
> {
    if frame.well_formed() {
        concluded(webp_encoding(frame.width, frame.height, frame.pixels@), display, captured_at)
    } else {
        Err(PipelineErrorView::Encoding { display, detail: mismatch_detail() })
    }
}

/// An encoding result as contracts see it.
pub open spec fn encoded_view(result: Result<EncodedFrame, PipelineError>) -> Result<
    EncodedFrameView,
    PipelineErrorView,
> {
    match result {
        Ok(frame) => Ok(frame@),
        Err(error) => Err(error@),
    }
}

/// Wraps up one encoding attempt: a blob becomes the display's encoded frame, a refusal
/// becomes the display's `Encoding` failure with the encoder's text as detail.
pub fn conclude_encoding(
    outcome: Result<Vec<u8>, String>,
    display: usize,
    captured_at: Timestamp,
) -> (result: Result<EncodedFrame, PipelineError>)
    ensures
        encoded_view(result) == concluded(encoding_view(outcome), display as nat, captured_at),
{
    match outcome {
        Ok(blob) => Ok(EncodedFrame { blob, display, captured_at }),
        Err(detail) => Err(PipelineError::Encoding { display, detail }),
    }
}

/// Encodes the frame of display `display`, taken at `captured_at`, as lossless WebP.
///
/// Fails with an `Encoding` error for that display when the pixel buffer does not match the
/// frame's dimensions, or when a dimension is 0 or more than 16384, which the encoder
/// refuses. Succeeds otherwise, with the encoder's bytes as the blob, which is never empty.
pub fn encode(frame: &RawFrame, display: usize, captured_at: Timestamp) -> (result: Result<
    EncodedFrame,
    PipelineError,
>)
    ensures
        encoded_view(result) == encoded(*frame, display as nat, captured_at),
        result is Ok <==> frame.well_formed() && encodable(frame.width, frame.height),
        result matches Ok(out) ==> out.blob@.len() > 0,
{
    if !frame.is_well_formed() {
        return Err(
            PipelineError::Encoding {
                display,
                detail: String::from_str("pixel buffer does not match the frame's dimensions"),
            },
        );
    }
    let outcome = webp_encode(frame.width, frame.height, &frame.pixels);
    conclude_encoding(outcome, display, captured_at)
}

} // verus!
