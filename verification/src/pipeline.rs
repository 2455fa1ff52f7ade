//! The transform pipeline and the portable payload representation: decoding
//! fetched image bytes, producing the animated output, and the text encoding
//! every response mode is rendered from. The outside calls stand behind
//! trusted wrappers; everything around them is verified.

use vstd::prelude::*;

use crate::filters::Filter;
use base64::Engine;
use base64::prelude::BASE64_STANDARD;

verus! {

/// Quantization speed handed to the GIF encoder, as the service has always
/// used it.
pub const GIF_ENCODE_SPEED: i32 = 30;

/// A decoded pixel buffer carried opaquely from the decode stage to the
/// animation stage. (Verus refuses to declare image's `ImageBuffer`, whose
/// pixel parameter is bound by an outside trait, so the buffer is hidden in
/// this trusted holder instead.)
#[verifier::external_body]
pub struct PixelBuffer {
    img: image::RgbaImage,
}

#[verifier::external_type_specification]
#[verifier::external_body]
pub struct ExFrame(image::Frame);

#[verifier::external_type_specification]
#[verifier::external_body]
pub struct ExImageError(image::ImageError);

/// Whether a byte string decodes as a PNG image: a pure function of the
/// bytes alone, applied by `decode_fetched_png`'s contract.
pub uninterp spec fn png_decodable(bytes: Seq<u8>) -> bool;

/// The bytes a pixel buffer was decoded from. The decode is deterministic,
/// so a buffer's source pins the buffer; the names below compose over it.
pub uninterp spec fn image_source(buf: PixelBuffer) -> Seq<u8>;

/// The animation frames petpet generates from the image decoded out of
/// `src` under `filter`: a pure function of those two, with the crate's
/// default frame delay.
pub uninterp spec fn pet_frames_of(src: Seq<u8>, filter: Filter) -> Seq<image::Frame>;

/// The GIF encoding of a frame sequence at a quantization speed: a pure
/// function of the frames and the speed.
pub uninterp spec fn gif_bytes_of(frames: Seq<image::Frame>, speed: i32) -> Seq<u8>;

/// What the whole pipeline produces from fetched bytes and a filter, at the
/// speed the service always uses.
pub open spec fn animated_gif_of(bytes: Seq<u8>, filter: Filter) -> Seq<u8> {
    gif_bytes_of(pet_frames_of(bytes, filter), GIF_ENCODE_SPEED)
}

/// The standard, padded base64 text of a byte string: a pure function of the
/// bytes alone.
pub uninterp spec fn b64_encoding_of(bytes: Seq<u8>) -> Seq<char>;

/// The bytes a text decodes to under the standard base64 alphabet, if it is
/// a valid encoding.
pub uninterp spec fn b64_decoding_of(text: Seq<char>) -> Option<Seq<u8>>;

/// Relies on base64's `BASE64_STANDARD.encode`: the standard-alphabet padded
/// encoding is a function of the input bytes alone, and `decode` inverts it.
#[verifier::external_body]
pub(crate) fn b64_encode(bytes: &[u8]) -> (r: String)
    ensures
        r@ == b64_encoding_of(bytes@),
        b64_decoding_of(r@) == Some(bytes@),
{
    BASE64_STANDARD.encode(bytes)
}

/// Relies on base64's `BASE64_STANDARD.decode`: succeeds exactly on valid
/// standard-alphabet encodings, returning the encoded bytes.
#[verifier::external_body]
pub(crate) fn b64_decode(text: &str) -> (r: Option<Vec<u8>>)
    ensures
        r matches Some(b) ==> b64_decoding_of(text@) == Some(b@),
        r is None ==> b64_decoding_of(text@) is None,
{
    BASE64_STANDARD.decode(text.as_bytes()).ok()
}

/// Relies on image's `load` with the PNG format: deterministic, it succeeds
/// exactly when the bytes parse as a PNG, and errors rather than panics on
/// anything else.
#[verifier::external_body]
pub(crate) fn decode_fetched_png(bytes: &[u8]) -> (r: Result<PixelBuffer, image::ImageError>)
    ensures
        r is Ok <==> png_decodable(bytes@),
        r matches Ok(b) ==> image_source(b) == bytes@,
{
    let cursor = std::io::Cursor::new(bytes);
    match image::load(cursor, image::ImageFormat::Png) {
        Ok(img) => Ok(PixelBuffer { img: image::DynamicImage::ImageRgb8(img.into()).to_rgba8() }),
        Err(e) => Err(e),
    }
}

/// Relies on petpet's `generate`: deterministic in the image and the filter,
/// and its body returns `Ok` on every input (its only failure would be the
/// crate's own bundled hand images not loading, which does not depend on the
/// arguments).
#[verifier::external_body]
pub(crate) fn pet_frames(buf: PixelBuffer, filter: Filter) -> (r: Result<
    Vec<image::Frame>,
    image::ImageError,
>)
    ensures
        r is Ok,
        r matches Ok(f) ==> f@ == pet_frames_of(image_source(buf), filter),
{
    let ft = match filter {
        Filter::Quality => petpet::FilterType::CatmullRom,
        Filter::Fast => petpet::FilterType::Nearest,
    };
    match petpet::generate(buf.img, ft, None) {
        Ok(frames) => Ok(frames.into_iter().collect()),
        Err(e) => Err(e),
    }
}

/// Relies on petpet's `encode_gif`: writes the GIF encoding of the frames
/// into a fresh buffer, deterministically in the frames and the speed. The
/// quantizer underneath asserts the speed range, so the contract demands it.
/// On frames petpet generated — fixed 112-by-112 dimensions, well within the
/// format's limits, written to an in-memory buffer — every path returns `Ok`.
#[verifier::external_body]
pub(crate) fn encode_gif_bytes(frames: Vec<image::Frame>, speed: i32) -> (r: Result<
    Vec<u8>,
    image::ImageError,
>)
    requires
        1 <= speed <= 30,
    ensures
        r matches Ok(g) ==> g@ == gif_bytes_of(frames@, speed),
        (exists|src: Seq<u8>, filter: Filter| frames@ == #[trigger] pet_frames_of(src, filter))
            ==> r is Ok,
{
    let mut out: Vec<u8> = Vec::new();
    match petpet::encode_gif(frames, &mut out, speed) {
        Ok(()) => Ok(out),
        Err(e) => Err(e),
    }
}

/// Why a miss could not be completed, after the raw bytes arrived.
#[derive(Debug)]
pub enum PipelineError {
    /// The fetched bytes were not a decodable image; surfaced with the fetch
    /// failures, never cached.
    UndecodableImage(image::ImageError),
    /// The pipeline rejected or failed on the decoded image; never cached.
    Transform(image::ImageError),
}

/// The transform pipeline: decode the fetched bytes, animate them with the
/// selected filter, and encode the animation. A pure function of its inputs:
/// it succeeds exactly when the bytes decode as a PNG, and the result is the
/// animation those inputs determine. Stateless; a failure is terminal for
/// the request.
pub fn transform(fetched_bytes: &[u8], filter: Filter) -> (r: Result<Vec<u8>, PipelineError>)
    ensures
        r is Ok <==> png_decodable(fetched_bytes@),
        r matches Ok(g) ==> g@ == animated_gif_of(fetched_bytes@, filter),
{
    let img = match decode_fetched_png(fetched_bytes) {
        Ok(img) => img,
        Err(e) => {
            return Err(PipelineError::UndecodableImage(e));
        },
    };
    let frames = match pet_frames(img, filter) {
        Ok(frames) => frames,
        Err(e) => {
            return Err(PipelineError::Transform(e));
        },
    };
    match encode_gif_bytes(frames, GIF_ENCODE_SPEED) {
        Ok(gif) => Ok(gif),
        Err(e) => Err(PipelineError::Transform(e)),
    }
}

} // verus!
