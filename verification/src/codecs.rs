//! Trusted boundary to the outside codec libraries. Each wrapper makes one
//! outside call sequence, and its contract speaks of the call's result
//! through a named, uninterpreted function of the arguments alone; the
//! verified operations are proved against these contracts.

use vstd::prelude::*;

verus! {

/// What `image::load_from_memory` reads from an encoded image: its width
/// and height on success, the decoder's error text otherwise.
pub uninterp spec fn image_decode(bytes: Seq<u8>) -> Result<(u32, u32), Seq<char>>;

/// Relies on `image::load_from_memory` and `GenericImageView::dimensions`:
/// decoding guesses the format from the bytes alone and is deterministic,
/// and on success the decoded image has the returned width and height.
#[verifier::external_body]
pub(crate) fn probe_dimensions(bytes: &Vec<u8>) -> (r: Result<(u32, u32), String>)
    ensures
        (match image_decode(bytes@) {
            Ok(dims) => r matches Ok(d) && d == dims,
            Err(m) => r matches Err(s) && s@ == m,
        }),
{
    match image::load_from_memory(bytes.as_slice()) {
        Ok(img) => Ok(image::GenericImageView::dimensions(&img)),
        Err(e) => Err(e.to_string()),
    }
}

/// The PNG re-encoding of the image held in `bytes` after resampling to
/// `new_width` by `new_height`: the encoded bytes on success, the codec's
/// error text otherwise.
pub uninterp spec fn resized_png(bytes: Seq<u8>, new_width: u32, new_height: u32) -> Result<
    Seq<u8>,
    Seq<char>,
>;

/// Relies on `image::load_from_memory`, `image::imageops::resize` with the
/// `Lanczos3` filter, and `write_to` with PNG output: the pipeline is
/// deterministic in the bytes and the target dimensions, and resampling
/// yields an image of exactly the requested dimensions, so whenever the
/// written PNG decodes at all (the decoder caps its allocations, the
/// encoder does not), it decodes to those dimensions.
#[verifier::external_body]
pub(crate) fn resize_encode(bytes: &Vec<u8>, new_width: u32, new_height: u32) -> (r: Result<
    Vec<u8>,
    String,
>)
    ensures
        (match resized_png(bytes@, new_width, new_height) {
            Ok(out) => r matches Ok(v) && v@ == out,
            Err(m) => r matches Err(s) && s@ == m,
        }),
        (r matches Ok(v) ==> (image_decode(v@) matches Ok(d) ==> d == (new_width, new_height))),
{
    let img = match image::load_from_memory(bytes.as_slice()) {
        Ok(i) => i,
        Err(e) => return Err(e.to_string()),
    };
    let resized = image::imageops::resize(
        &img,
        new_width,
        new_height,
        image::imageops::FilterType::Lanczos3,
    );
    let mut out: Vec<u8> = Vec::new();
    match resized.write_to(&mut std::io::Cursor::new(&mut out), image::ImageFormat::Png) {
        Ok(()) => Ok(out),
        Err(e) => Err(e.to_string()),
    }
}

/// The result of the lossless PNG optimizer on `bytes` at preset `level`
/// with forced re-encoding: the optimized bytes on success, the optimizer's
/// error text otherwise.
pub uninterp spec fn optimized_png(bytes: Seq<u8>, level: u8) -> Result<Seq<u8>, Seq<char>>;

/// Relies on `oxipng::Options::from_preset` and
/// `oxipng::optimize_from_memory`: with a fixed preset, no timeout and
/// `force` set, the optimizer is deterministic in the input bytes and
/// returns either a complete PNG or an error, never partial output.
#[verifier::external_body]
pub(crate) fn optimize_png_bytes(bytes: &Vec<u8>, level: u8) -> (r: Result<Vec<u8>, String>)
    requires
        level <= 6,
    ensures
        (match optimized_png(bytes@, level) {
            Ok(out) => r matches Ok(v) && v@ == out,
            Err(m) => r matches Err(s) && s@ == m,
        }),
{
    let mut options = oxipng::Options::from_preset(level);
    options.force = true;
    match oxipng::optimize_from_memory(bytes.as_slice(), &options) {
        Ok(v) => Ok(v),
        Err(e) => Err(e.to_string()),
    }
}

/// What the PNG decoder reads from `bytes`: on success the first frame's
/// width, height and raw output buffer; on failure a flag that is false
/// when the header could not be parsed and true when the frame could not be
/// read, with the decoder's error text.
pub uninterp spec fn png_frame(bytes: Seq<u8>) -> Result<(u32, u32, Seq<u8>), (bool, Seq<char>)>;

/// Relies on `png::Decoder::new`, `read_info`, `output_buffer_size` and
/// `next_frame`: header and frame parsing are deterministic in the bytes,
/// and the returned buffer holds exactly the frame's decoded samples. The
/// two failure points are reported apart, header parsing first.
#[verifier::external_body]
pub(crate) fn read_png_frame(bytes: &Vec<u8>) -> (r: Result<(u32, u32, Vec<u8>), (bool, String)>)
    ensures
        (match png_frame(bytes@) {
            Ok(frame) => r matches Ok(f) && f.0 == frame.0 && f.1 == frame.1 && f.2@ == frame.2,
            Err(e) => r matches Err(f) && f.0 == e.0 && f.1@ == e.1,
        }),
{
    let decoder = png::Decoder::new(std::io::Cursor::new(bytes.as_slice()));
    let mut reader = match decoder.read_info() {
        Ok(rd) => rd,
        Err(e) => return Err((false, e.to_string())),
    };
    let mut buf: Vec<u8> = vec![0u8; reader.output_buffer_size().unwrap_or(0)];
    let info = match reader.next_frame(&mut buf) {
        Ok(i) => i,
        Err(e) => return Err((true, e.to_string())),
    };
    buf.truncate(info.buffer_size());
    Ok((info.width, info.height, buf))
}

/// The lossy WebP encoding of an RGBA pixel buffer at the given quality
/// (percent): the encoded bytes on success, the encoder's error name
/// otherwise.
pub uninterp spec fn webp_encoded(pixels: Seq<u8>, width: u32, height: u32, quality: u8) -> Result<
    Seq<u8>,
    Seq<char>,
>;

/// Relies on `webp::Encoder::from_rgba` and `Encoder::encode_simple` with
/// lossy output: encoding is deterministic in the pixels, the dimensions
/// and the quality. The constructor reads four bytes per pixel and panics
/// on a shorter buffer, so the length must match the dimensions exactly.
#[verifier::external_body]
pub(crate) fn encode_webp(pixels: &Vec<u8>, width: u32, height: u32, quality: u8) -> (r: Result<
    Vec<u8>,
    String,
>)
    requires
        pixels@.len() == 4 * width * height,
    ensures
        (match webp_encoded(pixels@, width, height, quality) {
            Ok(out) => r matches Ok(v) && v@ == out,
            Err(m) => r matches Err(s) && s@ == m,
        }),
{
    let encoder = webp::Encoder::from_rgba(pixels.as_slice(), width, height);
    match encoder.encode_simple(false, quality.into()) {
        Ok(memory) => Ok(memory.to_vec()),
        Err(e) => Err(format!("{:?}", e)),
    }
}

} // verus!
