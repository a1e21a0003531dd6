//! Image operation gateway: PNG resize, lossless PNG minification, and
//! PNG-to-WebP conversion. Each operation is a single stateless transform
//! over an owned byte buffer that delegates the codec work to outside
//! libraries and reports every failure in-band, as a structured error.

use vstd::prelude::*;
use vstd::string::StringExecFns;

mod codecs;
mod width;

pub use crate::codecs::{image_decode, optimized_png, png_frame, resized_png, webp_encoded};
pub use crate::width::{lemma_scaled_width_keeps_ratio, scaled_width};

use crate::codecs::{
    encode_webp, optimize_png_bytes, probe_dimensions, read_png_frame, resize_encode,
};
use crate::width::compute_scaled_width;

verus! {

/// A failed operation: the variant names the stage that failed, the payload
/// preserves the codec's diagnostic text verbatim.
#[derive(Debug, Clone, PartialEq, Eq)]
pub enum OpError {
    /// The input bytes are not a decodable image.
    DecodeError(String),
    /// The image header parsed but its first frame could not be read.
    FrameError(String),
    /// The output codec failed to encode the result.
    EncodeError(String),
    /// The lossless optimizer failed internally.
    OptimizationError(String),
}

impl OpError {
    /// The diagnostic text carried by the error.
    pub fn message(&self) -> (m: &String)
        ensures
            (match self {
                OpError::DecodeError(s) => m == s,
                OpError::FrameError(s) => m == s,
                OpError::EncodeError(s) => m == s,
                OpError::OptimizationError(s) => m == s,
            }),
    {
        match self {
            OpError::DecodeError(s) => s,
            OpError::FrameError(s) => s,
            OpError::EncodeError(s) => s,
            OpError::OptimizationError(s) => s,
        }
    }
}

/// The optimizer effort level actually used: requested levels above the top
/// preset are capped at it.
pub open spec fn clamped_level(level: u8) -> u8 {
    if level > 6 {
        6
    } else {
        level
    }
}

/// Caps the requested optimization effort at the top preset; higher values
/// are deliberately accepted and treated as the maximum, never rejected.
pub fn clamp_level(level: u8) -> (r: u8)
    ensures
        r == clamped_level(level),
        r <= 6,
{
    if level > 6 {
        6
    } else {
        level
    }
}

/// The note returned when a PNG frame does not decode to one byte each of
/// red, green, blue and alpha per pixel, which is what the WebP encoder
/// consumes.
pub open spec fn rgba_layout_note() -> Seq<char> {
    "pixel data is not 8-bit RGBA"@
}

fn clone_bytes(v: &Vec<u8>) -> (r: Vec<u8>)
    ensures
        r@ == v@,
{
    let mut out: Vec<u8> = Vec::new();
    let mut i: usize = 0;
    while i < v.len()
        invariant
            i <= v@.len(),
            out@ == v@.subrange(0, i as int),
        decreases v@.len() - i,
    {
        out.push(v[i]);
        proof {
            assert(v@.subrange(0, i as int).push(v@[i as int]) =~= v@.subrange(0, i + 1 as int));
        }
        i = i + 1;
    }
    proof {
        assert(out@ =~= v@);
    }
    out
}

/// Shrinks an encoded image so that its height fits within `max_height`,
/// keeping the aspect ratio and re-encoding as PNG; an image already within
/// the bound is passed through byte for byte, with no re-encoding.
pub fn resize_png(png_data: &Vec<u8>, max_height: u32) -> (r: Result<Vec<u8>, OpError>)
    requires
        max_height >= 1,
    ensures
        (match image_decode(png_data@) {
            Err(m) => r matches Err(OpError::DecodeError(s)) && s@ == m,
            Ok(dims) => ({
                let nw = scaled_width(dims.0 as int, dims.1 as int, max_height as int) as u32;
                if dims.1 <= max_height {
                    r matches Ok(out) && out@ == png_data@
                } else {
                    match resized_png(png_data@, nw, max_height) {
                        Ok(out_bytes) => r matches Ok(out) && (out@ == out_bytes && (
                        image_decode(out_bytes) matches Ok(d) ==> d == (nw, max_height))),
                        Err(m) => r matches Err(OpError::EncodeError(s)) && s@ == m,
                    }
                }
            }),
        }),
{
    match probe_dimensions(png_data) {
        Err(msg) => Err(OpError::DecodeError(msg)),
        Ok((w, h)) => {
            if h <= max_height {
                Ok(clone_bytes(png_data))
            } else {
                let nw = compute_scaled_width(w, h, max_height);
                match resize_encode(png_data, nw, max_height) {
                    Ok(out) => Ok(out),
                    Err(msg) => Err(OpError::EncodeError(msg)),
                }
            }
        },
    }
}

/// Losslessly re-optimizes a PNG at the given effort level, re-encoding even
/// when no improvement is found; levels above the top preset are capped,
/// never rejected.
pub fn minify_png(png_data: &Vec<u8>, level: u8) -> (r: Result<Vec<u8>, OpError>)
    ensures
        (match optimized_png(png_data@, clamped_level(level)) {
            Ok(out) => r matches Ok(v) && v@ == out,
            Err(m) => r matches Err(OpError::OptimizationError(s)) && s@ == m,
        }),
{
    let clamped = clamp_level(level);
    match optimize_png_bytes(png_data, clamped) {
        Ok(v) => Ok(v),
        Err(msg) => Err(OpError::OptimizationError(msg)),
    }
}

/// Effort levels at or above the top preset are indistinguishable: on every
/// input, minification at any such level has exactly the outcome it has at
/// the top preset itself.
pub proof fn lemma_minify_level_saturates(bytes: Seq<u8>, level: u8)
    requires
        level >= 6,
    ensures
        optimized_png(bytes, clamped_level(level)) == optimized_png(bytes, clamped_level(6)),
{
}

/// Converts the first frame of a PNG to lossy WebP at the given quality
/// (percent). Only a frame that decodes to an 8-bit RGBA buffer is encoded;
/// any other layout is reported as a decode failure.
pub fn png_to_webp(png_data: &Vec<u8>, quality: u8) -> (r: Result<Vec<u8>, OpError>)
    ensures
        (match png_frame(png_data@) {
            Err(e) => ({
                if e.0 {
                    r matches Err(OpError::FrameError(s)) && s@ == e.1
                } else {
                    r matches Err(OpError::DecodeError(s)) && s@ == e.1
                }
            }),
            Ok(frame) => ({
                if frame.2.len() == 4 * frame.0 * frame.1 {
                    match webp_encoded(frame.2, frame.0, frame.1, quality) {
                        Ok(out) => r matches Ok(v) && v@ == out,
                        Err(m) => r matches Err(OpError::EncodeError(s)) && s@ == m,
                    }
                } else {
                    r matches Err(OpError::DecodeError(s)) && s@ == rgba_layout_note()
                }
            }),
        }),
{
    match read_png_frame(png_data) {
        Err((is_frame, msg)) => {
            if is_frame {
                Err(OpError::FrameError(msg))
            } else {
                Err(OpError::DecodeError(msg))
            }
        },
        Ok((w, h, pixels)) => {
            proof {
                vstd::arithmetic::mul::lemma_mul_upper_bound(
                    4 * (w as int),
                    0x3_ffff_fffc,
                    h as int,
                    0xffff_ffff,
                );
            }
            let need: u128 = 4 * (w as u128) * (h as u128);
            if pixels.len() as u128 == need {
                match encode_webp(&pixels, w, h, quality) {
                    Ok(v) => Ok(v),
                    Err(msg) => Err(OpError::EncodeError(msg)),
                }
            } else {
                Err(OpError::DecodeError(String::from_str("pixel data is not 8-bit RGBA")))
            }
        },
    }
}

} // verus!
