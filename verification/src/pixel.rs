//! Pixel readback sizing and framebuffer clearing.
//!
//! The readback marshaller computes the exact byte count a pixel
//! rectangle needs — width times height times the channel count the
//! format implies — and rejects rather than truncates anything it
//! cannot size: a negative dimension, a format of unknown channel
//! count, or a product beyond the address space.  The performer must
//! answer with exactly that many bytes, and the acceptance function
//! hands them to the caller only in full, so no uninitialized byte is
//! ever reachable.

use vstd::prelude::*;

use crate::call::GlCall;
use crate::call::MarshalError;
use crate::Bitfield;
use crate::Enum;
use crate::Int;
use crate::Sizei;
use crate::ALPHA;
use crate::BGRA;
use crate::LUMINANCE;
use crate::LUMINANCE_ALPHA;
use crate::RED;
use crate::RG;
use crate::RGB;
use crate::RGBA;

verus! {

/// Builds the call clearing the buffers named by the mask.
pub fn clear(mask: Bitfield) -> (c: GlCall)
    ensures
        c == (GlCall::Clear { mask }),
{
    GlCall::Clear { mask }
}

/// Channels per pixel of a transfer format, zero for a format the
/// readback marshaller cannot size.
pub open spec fn spec_channel_count(format: Enum) -> nat {
    if format == RGBA || format == BGRA {
        4
    } else if format == RGB {
        3
    } else if format == RG || format == LUMINANCE_ALPHA {
        2
    } else if format == RED || format == ALPHA || format == LUMINANCE {
        1
    } else {
        0
    }
}

/// Channels per pixel of a transfer format; zero names a format this
/// marshaller cannot size.
pub fn channel_count(format: Enum) -> (n: usize)
    ensures
        n == spec_channel_count(format),
{
    if format == RGBA || format == BGRA {
        4
    } else if format == RGB {
        3
    } else if format == RG || format == LUMINANCE_ALPHA {
        2
    } else if format == RED || format == ALPHA || format == LUMINANCE {
        1
    } else {
        0
    }
}

/// Exact byte count of a pixel rectangle in a format.
pub open spec fn spec_pixel_bytes(width: int, height: int, format: Enum) -> int {
    width * height * spec_channel_count(format)
}

/// Builds the readback call for a pixel rectangle, carrying the
/// exact byte count the output buffer must have.  The request is
/// accepted if and only if both dimensions are nonnegative, the
/// format's channel count is known, and the byte count fits the
/// address space; each failure is told apart in the error.
pub fn read_pixels(x: Int, y: Int, width: Sizei, height: Sizei, format: Enum, element_type: Enum)
    -> (r: Result<GlCall, MarshalError>)
    ensures
        r is Ok <==> width >= 0 && height >= 0 && spec_channel_count(format) > 0
            && spec_pixel_bytes(width as int, height as int, format) <= usize::MAX,
        r matches Ok(c) ==> c == (GlCall::ReadPixels {
            x,
            y,
            width,
            height,
            format,
            element_type,
            byte_len: spec_pixel_bytes(width as int, height as int, format) as usize,
        }),
        r == Err::<GlCall, MarshalError>(MarshalError::NegativeDimension) <==> width < 0 || height
            < 0,
        r == Err::<GlCall, MarshalError>(MarshalError::UnknownFormat) <==> width >= 0 && height
            >= 0 && spec_channel_count(format) == 0,
        r == Err::<GlCall, MarshalError>(MarshalError::SizeOverflow) <==> width >= 0 && height >= 0
            && spec_channel_count(format) > 0 && spec_pixel_bytes(
            width as int,
            height as int,
            format,
        ) > usize::MAX,
{
    if width < 0 || height < 0 {
        return Err(MarshalError::NegativeDimension);
    }
    let channels = channel_count(format);
    if channels == 0 {
        return Err(MarshalError::UnknownFormat);
    }
    let w = width as usize;
    let h = height as usize;
    let area = match w.checked_mul(h) {
        Some(a) => a,
        None => {
            proof {
                assert(w * h <= w * h * channels && w * h * channels == spec_pixel_bytes(
                    width as int,
                    height as int,
                    format,
                )) by (nonlinear_arith)
                    requires
                        w == width as int,
                        h == height as int,
                        channels == spec_channel_count(format),
                        channels >= 1,
                        w >= 0,
                        h >= 0,
                ;
            }
            return Err(MarshalError::SizeOverflow);
        },
    };
    let data_size = match area.checked_mul(channels) {
        Some(s) => s,
        None => {
            proof {
                assert(area * channels == spec_pixel_bytes(width as int, height as int, format))
                    by (nonlinear_arith)
                    requires
                        area == (width as int) * (height as int),
                        channels == spec_channel_count(format),
                ;
            }
            return Err(MarshalError::SizeOverflow);
        },
    };
    proof {
        assert(data_size == spec_pixel_bytes(width as int, height as int, format))
            by (nonlinear_arith)
            requires
                data_size == area * channels,
                area == (width as int) * (height as int),
                channels == spec_channel_count(format),
        ;
    }
    Ok(GlCall::ReadPixels { x, y, width, height, format, element_type, byte_len: data_size })
}

/// Accepts the bytes the native side wrote for a readback of
/// `byte_len` bytes: they are handed over verbatim if and only if
/// the buffer was filled in full, so the caller can never observe a
/// partially initialized pixel buffer.
pub fn read_pixels_result(byte_len: usize, data: Vec<u8>) -> (r: Result<Vec<u8>, MarshalError>)
    ensures
        r is Ok <==> data@.len() == byte_len,
        r matches Ok(v) ==> v@ == data@ && v@.len() == byte_len,
        r matches Err(e) ==> e == MarshalError::SizeMismatch,
{
    if data.len() == byte_len {
        Ok(data)
    } else {
        Err(MarshalError::SizeMismatch)
    }
}

} // verus!
