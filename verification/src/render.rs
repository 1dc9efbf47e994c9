//! Pixels to and from an output's frame buffer.
//!
//! Pixels cross the boundary as raw bytes, row after row. How many bytes a
//! rectangle takes is fixed by the pixel format; what the compositor hands
//! back when pixels are read starts with a header of fixed size.

use crate::call::Call;
use crate::types::Geometry;
use vstd::prelude::*;

verus! {

/// The pixel formats that can be written and read.
#[allow(non_camel_case_types)]
#[derive(Debug, Clone, Copy, PartialEq, Eq, Hash, Structural)]
pub enum wlc_pixel_format {
    /// Four bytes for each pixel: red, green, blue, alpha.
    WLC_RGBA8888,
}

/// The renderers that an output can run.
#[allow(non_camel_case_types)]
#[derive(Debug, Clone, Copy, PartialEq, Eq, Hash, Structural)]
pub enum wlc_renderer {
    /// Drawing with GLES2.
    WLC_RENDERER_GLES2,
    /// No drawing at all: a headless output.
    WLC_NO_RENDERER,
}

/// The formats in which a surface holds its textures.
#[allow(non_camel_case_types)]
#[derive(Debug, Clone, Copy, PartialEq, Eq, Hash, Structural)]
pub enum wlc_surface_format {
    SURFACE_RGB,
    SURFACE_RGBA,
    SURFACE_EGL,
    SURFACE_Y_UV,
    SURFACE_Y_U_V,
    SURFACE_Y_XUXV,
}

/// The bytes that stand before the pixels in what a read hands back.
pub const HEADER_SIZE: usize = 9;

/// The bytes in one row of `geometry`.
pub open spec fn stride(geometry: Geometry) -> nat {
    (geometry.size.w * 4) as nat
}

/// The bytes that the pixels of `geometry` take: its rows, one after another.
pub open spec fn pixels_len(geometry: Geometry) -> nat {
    stride(geometry) * geometry.size.h as nat
}

/// The bytes that a read of `geometry` hands back: the header, then the pixels.
pub open spec fn response_len(geometry: Geometry) -> nat {
    HEADER_SIZE as nat + pixels_len(geometry)
}

/// The size of the buffer that holds the pixels of `geometry`, where the
/// machine can address that many bytes.
pub fn pixel_buffer_len(geometry: &Geometry) -> (len: Option<usize>)
    ensures
        match len {
            Some(n) => n == pixels_len(*geometry),
            None => pixels_len(*geometry) > usize::MAX,
        },
{
    let w: u128 = geometry.size.w as u128;
    let h: u128 = geometry.size.h as u128;
    assert(w * 4 * h <= 0xffff_ffff * 4 * 0xffff_ffff) by (nonlinear_arith)
        requires
            0 <= w <= 0xffff_ffff,
            0 <= h <= 0xffff_ffff,
    ;
    let total: u128 = w * 4 * h;
    if total > usize::MAX as u128 {
        None
    } else {
        Some(total as usize)
    }
}

/// The size of the buffer that a read of `geometry` fills: room for the
/// header and for the pixels, where the machine can address that many bytes.
pub fn response_buffer_len(geometry: &Geometry) -> (len: Option<usize>)
    ensures
        match len {
            Some(n) => n == response_len(*geometry),
            None => response_len(*geometry) > usize::MAX,
        },
{
    match pixel_buffer_len(geometry) {
        None => None,
        Some(pixels) => HEADER_SIZE.checked_add(pixels),
    }
}

/// Says that the pixels in `data` are to be written to the rectangle
/// `geometry` of the frame buffer. `data` holds the rows of the rectangle, one
/// after another, and not a byte more or less. A rectangle that reaches
/// beyond the frame buffer is handed on as it is: the compositor clamps it.
pub fn write_pixels(format: wlc_pixel_format, geometry: Geometry, data: &[u8]) -> (call: Call)
    requires
        data@.len() == pixels_len(geometry),
    ensures
        call == (Call::PixelsWrite { format, geometry }),
{
    Call::PixelsWrite { format, geometry }
}

/// Splits what a read of `geometry` handed back into the header and the
/// pixels. The header is the first `HEADER_SIZE` bytes whatever the format
/// and the rectangle are; it is handed on as it came.
pub fn read_pixels(format: wlc_pixel_format, geometry: Geometry, response: Vec<u8>) -> (parts: (
    [u8; 9],
    Vec<u8>,
))
    requires
        response@.len() == response_len(geometry),
    ensures
        parts.0@ == response@.take(HEADER_SIZE as int),
        parts.1@ == response@.skip(HEADER_SIZE as int),
        parts.1@.len() == pixels_len(geometry),
{
    let mut header = response;
    let pixels = header.split_off(HEADER_SIZE);
    let first: [u8; 9] = [
        header[0],
        header[1],
        header[2],
        header[3],
        header[4],
        header[5],
        header[6],
        header[7],
        header[8],
    ];
    assert(first@ =~= response@.take(HEADER_SIZE as int));
    assert(pixels@ =~= response@.skip(HEADER_SIZE as int));
    (first, pixels)
}

} // verus!
