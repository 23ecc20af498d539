//! The exact shape of each native call, as an owned value.
//!
//! A [`GlCall`] is the action a marshalling function has decided on:
//! it carries every argument of one native entry point, with owned
//! byte storage standing in for what the native convention takes as
//! raw pointers.  Whoever performs the call (the unverified shell
//! against the real entry points, or a test double against simulated
//! state) builds the transient pointers from that storage for the
//! duration of the call alone, so no raw address ever crosses this
//! layer's public contract and no pointer array can outlive its
//! backing bytes.

use vstd::prelude::*;

use crate::Enum;
use crate::Int;
use crate::Sizei;
use crate::Sizeiptr;
use crate::Uint;

verus! {

/// One native call, with owned storage for every argument.
///
/// Output-producing calls name the exact sizes the performer must
/// respect: `GetShaderInfoLog` and `GetProgramInfoLog` carry the
/// capacity the output buffer is allocated with, `GenBuffers` the
/// number of handles owed, and `ReadPixels` the exact byte count of
/// the pixel buffer.
#[derive(Debug)]
pub enum GlCall {
    /// Clear the buffers named by the mask.
    Clear { mask: u32 },
    /// Allocate a fresh shader handle of the given kind; the native
    /// side answers with the handle, zero on failure.
    CreateShader { kind: Enum },
    /// Allocate a fresh program handle; answered with the handle.
    CreateProgram,
    /// Register source text: `lines.len()` segments, each paired with
    /// its byte length in `lengths`.
    ShaderSource { shader: Uint, lines: Vec<Vec<u8>>, lengths: Vec<Int> },
    /// Compile the registered source; status is only queryable.
    CompileShader { shader: Uint },
    /// Query one integer shader parameter; answered with the value.
    GetShaderiv { shader: Uint, pname: Enum },
    /// Fetch the shader diagnostic log into a buffer of `max_length`
    /// bytes; answered with the buffer and the meaningful length.
    GetShaderInfoLog { shader: Uint, max_length: Sizei },
    /// Release a shader handle.
    DeleteShader { shader: Uint },
    /// Attach a shader to a program's pending link set.
    AttachShader { program: Uint, shader: Uint },
    /// Link the program; status is only queryable.
    LinkProgram { program: Uint },
    /// Query one integer program parameter; answered with the value.
    GetProgramiv { program: Uint, pname: Enum },
    /// Fetch the program diagnostic log, as for the shader log.
    GetProgramInfoLog { program: Uint, max_length: Sizei },
    /// Release a program handle.
    DeleteProgram { program: Uint },
    /// Look an attribute up by its terminated name; answered with a
    /// signed location, negative when not found.
    GetAttribLocation { program: Uint, name: Vec<u8> },
    /// Look a uniform up by its terminated name, as for attributes.
    GetUniformLocation { program: Uint, name: Vec<u8> },
    /// Allocate exactly `count` buffer handles; answered with them.
    GenBuffers { count: Sizei },
    /// Set the current binding of a binding point; a zero handle
    /// unbinds.
    BindBuffer { target: Enum, buffer: Uint },
    /// Upload `size` bytes of `data` into the bound buffer, with a
    /// pass-through usage hint.  `data` of `None` is the "no data,
    /// reserve only" sentinel: storage is sized but nothing is read.
    BufferData { target: Enum, size: Sizeiptr, data: Option<Vec<u8>>, usage: Enum },
    /// Activate a vertex input slot.
    EnableVertexAttribArray { index: Uint },
    /// Record a layout descriptor against the bound buffer: offset is
    /// a byte offset into that buffer, never an address.
    VertexAttribPointer {
        index: Uint,
        size: Int,
        element_type: Enum,
        normalized: u8,
        stride: Sizei,
        offset: usize,
    },
    /// Make the program current for subsequent drawing; zero unbinds.
    UseProgram { program: Uint },
    /// Read back pixels; the performer must fill and answer with
    /// exactly `byte_len` bytes.
    ReadPixels {
        x: Int,
        y: Int,
        width: Sizei,
        height: Sizei,
        format: Enum,
        element_type: Enum,
        byte_len: usize,
    },
}

/// A marshalling fault: an argument that cannot be given the shape the
/// native convention demands.  These are reported immediately by the
/// call-building functions; native-reported outcomes (compile or link
/// failure, a missing attribute) are never errors here, only data
/// discovered by explicit query.
#[derive(Clone, Copy, Debug, PartialEq, Eq)]
pub enum MarshalError {
    /// A dimension of the requested pixel rectangle is negative.
    NegativeDimension,
    /// The pixel format is not one the readback marshaller can size.
    UnknownFormat,
    /// A computed byte count does not fit the address space.
    SizeOverflow,
    /// A requested allocation count is negative.
    NegativeCount,
    /// The native side answered an allocation with the wrong number
    /// of handles.
    CountMismatch,
    /// A declared byte size is negative.
    NegativeSize,
    /// A declared byte size disagrees with the bytes supplied.
    SizeMismatch,
    /// A reported log length falls outside the buffer it describes.
    LengthOutOfRange,
    /// A name contains an interior terminator byte.
    InteriorNul,
    /// The source text has more line segments than a signed count can
    /// say.
    TooManyLines,
    /// A single line has more bytes than a signed length can say.
    LineTooLong,
}

} // verus!
