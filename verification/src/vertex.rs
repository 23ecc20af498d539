//! Vertex buffer upload and attribute layout marshalling.
//!
//! Uploads carry their bytes as owned storage inside the call value;
//! the declared size must agree with the bytes supplied, so the
//! native side is never told to read more memory than the caller
//! handed over.  Attribute descriptors are pure pass-through tuples,
//! with the offset an integer byte offset into the bound buffer,
//! never an address.

use vstd::prelude::*;
use vstd::slice::slice_to_vec;

use crate::call::GlCall;
use crate::call::MarshalError;
use crate::Boolean;
use crate::Enum;
use crate::Int;
use crate::Sizei;
use crate::Sizeiptr;
use crate::Uint;

verus! {

/// Builds the call setting the current binding of a binding point.
/// The zero handle unbinds.
pub fn bind_buffer(target: Enum, buffer: Uint) -> (c: GlCall)
    ensures
        c == (GlCall::BindBuffer { target, buffer }),
{
    GlCall::BindBuffer { target, buffer }
}

/// Builds the call uploading `size` bytes into the bound buffer.
/// The bytes travel verbatim inside the call value, and the declared
/// size is accepted if and only if it is nonnegative and equal to the
/// byte count supplied.  The usage hint has no correctness meaning
/// and passes through untouched.
pub fn buffer_data(target: Enum, size: Sizeiptr, data: &[u8], usage: Enum) -> (r: Result<
    GlCall,
    MarshalError,
>)
    ensures
        r is Ok <==> size >= 0 && size as int == data@.len(),
        r matches Ok(c) ==> c matches GlCall::BufferData { target: t, size: s, data: d, usage: u }
            && t == target && s == size && (d matches Some(bytes) && bytes@ == data@) && u
            == usage,
        r == Err::<GlCall, MarshalError>(MarshalError::NegativeSize) <==> size < 0,
        r == Err::<GlCall, MarshalError>(MarshalError::SizeMismatch) <==> size >= 0 && size as int
            != data@.len(),
{
    if size < 0 {
        Err(MarshalError::NegativeSize)
    } else if size as usize != data.len() {
        Err(MarshalError::SizeMismatch)
    } else {
        Ok(GlCall::BufferData { target, size, data: Some(slice_to_vec(data)), usage })
    }
}

/// Builds the call reserving `size` bytes of buffer storage without
/// uploading anything: the "no data" sentinel travels in place of
/// the bytes, so the native side sizes the store and reads nothing.
pub fn buffer_reserve(target: Enum, size: Sizeiptr, usage: Enum) -> (r: Result<
    GlCall,
    MarshalError,
>)
    ensures
        r is Ok <==> size >= 0,
        r matches Ok(c) ==> c == (GlCall::BufferData {
            target,
            size,
            data: None::<Vec<u8>>,
            usage,
        }),
        r matches Err(e) ==> e == MarshalError::NegativeSize,
{
    if size < 0 {
        Err(MarshalError::NegativeSize)
    } else {
        Ok(GlCall::BufferData { target, size, data: None, usage })
    }
}

/// Builds the call activating a vertex input slot.
pub fn enable_vertex_attrib_array(index: Uint) -> (c: GlCall)
    ensures
        c == (GlCall::EnableVertexAttribArray { index }),
{
    GlCall::EnableVertexAttribArray { index }
}

/// Builds the call recording a layout descriptor for the bound
/// buffer against a vertex input slot: component count, element
/// type, normalization flag, stride, and byte offset, all verbatim.
/// It takes effect when drawing only for a slot that was enabled and
/// a buffer that was bound beforehand.
pub fn vertex_attrib_pointer(
    index: Uint,
    size: Int,
    element_type: Enum,
    normalized: Boolean,
    stride: Sizei,
    offset: usize,
) -> (c: GlCall)
    ensures
        c == (GlCall::VertexAttribPointer {
            index,
            size,
            element_type,
            normalized,
            stride,
            offset,
        }),
{
    GlCall::VertexAttribPointer { index, size, element_type, normalized, stride, offset }
}

/// Builds the call making a program current for drawing.  The zero
/// handle makes no program current.
pub fn use_program(program: Uint) -> (c: GlCall)
    ensures
        c == (GlCall::UseProgram { program }),
{
    GlCall::UseProgram { program }
}

} // verus!
