//! Handle lifecycle: creation, destruction, and program linkage.
//!
//! Handles are opaque native-assigned integers.  This layer only
//! brokers their lifetime: it builds the create and delete calls as
//! paired operations and tracks no liveness.  When to destroy, and
//! never to use a destroyed handle again, is the caller's contract;
//! a second delete of the same handle, or a dependent call on one, is
//! undefined at the native layer.  The zero handle is the native "no
//! object" sentinel and must never reach a dependent call, which the
//! dependent call builders state as their one precondition.

use vstd::prelude::*;

use crate::call::GlCall;
use crate::call::MarshalError;
use crate::Enum;
use crate::Sizei;
use crate::Uint;

verus! {

/// Whether a handle is a real object rather than the zero "no
/// object" sentinel a failed creation answers with.
pub fn handle_is_valid(handle: Uint) -> (b: bool)
    ensures
        b == (handle != 0),
{
    handle != 0
}

/// Builds the call allocating a fresh shader handle of the given
/// kind.  The native side answers with the handle, zero on failure.
pub fn create_shader(shader_type: Enum) -> (c: GlCall)
    ensures
        c == (GlCall::CreateShader { kind: shader_type }),
{
    GlCall::CreateShader { kind: shader_type }
}

/// Builds the call allocating a fresh program handle.
pub fn create_program() -> (c: GlCall)
    ensures
        c == GlCall::CreateProgram,
{
    GlCall::CreateProgram
}

/// Builds the call releasing a shader handle.  Deleting the zero
/// sentinel is tolerated natively and so not excluded here.
pub fn delete_shader(shader: Uint) -> (c: GlCall)
    ensures
        c == (GlCall::DeleteShader { shader }),
{
    GlCall::DeleteShader { shader }
}

/// Builds the call releasing a program handle.
pub fn delete_program(program: Uint) -> (c: GlCall)
    ensures
        c == (GlCall::DeleteProgram { program }),
{
    GlCall::DeleteProgram { program }
}

/// Builds the call attaching a shader to a program's pending link
/// set.  Success or failure of the eventual link is observable only
/// by querying status afterwards.
pub fn attach_shader(program: Uint, shader: Uint) -> (c: GlCall)
    requires
        program != 0,
        shader != 0,
    ensures
        c == (GlCall::AttachShader { program, shader }),
{
    GlCall::AttachShader { program, shader }
}

/// Builds the call linking a program.  Link failure is a normal,
/// queryable outcome, never an error of this call.
pub fn link_program(program: Uint) -> (c: GlCall)
    requires
        program != 0,
    ensures
        c == (GlCall::LinkProgram { program }),
{
    GlCall::LinkProgram { program }
}

/// Builds the call allocating exactly `n` buffer handles.  A negative
/// count cannot be asked of the native allocator and is rejected; a
/// zero count is a valid request for no handles.
pub fn gen_buffers(n: Sizei) -> (r: Result<GlCall, MarshalError>)
    ensures
        r is Ok <==> n >= 0,
        r matches Ok(c) ==> c == (GlCall::GenBuffers { count: n }),
        r matches Err(e) ==> e == MarshalError::NegativeCount,
{
    if n < 0 {
        Err(MarshalError::NegativeCount)
    } else {
        Ok(GlCall::GenBuffers { count: n })
    }
}

/// Accepts the native answer to a `GenBuffers` call: the handles are
/// returned exactly as allocated if and only if there are exactly
/// `count` of them, so the caller always receives a sequence sized to
/// its request and never one cut to some unrelated capacity.
pub fn gen_buffers_result(count: usize, handles: Vec<Uint>) -> (r: Result<
    Vec<Uint>,
    MarshalError,
>)
    ensures
        r is Ok <==> handles@.len() == count,
        r matches Ok(v) ==> v@ == handles@ && v@.len() == count,
        r matches Err(e) ==> e == MarshalError::CountMismatch,
{
    if handles.len() == count {
        Ok(handles)
    } else {
        Err(MarshalError::CountMismatch)
    }
}

} // verus!
