//! Shader and program pipeline marshalling: source registration,
//! compile and link driving, and diagnostics retrieval.
//!
//! Compilation and linking follow the native two-phase convention:
//! the state-changing call never signals failure; status is a normal
//! outcome discovered by an explicit integer query, and a failed
//! compile or link leaves the object queryable for its diagnostic
//! log.  Logs come back through a capacity/actual-length pair: the
//! output buffer is allocated to the full requested capacity before
//! the native call, and exactly the reported length is returned —
//! never the backing capacity, whose tail bytes are undefined.

use vstd::prelude::*;
use vstd::slice::slice_to_vec;

use crate::call::GlCall;
use crate::call::MarshalError;
use crate::source::spec_line_split;
use crate::source::split_lines;
use crate::Enum;
use crate::Int;
use crate::Uint;
use crate::INFO_LOG_CAPACITY;

verus! {

/// Whether the length entry at `k` mirrors the segment at `k`, small
/// enough for a signed length.
spec fn seg_len_at(segs: Seq<Vec<u8>>, lengths: Seq<i32>, k: int) -> bool {
    &&& segs[k]@.len() <= i32::MAX
    &&& lengths[k] == segs[k]@.len()
}

/// Whether the first `n` lengths mirror the segments exactly.
spec fn seg_lengths_ok(segs: Seq<Vec<u8>>, lengths: Seq<i32>, n: int) -> bool {
    forall|k: int| 0 <= k < n ==> #[trigger] seg_len_at(segs, lengths, k)
}

/// Whether every segment count and segment length of a split source
/// text fits the signed integers the native convention takes.
pub open spec fn spec_source_fits(lines: Seq<Seq<u8>>) -> bool {
    &&& lines.len() <= i32::MAX
    &&& forall|i: int| 0 <= i < lines.len() ==> lines[i].len() <= i32::MAX
}

/// Builds the source-registration call: the text split into its
/// terminator-delimited segments, paired with a length array of
/// equal size.  An empty text yields a call with zero segments — the
/// call is still built, never skipped.  A text whose segment count
/// or segment length cannot be said in a signed integer is rejected
/// rather than truncated.
#[verifier::loop_isolation(false)]
pub fn shader_source(shader: Uint, source: &[u8]) -> (r: Result<GlCall, MarshalError>)
    requires
        shader != 0,
    ensures
        r is Ok <==> spec_source_fits(spec_line_split(source@)),
        r matches Ok(c) ==> c matches GlCall::ShaderSource { shader: sh, lines, lengths }
            && sh == shader && lines@.len() == spec_line_split(source@).len() && (forall|i: int|
            0 <= i < lines@.len() ==> lines@[i]@ == spec_line_split(source@)[i])
            && lengths@.len() == lines@.len() && (forall|i: int|
            0 <= i < lengths@.len() ==> lengths@[i] == spec_line_split(source@)[i].len()),
        r == Err::<GlCall, MarshalError>(MarshalError::TooManyLines) <==> spec_line_split(
            source@,
        ).len() > i32::MAX,
        r == Err::<GlCall, MarshalError>(MarshalError::LineTooLong) <==> spec_line_split(
            source@,
        ).len() <= i32::MAX && (exists|i: int|
            0 <= i < spec_line_split(source@).len() && spec_line_split(source@)[i].len()
                > i32::MAX),
{
    let segs = split_lines(source);
    if segs.len() > (i32::MAX as usize) {
        return Err(MarshalError::TooManyLines);
    }
    let mut lengths: Vec<Int> = Vec::new();
    let mut i: usize = 0;
    while i < segs.len()
        invariant
            i <= segs@.len(),
            segs@.len() <= i32::MAX,
            segs@.len() == spec_line_split(source@).len(),
            forall|k: int| 0 <= k < segs@.len() ==> segs@[k]@ == spec_line_split(source@)[k],
            lengths@.len() == i as int,
            seg_lengths_ok(segs@, lengths@, i as int),
        decreases segs@.len() - i,
    {
        let l = segs[i].len();
        if l > (i32::MAX as usize) {
            proof {
                assert(spec_line_split(source@)[i as int].len() > i32::MAX);
            }
            return Err(MarshalError::LineTooLong);
        }
        let ghost prev = lengths@;
        lengths.push(l as Int);
        i = i + 1;
        proof {
            assert forall|k: int| 0 <= k < i implies #[trigger] seg_len_at(segs@, lengths@, k) by {
                if k == i - 1 {
                    assert(lengths@[k] == l as Int);
                    assert(l == segs@[k]@.len());
                } else {
                    assert(seg_len_at(segs@, prev, k));
                    assert(lengths@[k] == prev[k]);
                }
            }
        }
    }
    proof {
        let lines = spec_line_split(source@);
        assert forall|k: int| 0 <= k < lines.len() implies lines[k].len() <= i32::MAX by {
            assert(seg_len_at(segs@, lengths@, k));
            assert(segs@[k]@ == lines[k]);
        }
        assert(spec_source_fits(lines));
        assert forall|k: int| 0 <= k < lengths@.len() implies lengths@[k] == lines[k].len() by {
            assert(seg_len_at(segs@, lengths@, k));
            assert(segs@[k]@ == lines[k]);
        }
    }
    Ok(GlCall::ShaderSource { shader, lines: segs, lengths })
}

/// Builds the call compiling the registered source.  Compilation
/// failure is a normal outcome, observable only by querying status.
pub fn compile_shader(shader: Uint) -> (c: GlCall)
    requires
        shader != 0,
    ensures
        c == (GlCall::CompileShader { shader }),
{
    GlCall::CompileShader { shader }
}

/// Builds the query for one integer shader parameter, as for the
/// compile status.  The native side answers with the value, which
/// this layer passes on untouched and never caches: every query
/// re-reads native state.
pub fn get_shaderiv(shader: Uint, pname: Enum) -> (c: GlCall)
    requires
        shader != 0,
    ensures
        c == (GlCall::GetShaderiv { shader, pname }),
{
    GlCall::GetShaderiv { shader, pname }
}

/// Builds the query for the shader diagnostic log, requesting the
/// fixed log capacity.
pub fn get_shader_info_log(shader: Uint) -> (c: GlCall)
    requires
        shader != 0,
    ensures
        c == (GlCall::GetShaderInfoLog { shader, max_length: INFO_LOG_CAPACITY }),
{
    GlCall::GetShaderInfoLog { shader, max_length: INFO_LOG_CAPACITY }
}

/// Builds the query for one integer program parameter, as for the
/// link status.
pub fn get_programiv(program: Uint, pname: Enum) -> (c: GlCall)
    requires
        program != 0,
    ensures
        c == (GlCall::GetProgramiv { program, pname }),
{
    GlCall::GetProgramiv { program, pname }
}

/// Builds the query for the program diagnostic log, requesting the
/// fixed log capacity.
pub fn get_program_info_log(program: Uint) -> (c: GlCall)
    requires
        program != 0,
    ensures
        c == (GlCall::GetProgramInfoLog { program, max_length: INFO_LOG_CAPACITY }),
{
    GlCall::GetProgramInfoLog { program, max_length: INFO_LOG_CAPACITY }
}

/// Allocates the output buffer a log query fills: the full log
/// capacity, every byte initialized before the native call runs.
pub fn prepare_info_log_buffer() -> (buf: Vec<u8>)
    ensures
        buf@.len() == INFO_LOG_CAPACITY as int,
        forall|i: int| 0 <= i < buf@.len() ==> buf@[i] == 0,
{
    let cap = INFO_LOG_CAPACITY as usize;
    let mut buf: Vec<u8> = Vec::new();
    let mut i: usize = 0;
    while i < cap
        invariant
            cap == INFO_LOG_CAPACITY as int,
            i == buf@.len(),
            i <= cap,
            forall|k: int| 0 <= k < buf@.len() ==> buf@[k] == 0,
        decreases cap - i,
    {
        buf.push(0);
        i = i + 1;
    }
    buf
}

/// Truncates a filled log buffer to the actual length the native
/// side reported: exactly `length` bytes are returned, never the
/// backing capacity, since bytes past the reported length are
/// undefined.  A reported length outside the buffer is rejected.
pub fn info_log_bytes(buf: Vec<u8>, length: Int) -> (r: Result<Vec<u8>, MarshalError>)
    ensures
        r is Ok <==> 0 <= length && length as int <= buf@.len(),
        r matches Ok(log) ==> log@ == buf@.take(length as int),
        r matches Err(e) ==> e == MarshalError::LengthOutOfRange,
{
    if length < 0 {
        return Err(MarshalError::LengthOutOfRange);
    }
    let n = length as usize;
    if n > buf.len() {
        return Err(MarshalError::LengthOutOfRange);
    }
    let mut log = buf;
    log.truncate(n);
    Ok(log)
}

/// Copies a name and appends the terminator byte the native lookup
/// convention demands, rejecting names that already contain one.
fn terminated_name(name: &[u8]) -> (r: Result<Vec<u8>, MarshalError>)
    ensures
        r is Ok <==> !name@.contains(0u8),
        r matches Ok(z) ==> z@ == name@.push(0u8),
        r matches Err(e) ==> e == MarshalError::InteriorNul,
{
    let len = name.len();
    let mut i: usize = 0;
    while i < len
        invariant
            len == name@.len(),
            i <= len,
            forall|k: int| 0 <= k < i ==> name@[k] != 0,
        decreases len - i,
    {
        if name[i] == 0 {
            proof {
                assert(name@.contains(0u8)) by {
                    assert(name@[i as int] == 0);
                }
            }
            return Err(MarshalError::InteriorNul);
        }
        i = i + 1;
    }
    let mut z = slice_to_vec(name);
    z.push(0);
    Ok(z)
}

/// Builds the lookup of an attribute location by name.  The answer
/// is a signed location where a negative value is the defined "not
/// found" sentinel, ordinary data rather than a failure.
pub fn get_attrib_location(program: Uint, name: &[u8]) -> (r: Result<GlCall, MarshalError>)
    requires
        program != 0,
    ensures
        r is Ok <==> !name@.contains(0u8),
        r matches Ok(c) ==> c matches GlCall::GetAttribLocation { program: p, name: z }
            && p == program && z@ == name@.push(0u8),
        r matches Err(e) ==> e == MarshalError::InteriorNul,
{
    match terminated_name(name) {
        Ok(z) => Ok(GlCall::GetAttribLocation { program, name: z }),
        Err(e) => Err(e),
    }
}

/// Builds the lookup of a uniform location by name, with the same
/// negative "not found" sentinel convention as attributes.
pub fn get_uniform_location(program: Uint, name: &[u8]) -> (r: Result<GlCall, MarshalError>)
    requires
        program != 0,
    ensures
        r is Ok <==> !name@.contains(0u8),
        r matches Ok(c) ==> c matches GlCall::GetUniformLocation { program: p, name: z }
            && p == program && z@ == name@.push(0u8),
        r matches Err(e) ==> e == MarshalError::InteriorNul,
{
    match terminated_name(name) {
        Ok(z) => Ok(GlCall::GetUniformLocation { program, name: z }),
        Err(e) => Err(e),
    }
}

/// Whether a queried status value is the defined success sentinel.
/// Compile and link status are boolean-like integers: the true
/// sentinel means success, anything else failure, and either is an
/// ordinary outcome, never a raised error.
pub fn status_success(value: Int) -> (b: bool)
    ensures
        b == (value == crate::TRUE as Int),
{
    value == (crate::TRUE as Int)
}

/// Whether a signed location answer found its name: a negative
/// location is the "not found" sentinel, to be checked explicitly
/// rather than raised.
pub fn location_found(location: Int) -> (b: bool)
    ensures
        b == (location >= 0),
{
    location >= 0
}

} // verus!
