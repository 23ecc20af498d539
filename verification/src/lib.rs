//! A safety-oriented marshalling layer for a native, stateful graphics
//! interface with a C calling convention.
//!
//! The layer translates ergonomic, type-checked calls into the exact
//! argument shapes the native interface demands (counts, length arrays,
//! fully sized output buffers) and translates the native side's output
//! conventions (length-prefixed logs, raw pixel buffers, sentinel
//! integers) back into owned, safely sized values.
//!
//! The native side itself is an external collaborator.  Every operation
//! here is therefore split in two: a verified function that builds the
//! exact native call as a [`call::GlCall`] value, and, where the native
//! side hands data back, a verified function that takes those raw
//! outputs as plain values and shapes them into an owned result.  An
//! unverified shell performs the call descriptions against the real
//! native entry points; a test double may perform them against
//! simulated state.
//!
//! The native context is process-wide, thread-bound state: calls are
//! meaningful only while a context is current on the calling thread,
//! and concurrent use from several threads is undefined at the native
//! layer.  This layer mirrors none of that state; every query re-reads
//! it from the native side.  Handles are created and destroyed only by
//! explicit calls: nothing here auto-destroys on drop, and using a
//! handle after deleting it is the caller's responsibility to avoid.

use vstd::prelude::*;

mod call;
mod handles;
mod pixel;
mod shader;
mod source;
mod vertex;

pub use call::GlCall;
pub use call::MarshalError;
pub use handles::attach_shader;
pub use handles::create_program;
pub use handles::create_shader;
pub use handles::delete_program;
pub use handles::delete_shader;
pub use handles::gen_buffers;
pub use handles::gen_buffers_result;
pub use handles::handle_is_valid;
pub use handles::link_program;
pub use pixel::channel_count;
pub use pixel::clear;
pub use pixel::read_pixels;
pub use pixel::read_pixels_result;
pub use pixel::spec_channel_count;
pub use pixel::spec_pixel_bytes;
pub use shader::compile_shader;
pub use shader::get_attrib_location;
pub use shader::get_program_info_log;
pub use shader::get_programiv;
pub use shader::get_shader_info_log;
pub use shader::get_shaderiv;
pub use shader::get_uniform_location;
pub use shader::info_log_bytes;
pub use shader::location_found;
pub use shader::prepare_info_log_buffer;
pub use shader::shader_source;
pub use shader::status_success;
pub use shader::spec_source_fits;
pub use source::lemma_line_split_empty;
pub use source::lemma_line_split_join;
pub use source::lemma_line_split_excludes_terminator;
pub use source::lemma_line_split_trailing_newline;
pub use source::spec_first_newline;
pub use source::spec_join_lines;
pub use source::spec_line_split;
pub use source::split_lines;
pub use source::NEWLINE;
pub use vertex::bind_buffer;
pub use vertex::buffer_data;
pub use vertex::buffer_reserve;
pub use vertex::enable_vertex_attrib_array;
pub use vertex::use_program;
pub use vertex::vertex_attrib_pointer;

verus! {

// Semantic aliases for the native interface's scalar types.  The
// native color-component type is a float and is owned by the
// unverified shell; everything the verified layer touches is integral.

/// Bit mask argument, as for the framebuffer clear operation.
pub type Bitfield = u32;

/// Signed integer value: statuses, lengths, locations.
pub type Int = i32;

/// Signed size: counts of lines, buffers, log capacities.
pub type Sizei = i32;

/// Signed pointer-sized byte count for buffer uploads.
pub type Sizeiptr = isize;

/// Enumeration value: parameter names, formats, usage hints.
pub type Enum = u32;

/// Opaque unsigned handle naming a native-side object.
pub type Uint = u32;

/// Byte-sized character of native source strings and logs.
pub type Char = i8;

/// Native boolean, where zero is false.
pub type Boolean = u8;

// Named constants of the enumerations the marshaller exercises.

pub const COLOR_BUFFER_BIT: Bitfield = 0x0000_4000;
pub const RGBA: Enum = 0x1908;
pub const UNSIGNED_BYTE: Enum = 0x1401;
pub const VERTEX_SHADER: Enum = 0x8B31;
pub const FRAGMENT_SHADER: Enum = 0x8B30;
pub const COMPILE_STATUS: Enum = 0x8B81;
pub const TRUE: Enum = 1;
pub const FALSE: Enum = 0;
pub const LINK_STATUS: Enum = 0x8B82;
pub const ARRAY_BUFFER: Enum = 0x8892;
pub const STATIC_DRAW: Enum = 0x88E4;
pub const FLOAT: Enum = 0x1406;

// Pixel transfer formats the readback marshaller can size.

pub const RED: Enum = 0x1903;
pub const RG: Enum = 0x8227;
pub const RGB: Enum = 0x1907;
pub const BGRA: Enum = 0x80E1;
pub const ALPHA: Enum = 0x1906;
pub const LUMINANCE: Enum = 0x1909;
pub const LUMINANCE_ALPHA: Enum = 0x190A;

/// Capacity requested for compile and link diagnostic logs: large
/// enough for typical compiler diagnostics, and the capacity every log
/// output buffer is allocated with before the native call runs.
pub const INFO_LOG_CAPACITY: Sizei = 2048;

} // verus!
