use gl_marshal::bind_buffer;
use gl_marshal::buffer_data;
use gl_marshal::buffer_reserve;
use gl_marshal::channel_count;
use gl_marshal::clear;
use gl_marshal::compile_shader;
use gl_marshal::create_program;
use gl_marshal::create_shader;
use gl_marshal::delete_program;
use gl_marshal::delete_shader;
use gl_marshal::enable_vertex_attrib_array;
use gl_marshal::gen_buffers;
use gl_marshal::gen_buffers_result;
use gl_marshal::get_attrib_location;
use gl_marshal::get_program_info_log;
use gl_marshal::get_shader_info_log;
use gl_marshal::get_shaderiv;
use gl_marshal::get_uniform_location;
use gl_marshal::handle_is_valid;
use gl_marshal::info_log_bytes;
use gl_marshal::location_found;
use gl_marshal::prepare_info_log_buffer;
use gl_marshal::read_pixels;
use gl_marshal::read_pixels_result;
use gl_marshal::shader_source;
use gl_marshal::split_lines;
use gl_marshal::use_program;
use gl_marshal::vertex_attrib_pointer;
use gl_marshal::GlCall;
use gl_marshal::MarshalError;
use gl_marshal::ALPHA;
use gl_marshal::ARRAY_BUFFER;
use gl_marshal::BGRA;
use gl_marshal::COLOR_BUFFER_BIT;
use gl_marshal::COMPILE_STATUS;
use gl_marshal::FLOAT;
use gl_marshal::FRAGMENT_SHADER;
use gl_marshal::INFO_LOG_CAPACITY;
use gl_marshal::LUMINANCE;
use gl_marshal::LUMINANCE_ALPHA;
use gl_marshal::RED;
use gl_marshal::RG;
use gl_marshal::RGB;
use gl_marshal::RGBA;
use gl_marshal::STATIC_DRAW;
use gl_marshal::UNSIGNED_BYTE;
use gl_marshal::VERTEX_SHADER;

#[test]
fn split_lines_empty_text_has_no_segments() {
    let segs = split_lines(b"");
    assert_eq!(segs.len(), 0);
}

#[test]
fn split_lines_single_line_without_terminator() {
    let segs = split_lines(b"void main(){}");
    assert_eq!(segs, vec![b"void main(){}".to_vec()]);
}

#[test]
fn split_lines_trailing_terminator_changes_nothing() {
    let with = split_lines(b"void main(){}\n");
    let without = split_lines(b"void main(){}");
    assert_eq!(with, without);
}

#[test]
fn split_lines_multi_line() {
    let segs = split_lines(b"#version 100\nvoid main(){}\n");
    assert_eq!(segs, vec![b"#version 100".to_vec(), b"void main(){}".to_vec()]);
}

#[test]
fn split_lines_keeps_interior_empty_segments() {
    let segs = split_lines(b"a\n\nb");
    assert_eq!(segs, vec![b"a".to_vec(), b"".to_vec(), b"b".to_vec()]);
}

#[test]
fn split_lines_lone_terminator_is_one_empty_segment() {
    let segs = split_lines(b"\n");
    assert_eq!(segs, vec![b"".to_vec()]);
}

#[test]
fn shader_source_builds_parallel_arrays() {
    let call = shader_source(7, b"#version 100\nvoid main(){}\n").unwrap();
    match call {
        GlCall::ShaderSource { shader, lines, lengths } => {
            assert_eq!(shader, 7);
            assert_eq!(lines, vec![b"#version 100".to_vec(), b"void main(){}".to_vec()]);
            assert_eq!(lengths, vec![12, 13]);
        }
        other => panic!("unexpected call {:?}", other),
    }
}

#[test]
fn shader_source_empty_text_still_builds_the_call() {
    let call = shader_source(7, b"").unwrap();
    match call {
        GlCall::ShaderSource { shader, lines, lengths } => {
            assert_eq!(shader, 7);
            assert!(lines.is_empty());
            assert!(lengths.is_empty());
        }
        other => panic!("unexpected call {:?}", other),
    }
}

#[test]
fn builders_carry_arguments_verbatim() {
    assert!(matches!(clear(COLOR_BUFFER_BIT), GlCall::Clear { mask: COLOR_BUFFER_BIT }));
    assert!(matches!(
        create_shader(VERTEX_SHADER),
        GlCall::CreateShader { kind: VERTEX_SHADER }
    ));
    assert!(matches!(create_shader(FRAGMENT_SHADER), GlCall::CreateShader { kind: 0x8B30 }));
    assert!(matches!(create_program(), GlCall::CreateProgram));
    assert!(matches!(compile_shader(3), GlCall::CompileShader { shader: 3 }));
    assert!(matches!(delete_shader(3), GlCall::DeleteShader { shader: 3 }));
    assert!(matches!(delete_program(4), GlCall::DeleteProgram { program: 4 }));
    assert!(matches!(bind_buffer(ARRAY_BUFFER, 9), GlCall::BindBuffer { target: ARRAY_BUFFER, buffer: 9 }));
    assert!(matches!(use_program(5), GlCall::UseProgram { program: 5 }));
    assert!(matches!(enable_vertex_attrib_array(2), GlCall::EnableVertexAttribArray { index: 2 }));
    assert!(matches!(
        get_shaderiv(3, COMPILE_STATUS),
        GlCall::GetShaderiv { shader: 3, pname: COMPILE_STATUS }
    ));
    assert!(matches!(
        vertex_attrib_pointer(1, 3, FLOAT, 0, 24, 12),
        GlCall::VertexAttribPointer {
            index: 1,
            size: 3,
            element_type: FLOAT,
            normalized: 0,
            stride: 24,
            offset: 12,
        }
    ));
}

#[test]
fn info_log_queries_request_full_capacity() {
    assert!(matches!(
        get_shader_info_log(3),
        GlCall::GetShaderInfoLog { shader: 3, max_length: INFO_LOG_CAPACITY }
    ));
    assert!(matches!(
        get_program_info_log(4),
        GlCall::GetProgramInfoLog { program: 4, max_length: INFO_LOG_CAPACITY }
    ));
}

#[test]
fn prepared_log_buffer_is_fully_initialized() {
    let buf = prepare_info_log_buffer();
    assert_eq!(buf.len(), INFO_LOG_CAPACITY as usize);
    assert!(buf.iter().all(|b| *b == 0));
}

#[test]
fn info_log_truncates_to_actual_length() {
    let mut buf = prepare_info_log_buffer();
    buf[0] = b'o';
    buf[1] = b'k';
    buf[2] = b'!';
    let log = info_log_bytes(buf, 2).unwrap();
    assert_eq!(log, b"ok".to_vec());
}

#[test]
fn info_log_zero_length_is_empty() {
    let buf = prepare_info_log_buffer();
    assert_eq!(info_log_bytes(buf, 0).unwrap(), Vec::<u8>::new());
}

#[test]
fn info_log_rejects_out_of_range_lengths() {
    let buf = prepare_info_log_buffer();
    assert_eq!(info_log_bytes(buf, -1), Err(MarshalError::LengthOutOfRange));
    let buf = prepare_info_log_buffer();
    assert_eq!(
        info_log_bytes(buf, INFO_LOG_CAPACITY + 1),
        Err(MarshalError::LengthOutOfRange)
    );
}

#[test]
fn name_lookups_append_the_terminator() {
    match get_attrib_location(6, b"position").unwrap() {
        GlCall::GetAttribLocation { program, name } => {
            assert_eq!(program, 6);
            assert_eq!(name, b"position\0".to_vec());
        }
        other => panic!("unexpected call {:?}", other),
    }
    match get_uniform_location(6, b"mvp").unwrap() {
        GlCall::GetUniformLocation { program, name } => {
            assert_eq!(program, 6);
            assert_eq!(name, b"mvp\0".to_vec());
        }
        other => panic!("unexpected call {:?}", other),
    }
}

#[test]
fn name_lookups_reject_interior_terminators() {
    assert_eq!(
        get_attrib_location(6, b"pos\0ition").err(),
        Some(MarshalError::InteriorNul)
    );
    assert_eq!(get_uniform_location(6, b"\0").err(), Some(MarshalError::InteriorNul));
}

#[test]
fn location_sentinel_is_negative() {
    assert!(location_found(0));
    assert!(location_found(12));
    assert!(!location_found(-1));
}

#[test]
fn handle_sentinel_is_zero() {
    assert!(handle_is_valid(1));
    assert!(!handle_is_valid(0));
}

#[test]
fn channel_counts_per_format() {
    assert_eq!(channel_count(RGBA), 4);
    assert_eq!(channel_count(BGRA), 4);
    assert_eq!(channel_count(RGB), 3);
    assert_eq!(channel_count(RG), 2);
    assert_eq!(channel_count(LUMINANCE_ALPHA), 2);
    assert_eq!(channel_count(RED), 1);
    assert_eq!(channel_count(ALPHA), 1);
    assert_eq!(channel_count(LUMINANCE), 1);
    assert_eq!(channel_count(0x1234), 0);
}

#[test]
fn read_pixels_sizes_the_buffer_exactly() {
    match read_pixels(0, 0, 3, 2, RGBA, UNSIGNED_BYTE).unwrap() {
        GlCall::ReadPixels { width, height, format, byte_len, .. } => {
            assert_eq!((width, height, format), (3, 2, RGBA));
            assert_eq!(byte_len, 24);
        }
        other => panic!("unexpected call {:?}", other),
    }
    match read_pixels(1, 2, 5, 7, RGB, UNSIGNED_BYTE).unwrap() {
        GlCall::ReadPixels { x, y, byte_len, .. } => {
            assert_eq!((x, y), (1, 2));
            assert_eq!(byte_len, 105);
        }
        other => panic!("unexpected call {:?}", other),
    }
}

#[test]
fn read_pixels_zero_area_is_zero_bytes() {
    match read_pixels(0, 0, 0, 64, RGBA, UNSIGNED_BYTE).unwrap() {
        GlCall::ReadPixels { byte_len, .. } => assert_eq!(byte_len, 0),
        other => panic!("unexpected call {:?}", other),
    }
}

#[test]
fn read_pixels_rejects_what_it_cannot_size() {
    assert_eq!(
        read_pixels(0, 0, -1, 2, RGBA, UNSIGNED_BYTE).err(),
        Some(MarshalError::NegativeDimension)
    );
    assert_eq!(
        read_pixels(0, 0, 2, -2, RGBA, UNSIGNED_BYTE).err(),
        Some(MarshalError::NegativeDimension)
    );
    assert_eq!(
        read_pixels(0, 0, 2, 2, 0x1234, UNSIGNED_BYTE).err(),
        Some(MarshalError::UnknownFormat)
    );
}

#[test]
fn read_pixels_result_accepts_only_a_full_buffer() {
    assert_eq!(read_pixels_result(4, vec![9, 8, 7, 6]).unwrap(), vec![9, 8, 7, 6]);
    assert_eq!(read_pixels_result(4, vec![9, 8, 7]), Err(MarshalError::SizeMismatch));
    assert_eq!(read_pixels_result(0, Vec::new()).unwrap(), Vec::<u8>::new());
}

#[test]
fn gen_buffers_validates_the_count() {
    assert!(matches!(gen_buffers(2).unwrap(), GlCall::GenBuffers { count: 2 }));
    assert!(matches!(gen_buffers(0).unwrap(), GlCall::GenBuffers { count: 0 }));
    assert_eq!(gen_buffers(-1).err(), Some(MarshalError::NegativeCount));
}

#[test]
fn gen_buffers_result_demands_the_exact_count() {
    assert_eq!(gen_buffers_result(3, vec![4, 5, 6]).unwrap(), vec![4, 5, 6]);
    assert_eq!(gen_buffers_result(0, Vec::new()).unwrap(), Vec::<u32>::new());
    assert_eq!(gen_buffers_result(2, vec![4]), Err(MarshalError::CountMismatch));
    assert_eq!(gen_buffers_result(1, vec![4, 5]), Err(MarshalError::CountMismatch));
}

#[test]
fn buffer_data_carries_bytes_verbatim() {
    match buffer_data(ARRAY_BUFFER, 4, &[1, 2, 3, 4], STATIC_DRAW).unwrap() {
        GlCall::BufferData { target, size, data, usage } => {
            assert_eq!(target, ARRAY_BUFFER);
            assert_eq!(size, 4);
            assert_eq!(data, Some(vec![1, 2, 3, 4]));
            assert_eq!(usage, STATIC_DRAW);
        }
        other => panic!("unexpected call {:?}", other),
    }
}

#[test]
fn buffer_reserve_carries_the_no_data_sentinel() {
    match buffer_reserve(ARRAY_BUFFER, 64, STATIC_DRAW).unwrap() {
        GlCall::BufferData { target, size, data, usage } => {
            assert_eq!(target, ARRAY_BUFFER);
            assert_eq!(size, 64);
            assert_eq!(data, None);
            assert_eq!(usage, STATIC_DRAW);
        }
        other => panic!("unexpected call {:?}", other),
    }
    assert_eq!(
        buffer_reserve(ARRAY_BUFFER, -5, STATIC_DRAW).err(),
        Some(MarshalError::NegativeSize)
    );
}

#[test]
fn buffer_data_rejects_bad_sizes() {
    assert_eq!(
        buffer_data(ARRAY_BUFFER, -1, &[], STATIC_DRAW).err(),
        Some(MarshalError::NegativeSize)
    );
    assert_eq!(
        buffer_data(ARRAY_BUFFER, 3, &[1, 2], STATIC_DRAW).err(),
        Some(MarshalError::SizeMismatch)
    );
}
