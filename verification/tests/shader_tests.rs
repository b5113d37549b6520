use amazintosh_rs::render::{
    GlCall, FRAGMENT_SHADER, GEOMETRY_SHADER, VERTEX_SHADER,
};
use amazintosh_rs::shader::{LogObject, Shader, ShaderError, ShaderProgram, ShaderType};
use amazintosh_rs::trace::TraceGl;

const VERTEX_SRC: &str = "void main() { gl_Position = vec4(0.0); }";
const FRAGMENT_SRC: &str = "void main() { }";

#[test]
fn stage_kind_tags() {
    assert_eq!(ShaderType::Vertex.gl_enum(), VERTEX_SHADER);
    assert_eq!(ShaderType::Geometry.gl_enum(), GEOMETRY_SHADER);
    assert_eq!(ShaderType::Fragment.gl_enum(), FRAGMENT_SHADER);
    assert_eq!(VERTEX_SHADER, 0x8B31);
    assert_eq!(GEOMETRY_SHADER, 0x8DD9);
    assert_eq!(FRAGMENT_SHADER, 0x8B30);
}

#[test]
fn zero_log_length_is_success() {
    let mut gl = TraceGl::new();
    let shader = Shader::create_shader(&mut gl, ShaderType::Vertex, VERTEX_SRC).unwrap();
    drop(shader);
    assert_eq!(
        gl.recorded().as_slice(),
        &[
            GlCall::CreateShader {
                shader_type: ShaderType::Vertex,
                handle: 1,
            },
            GlCall::ShaderSource { handle: 1 },
            GlCall::CompileShader { handle: 1 },
            GlCall::GetLogLength {
                object: LogObject::ShaderStage,
                handle: 1,
                len: 0,
            },
        ]
    );
}

#[test]
fn scripted_empty_log_text_still_reports_success() {
    // The backend cannot distinguish "no log" from "empty log": a length
    // of 0 is success even when a log object exists.
    let mut gl = TraceGl::new();
    gl.script_info_log(Some(String::new()));
    let result = Shader::create_shader(&mut gl, ShaderType::Fragment, FRAGMENT_SRC);
    assert!(result.is_ok());
}

#[test]
fn nonzero_log_is_compile_error_with_trimmed_text() {
    let mut gl = TraceGl::new();
    gl.script_info_log(Some("  0:1(1): error: syntax error\n\n".to_string()));
    let result = Shader::create_shader(&mut gl, ShaderType::Vertex, VERTEX_SRC);
    match result {
        Err(ShaderError::CompileError(msg)) => {
            // Whitespace at both ends stripped, internal content untouched.
            assert_eq!(msg, "0:1(1): error: syntax error");
        }
        other => panic!("expected a compile error, got {:?}", other),
    }
    // The failed stage handle is released again.
    assert_eq!(
        gl.recorded().last(),
        Some(&GlCall::DeleteShader { handle: 1 })
    );
}

#[test]
fn internal_whitespace_is_kept_verbatim() {
    let mut gl = TraceGl::new();
    gl.script_info_log(Some("\tline one\n\nline  two \n".to_string()));
    match Shader::create_shader(&mut gl, ShaderType::Vertex, VERTEX_SRC) {
        Err(ShaderError::CompileError(msg)) => {
            assert_eq!(msg, "line one\n\nline  two");
        }
        other => panic!("expected a compile error, got {:?}", other),
    }
}

#[test]
fn refused_stage_allocation_is_reported() {
    let mut gl = TraceGl::new();
    gl.script_alloc_failure(0);
    let result = Shader::create_shader(&mut gl, ShaderType::Vertex, VERTEX_SRC);
    assert!(matches!(result, Err(ShaderError::CreateShaderFailed)));
    assert_eq!(
        gl.recorded().as_slice(),
        &[GlCall::CreateShader {
            shader_type: ShaderType::Vertex,
            handle: 0,
        }]
    );
}

#[test]
fn interior_nul_in_source_is_rejected_and_handle_released() {
    let mut gl = TraceGl::new();
    let result = Shader::create_shader(&mut gl, ShaderType::Vertex, "void\0main");
    assert!(matches!(result, Err(ShaderError::InvalidSourceString)));
    assert_eq!(
        gl.recorded().as_slice(),
        &[
            GlCall::CreateShader {
                shader_type: ShaderType::Vertex,
                handle: 1,
            },
            GlCall::DeleteShader { handle: 1 },
        ]
    );
}

#[test]
fn link_detaches_every_attached_stage_and_no_other() {
    let mut gl = TraceGl::new();
    let vs = Shader::create_shader(&mut gl, ShaderType::Vertex, VERTEX_SRC).unwrap();
    let fs = Shader::create_shader(&mut gl, ShaderType::Fragment, FRAGMENT_SRC).unwrap();
    let before = gl.recorded().len();
    let program = ShaderProgram::from_shaders(&mut gl, Some(vs), None, Some(fs)).unwrap();
    drop(program);
    assert_eq!(
        &gl.recorded()[before..],
        &[
            GlCall::CreateProgram { handle: 3 },
            GlCall::AttachShader {
                program: 3,
                shader: 1,
            },
            GlCall::AttachShader {
                program: 3,
                shader: 2,
            },
            GlCall::LinkProgram { handle: 3 },
            GlCall::GetLogLength {
                object: LogObject::Program,
                handle: 3,
                len: 0,
            },
            GlCall::DetachShader {
                program: 3,
                shader: 1,
            },
            GlCall::DetachShader {
                program: 3,
                shader: 2,
            },
            GlCall::DeleteShader { handle: 1 },
            GlCall::DeleteShader { handle: 2 },
        ]
    );
    // Exactly one detach per attached stage; no detach for the geometry
    // stage that was never provided.
    let attached: Vec<u32> = gl.recorded()[before..]
        .iter()
        .filter_map(|c| match c {
            GlCall::AttachShader { shader, .. } => Some(*shader),
            _ => None,
        })
        .collect();
    let detached: Vec<u32> = gl.recorded()[before..]
        .iter()
        .filter_map(|c| match c {
            GlCall::DetachShader { shader, .. } => Some(*shader),
            _ => None,
        })
        .collect();
    assert_eq!(attached, detached);
}

#[test]
fn link_error_carries_trimmed_log_and_releases_program() {
    let mut gl = TraceGl::new();
    let vs = Shader::create_shader(&mut gl, ShaderType::Vertex, VERTEX_SRC).unwrap();
    let fs = Shader::create_shader(&mut gl, ShaderType::Fragment, FRAGMENT_SRC).unwrap();
    gl.script_info_log(Some(" error: unresolved symbol \n".to_string()));
    let before = gl.recorded().len();
    let result = ShaderProgram::from_shaders(&mut gl, Some(vs), None, Some(fs));
    match result {
        Err(ShaderError::LinkError(msg)) => assert_eq!(msg, "error: unresolved symbol"),
        other => panic!("expected a link error, got {:?}", other),
    }
    let tail = &gl.recorded()[before..];
    // No detach happens on the failure path; the program handle and both
    // stage handles are released.
    assert!(tail
        .iter()
        .all(|c| !matches!(c, GlCall::DetachShader { .. })));
    assert!(tail.contains(&GlCall::DeleteProgram { handle: 3 }));
    assert!(tail.contains(&GlCall::DeleteShader { handle: 1 }));
    assert!(tail.contains(&GlCall::DeleteShader { handle: 2 }));
}

#[test]
fn refused_program_allocation_releases_stages() {
    let mut gl = TraceGl::new();
    let vs = Shader::create_shader(&mut gl, ShaderType::Vertex, VERTEX_SRC).unwrap();
    let fs = Shader::create_shader(&mut gl, ShaderType::Fragment, FRAGMENT_SRC).unwrap();
    gl.script_alloc_failure(0);
    let before = gl.recorded().len();
    let result = ShaderProgram::from_shaders(&mut gl, Some(vs), None, Some(fs));
    assert!(matches!(result, Err(ShaderError::CreateShaderProgramFailed)));
    assert_eq!(
        &gl.recorded()[before..],
        &[
            GlCall::CreateProgram { handle: 0 },
            GlCall::DeleteShader { handle: 1 },
            GlCall::DeleteShader { handle: 2 },
        ]
    );
}

#[test]
fn validate_reports_trimmed_log_and_keeps_program() {
    let mut gl = TraceGl::new();
    let vs = Shader::create_shader(&mut gl, ShaderType::Vertex, VERTEX_SRC).unwrap();
    let fs = Shader::create_shader(&mut gl, ShaderType::Fragment, FRAGMENT_SRC).unwrap();
    let program = ShaderProgram::from_shaders(&mut gl, Some(vs), None, Some(fs)).unwrap();
    assert!(program.validate(&mut gl).is_ok());
    gl.script_info_log(Some("state not valid\n".to_string()));
    match program.validate(&mut gl) {
        Err(ShaderError::ValidateError(msg)) => assert_eq!(msg, "state not valid"),
        other => panic!("expected a validate error, got {:?}", other),
    }
    // The program is kept: validation never releases it.
    assert!(!gl
        .recorded()
        .iter()
        .any(|c| matches!(c, GlCall::DeleteProgram { .. })));
    program.bind(&mut gl);
    assert_eq!(
        gl.recorded().last(),
        Some(&GlCall::UseProgram { handle: 3 })
    );
}

#[test]
fn program_delete_releases_the_handle() {
    let mut gl = TraceGl::new();
    let vs = Shader::create_shader(&mut gl, ShaderType::Vertex, VERTEX_SRC).unwrap();
    let program = ShaderProgram::from_shaders(&mut gl, Some(vs), None, None).unwrap();
    program.delete(&mut gl);
    assert_eq!(
        gl.recorded().last(),
        Some(&GlCall::DeleteProgram { handle: 2 })
    );
}
