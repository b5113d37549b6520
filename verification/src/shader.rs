//! Shader stages and linked shader programs, with the two-step info-log
//! protocol for surfacing compile, link and validation diagnostics.
//!
//! The backend does not distinguish "no log" from "empty log", so success
//! of a compile, link or validation step is inferred solely from the
//! reported log length being zero; a positive length is always surfaced as
//! the corresponding error carrying the trimmed log text.

use crate::render::{FRAGMENT_SHADER, GEOMETRY_SHADER, VERTEX_SHADER};
use crate::render::{GlCall, GlCalls};
use crate::text::{spec_trim, trim_log};
use vstd::prelude::*;

verus! {

/// The kind of a shader stage.
#[derive(Debug, Copy, Clone, PartialEq, Eq)]
pub enum ShaderType {
    Vertex,
    Geometry,
    Fragment,
}

impl ShaderType {
    /// The backend's numeric tag for this stage kind.
    pub open spec fn spec_gl_enum(self) -> u32 {
        match self {
            ShaderType::Vertex => VERTEX_SHADER,
            ShaderType::Geometry => GEOMETRY_SHADER,
            ShaderType::Fragment => FRAGMENT_SHADER,
        }
    }

    /// The backend's numeric tag for this stage kind.
    pub fn gl_enum(self) -> (t: u32)
        ensures
            t == self.spec_gl_enum(),
    {
        match self {
            ShaderType::Vertex => VERTEX_SHADER,
            ShaderType::Geometry => GEOMETRY_SHADER,
            ShaderType::Fragment => FRAGMENT_SHADER,
        }
    }
}

/// Which kind of backend object an info-log query addresses.
#[derive(Debug, Copy, Clone, PartialEq, Eq)]
pub enum LogObject {
    ShaderStage,
    Program,
}

/// Failure of a shader operation.
#[derive(Debug, Clone, PartialEq, Eq)]
pub enum ShaderError {
    /// The backend refused to allocate a stage handle.
    CreateShaderFailed,
    /// The source text cannot be represented in the backend's required
    /// form (it contains an interior NUL character).
    InvalidSourceString,
    /// A failure the backend reported in no classifiable way; no path of
    /// this layer produces it, hosts may.
    Unknown,
    /// Compilation produced a non-empty info log; the payload is the log
    /// text with surrounding whitespace stripped.
    CompileError(String),
    /// The backend refused to allocate a program handle.
    CreateShaderProgramFailed,
    /// Linking produced a non-empty info log; the payload is the trimmed
    /// log text.
    LinkError(String),
    /// Validation produced a non-empty info log; the payload is the
    /// trimmed log text.
    ValidateError(String),
}

/// Capability contract for shader-stage and program management. An
/// implementation performs the named backend call and records it in its
/// trace; nothing else.
pub trait ShaderHandler: GlCalls {
    /// Allocates one stage handle of the given kind; 0 signals failure.
    fn create_shader(&mut self, shader_type: ShaderType) -> (h: u32)
        ensures
            final(self).trace() == old(self).trace().push(
                GlCall::CreateShader { shader_type, handle: h },
            ),
    ;

    /// Submits source text for the stage. The text must be representable
    /// in the backend's required form: no interior NUL character.
    fn shader_source(&mut self, handle: u32, source: &str)
        requires
            source_ok(source@),
        ensures
            final(self).trace() == old(self).trace().push(GlCall::ShaderSource { handle }),
    ;

    /// Compiles the stage from its submitted source.
    fn compile_shader(&mut self, handle: u32)
        ensures
            final(self).trace() == old(self).trace().push(GlCall::CompileShader { handle }),
    ;

    /// Releases one stage handle.
    fn delete_shader(&mut self, handle: u32)
        ensures
            final(self).trace() == old(self).trace().push(GlCall::DeleteShader { handle }),
    ;

    /// Allocates one program handle; 0 signals failure.
    fn create_program(&mut self) -> (h: u32)
        ensures
            final(self).trace() == old(self).trace().push(GlCall::CreateProgram { handle: h }),
    ;

    /// Attaches a stage to a program.
    fn attach_shader(&mut self, program: u32, shader: u32)
        ensures
            final(self).trace() == old(self).trace().push(GlCall::AttachShader { program, shader }),
    ;

    /// Detaches a previously attached stage from a program.
    fn detach_shader(&mut self, program: u32, shader: u32)
        ensures
            final(self).trace() == old(self).trace().push(GlCall::DetachShader { program, shader }),
    ;

    /// Links the program from its attached stages.
    fn link_program(&mut self, handle: u32)
        ensures
            final(self).trace() == old(self).trace().push(GlCall::LinkProgram { handle }),
    ;

    /// Asks the backend to validate the program against current state.
    fn validate_program(&mut self, handle: u32)
        ensures
            final(self).trace() == old(self).trace().push(GlCall::ValidateProgram { handle }),
    ;

    /// Makes the program current.
    fn use_program(&mut self, handle: u32)
        ensures
            final(self).trace() == old(self).trace().push(GlCall::UseProgram { handle }),
    ;

    /// Releases one program handle.
    fn delete_program(&mut self, handle: u32)
        ensures
            final(self).trace() == old(self).trace().push(GlCall::DeleteProgram { handle }),
    ;

    /// Queries the length of the object's info log. The backend chooses
    /// the value; 0 (or less) means no log.
    fn info_log_length(&mut self, object: LogObject, handle: u32) -> (len: i32)
        ensures
            final(self).trace() == old(self).trace().push(
                GlCall::GetLogLength { object, handle, len },
            ),
    ;

    /// Fetches the object's info log text. The backend chooses the text;
    /// the trace records exactly the text handed back.
    fn info_log(&mut self, object: LogObject, handle: u32, len: i32) -> (log: String)
        requires
            len > 0,
        ensures
            final(self).trace() == old(self).trace().push(
                GlCall::GetInfoLog { object, handle, log },
            ),
    ;
}

/// Source text is representable for the backend when it contains no
/// interior NUL character.
pub open spec fn source_ok(s: Seq<char>) -> bool {
    forall|i: int| 0 <= i < s.len() ==> s[i] != '\0'
}

/// Checks [`source_ok`] for a source string.
pub fn check_source(source: &str) -> (ok: bool)
    ensures
        ok == source_ok(source@),
{
    let n = source.unicode_len();
    let mut i: usize = 0;
    while i < n
        invariant
            n == source@.len(),
            0 <= i <= n,
            forall|k: int| 0 <= k < i ==> source@[k] != '\0',
        decreases n - i,
    {
        if source.get_char(i) == '\0' {
            return false;
        }
        i = i + 1;
    }
    true
}

/// An info-log check that found no log: the backend reported a
/// non-positive length, which is the only evidence of success the
/// protocol has.
pub open spec fn log_success(
    t0: Seq<GlCall>,
    t1: Seq<GlCall>,
    object: LogObject,
    handle: u32,
    len: i32,
) -> bool {
    len <= 0 && t1 == t0.push(GlCall::GetLogLength { object, handle, len })
}

/// An info-log check that found a log: the backend reported a positive
/// length and the log text was fetched.
pub open spec fn log_failure(
    t0: Seq<GlCall>,
    t1: Seq<GlCall>,
    object: LogObject,
    handle: u32,
    len: i32,
    log: String,
) -> bool {
    len > 0 && t1 == t0 + seq![
        GlCall::GetLogLength { object, handle, len },
        GlCall::GetInfoLog { object, handle, log },
    ]
}

/// Runs the two-step info-log protocol against `handle`: query the log
/// length; report success exactly when it is 0 (or negative), and
/// otherwise fetch the log of that length and report its text with
/// surrounding whitespace stripped and the interior untouched.
pub fn check_info_log<H: ShaderHandler>(gl: &mut H, object: LogObject, handle: u32) -> (r: Result<
    (),
    String,
>)
    ensures
        (match r {
            Ok(()) => exists|len: i32|
                #[trigger] log_success(old(gl).trace(), final(gl).trace(), object, handle, len),
            Err(msg) => exists|len: i32, log: String|
                #[trigger] log_failure(old(gl).trace(), final(gl).trace(), object, handle, len, log)
                    && msg@ == spec_trim(log@),
        }),
{
    let len = gl.info_log_length(object, handle);
    if len > 0 {
        let log = gl.info_log(object, handle, len);
        let trimmed = trim_log(log.as_str());
        let msg = String::from_str(trimmed);
        proof {
            assert(gl.trace() =~= old(gl).trace() + seq![
                GlCall::GetLogLength { object, handle, len },
                GlCall::GetInfoLog { object, handle, log },
            ]);
            assert(log_failure(old(gl).trace(), gl.trace(), object, handle, len, log));
        }
        Err(msg)
    } else {
        proof {
            assert(log_success(old(gl).trace(), gl.trace(), object, handle, len));
        }
        Ok(())
    }
}

/// Owns one compiled shader-stage handle. Immutable after construction;
/// compilation is one-shot and only a successfully compiled stage exists.
#[derive(Debug)]
pub struct Shader {
    shader_type: ShaderType,
    handle: u32,
}

/// The trace of a successful stage creation: allocate, submit source,
/// compile, and find an empty info log.
pub open spec fn compile_success(
    t0: Seq<GlCall>,
    t1: Seq<GlCall>,
    shader_type: ShaderType,
    h: u32,
    len: i32,
) -> bool {
    h != 0 && len <= 0 && t1 == t0 + seq![
        GlCall::CreateShader { shader_type, handle: h },
        GlCall::ShaderSource { handle: h },
        GlCall::CompileShader { handle: h },
        GlCall::GetLogLength { object: LogObject::ShaderStage, handle: h, len },
    ]
}

/// The trace of a failed compilation: the info log was non-empty, its text
/// was fetched, and the freshly created stage handle was released again.
pub open spec fn compile_failure(
    t0: Seq<GlCall>,
    t1: Seq<GlCall>,
    shader_type: ShaderType,
    h: u32,
    len: i32,
    log: String,
) -> bool {
    h != 0 && len > 0 && t1 == t0 + seq![
        GlCall::CreateShader { shader_type, handle: h },
        GlCall::ShaderSource { handle: h },
        GlCall::CompileShader { handle: h },
        GlCall::GetLogLength { object: LogObject::ShaderStage, handle: h, len },
        GlCall::GetInfoLog { object: LogObject::ShaderStage, handle: h, log },
        GlCall::DeleteShader { handle: h },
    ]
}

/// The trace of a creation whose source text was unrepresentable: the
/// freshly created stage handle is released again before anything is
/// submitted.
pub open spec fn unrepresentable_source(
    t0: Seq<GlCall>,
    t1: Seq<GlCall>,
    shader_type: ShaderType,
    h: u32,
) -> bool {
    h != 0 && t1 == t0 + seq![
        GlCall::CreateShader { shader_type, handle: h },
        GlCall::DeleteShader { handle: h },
    ]
}

impl Shader {
    /// The backend handle this stage owns.
    pub closed spec fn spec_handle(&self) -> u32 {
        self.handle
    }

    /// The stage kind.
    pub closed spec fn spec_shader_type(&self) -> ShaderType {
        self.shader_type
    }

    /// A stage is well-formed when it owns a valid handle; construction
    /// only succeeds with one.
    pub open spec fn wf(&self) -> bool {
        self.spec_handle() != 0
    }

    /// Allocates a stage handle, submits the source text, compiles, and
    /// runs the info-log protocol. A log length of 0 is reported as
    /// success; a positive length is always reported as
    /// [`ShaderError::CompileError`] carrying the trimmed log text. A
    /// refused allocation and an unrepresentable source text are reported
    /// as their own errors; on every failure the stage handle, if one was
    /// created, is released again.
    pub fn create_shader<H: ShaderHandler>(
        gl: &mut H,
        shader_type: ShaderType,
        source: &str,
    ) -> (r: Result<Shader, ShaderError>)
        ensures
            (match r {
                Ok(sh) => sh.wf() && sh.spec_shader_type() == shader_type && source_ok(source@)
                    && (exists|len: i32|
                    #[trigger] compile_success(
                        old(gl).trace(),
                        final(gl).trace(),
                        shader_type,
                        sh.spec_handle(),
                        len,
                    )),
                Err(ShaderError::CreateShaderFailed) => final(gl).trace() == old(gl).trace().push(
                    GlCall::CreateShader { shader_type, handle: 0u32 },
                ),
                Err(ShaderError::InvalidSourceString) => !source_ok(source@) && (exists|h: u32|
                    #[trigger] unrepresentable_source(
                        old(gl).trace(),
                        final(gl).trace(),
                        shader_type,
                        h,
                    )),
                Err(ShaderError::CompileError(msg)) => source_ok(source@) && (exists|
                    h: u32,
                    len: i32,
                    log: String,
                |
                    #[trigger] compile_failure(
                        old(gl).trace(),
                        final(gl).trace(),
                        shader_type,
                        h,
                        len,
                        log,
                    ) && msg@ == spec_trim(log@)),
                Err(_) => false,
            }),
    {
        let handle = gl.create_shader(shader_type);
        if handle == 0 {
            return Err(ShaderError::CreateShaderFailed);
        }
        if !check_source(source) {
            gl.delete_shader(handle);
            proof {
                assert(gl.trace() =~= old(gl).trace() + seq![
                    GlCall::CreateShader { shader_type, handle },
                    GlCall::DeleteShader { handle },
                ]);
                assert(unrepresentable_source(old(gl).trace(), gl.trace(), shader_type, handle));
            }
            return Err(ShaderError::InvalidSourceString);
        }
        gl.shader_source(handle, source);
        gl.compile_shader(handle);
        let ghost t_mid = gl.trace();
        let checked = check_info_log(gl, LogObject::ShaderStage, handle);
        match checked {
            Ok(()) => {
                proof {
                    let len = choose|len: i32|
                        log_success(t_mid, gl.trace(), LogObject::ShaderStage, handle, len);
                    assert(gl.trace() =~= old(gl).trace() + seq![
                        GlCall::CreateShader { shader_type, handle },
                        GlCall::ShaderSource { handle },
                        GlCall::CompileShader { handle },
                        GlCall::GetLogLength { object: LogObject::ShaderStage, handle, len },
                    ]);
                    assert(compile_success(old(gl).trace(), gl.trace(), shader_type, handle, len));
                }
                Ok(Shader { shader_type, handle })
            },
            Err(msg) => {
                let ghost t_log = gl.trace();
                gl.delete_shader(handle);
                proof {
                    let (len, log) = choose|len: i32, log: String|
                        log_failure(t_mid, t_log, LogObject::ShaderStage, handle, len, log)
                            && msg@ == spec_trim(log@);
                    assert(gl.trace() =~= old(gl).trace() + seq![
                        GlCall::CreateShader { shader_type, handle },
                        GlCall::ShaderSource { handle },
                        GlCall::CompileShader { handle },
                        GlCall::GetLogLength { object: LogObject::ShaderStage, handle, len },
                        GlCall::GetInfoLog { object: LogObject::ShaderStage, handle, log },
                        GlCall::DeleteShader { handle },
                    ]);
                    assert(compile_failure(
                        old(gl).trace(),
                        gl.trace(),
                        shader_type,
                        handle,
                        len,
                        log,
                    ) && msg@ == spec_trim(log@));
                }
                Err(ShaderError::CompileError(msg))
            },
        }
    }

    /// Releases the owned stage handle. Consuming the stage makes this the
    /// one and only release.
    pub fn delete<H: ShaderHandler>(self, gl: &mut H)
        ensures
            final(gl).trace() == old(gl).trace().push(
                GlCall::DeleteShader { handle: self.spec_handle() },
            ),
    {
        gl.delete_shader(self.handle);
    }
}

/// The handle of an optional stage, as a sequence of length 0 or 1.
pub open spec fn opt_stage_handle(s: Option<Shader>) -> Seq<u32> {
    match s {
        Some(sh) => seq![sh.spec_handle()],
        None => seq![],
    }
}

/// The handles of the provided stages, in attach order: vertex, geometry,
/// fragment; an absent stage contributes nothing.
pub open spec fn stage_handles(
    v: Option<Shader>,
    g: Option<Shader>,
    f: Option<Shader>,
) -> Seq<u32> {
    opt_stage_handle(v) + opt_stage_handle(g) + opt_stage_handle(f)
}

/// The attach call for an optional stage: one call when it is provided,
/// none when it is absent.
pub open spec fn opt_attach(program: u32, s: Option<Shader>) -> Seq<GlCall> {
    match s {
        Some(sh) => seq![GlCall::AttachShader { program, shader: sh.spec_handle() }],
        None => seq![],
    }
}

/// The detach call for an optional stage.
pub open spec fn opt_detach(program: u32, s: Option<Shader>) -> Seq<GlCall> {
    match s {
        Some(sh) => seq![GlCall::DetachShader { program, shader: sh.spec_handle() }],
        None => seq![],
    }
}

/// The delete call for an optional stage.
pub open spec fn opt_delete(s: Option<Shader>) -> Seq<GlCall> {
    match s {
        Some(sh) => seq![GlCall::DeleteShader { handle: sh.spec_handle() }],
        None => seq![],
    }
}

/// The calls that attach every provided stage, in order.
pub open spec fn attach_calls(
    program: u32,
    v: Option<Shader>,
    g: Option<Shader>,
    f: Option<Shader>,
) -> Seq<GlCall> {
    opt_attach(program, v) + opt_attach(program, g) + opt_attach(program, f)
}

/// The calls that detach every provided stage, in the same order they were
/// attached.
pub open spec fn detach_calls(
    program: u32,
    v: Option<Shader>,
    g: Option<Shader>,
    f: Option<Shader>,
) -> Seq<GlCall> {
    opt_detach(program, v) + opt_detach(program, g) + opt_detach(program, f)
}

/// The calls that release every provided stage handle, in the same order.
pub open spec fn delete_stage_calls(
    v: Option<Shader>,
    g: Option<Shader>,
    f: Option<Shader>,
) -> Seq<GlCall> {
    opt_delete(v) + opt_delete(g) + opt_delete(f)
}

/// Validity of an optional stage.
pub open spec fn opt_wf(s: Option<Shader>) -> bool {
    match s {
        Some(sh) => sh.wf(),
        None => true,
    }
}

/// After a successful link, stages are detached exactly as they were
/// attached: there is one detach call for every attach call, the i-th
/// detach names the same stage handle as the i-th attach, and a stage
/// that was never provided is neither attached nor detached (with no
/// geometry stage, the call lists cover the vertex and fragment stages
/// alone).
pub proof fn lemma_detach_matches_attach(
    program: u32,
    v: Option<Shader>,
    g: Option<Shader>,
    f: Option<Shader>,
)
    ensures
        attach_calls(program, v, g, f).len() == stage_handles(v, g, f).len(),
        detach_calls(program, v, g, f).len() == stage_handles(v, g, f).len(),
        forall|i: int|
            0 <= i < stage_handles(v, g, f).len() ==> attach_calls(program, v, g, f)[i]
                == (GlCall::AttachShader { program, shader: stage_handles(v, g, f)[i] })
                && detach_calls(program, v, g, f)[i] == (GlCall::DetachShader {
                program,
                shader: stage_handles(v, g, f)[i],
            }),
        g is None ==> stage_handles(v, g, f) == opt_stage_handle(v) + opt_stage_handle(f),
{
    if g is None {
        assert(stage_handles(v, g, f) =~= opt_stage_handle(v) + opt_stage_handle(f));
    }
}

/// The trace of a successful program link: allocate the program, attach
/// every provided stage, link, find an empty info log, then detach every
/// previously attached stage and release every stage handle.
pub open spec fn link_success(
    t0: Seq<GlCall>,
    t1: Seq<GlCall>,
    v: Option<Shader>,
    g: Option<Shader>,
    f: Option<Shader>,
    p: u32,
    len: i32,
) -> bool {
    p != 0 && len <= 0 && t1 == t0 + seq![GlCall::CreateProgram { handle: p }] + attach_calls(
        p,
        v,
        g,
        f,
    ) + seq![
        GlCall::LinkProgram { handle: p },
        GlCall::GetLogLength { object: LogObject::Program, handle: p, len },
    ] + detach_calls(p, v, g, f) + delete_stage_calls(v, g, f)
}

/// The trace of a failed link: the info log was non-empty, its text was
/// fetched, and the fresh program handle and every stage handle are
/// released again.
pub open spec fn link_failure(
    t0: Seq<GlCall>,
    t1: Seq<GlCall>,
    v: Option<Shader>,
    g: Option<Shader>,
    f: Option<Shader>,
    p: u32,
    len: i32,
    log: String,
) -> bool {
    p != 0 && len > 0 && t1 == t0 + seq![GlCall::CreateProgram { handle: p }] + attach_calls(
        p,
        v,
        g,
        f,
    ) + seq![
        GlCall::LinkProgram { handle: p },
        GlCall::GetLogLength { object: LogObject::Program, handle: p, len },
        GlCall::GetInfoLog { object: LogObject::Program, handle: p, log },
        GlCall::DeleteProgram { handle: p },
    ] + delete_stage_calls(v, g, f)
}

/// The trace of a successful program validation.
pub open spec fn validate_success(t0: Seq<GlCall>, t1: Seq<GlCall>, p: u32, len: i32) -> bool {
    len <= 0 && t1 == t0 + seq![
        GlCall::ValidateProgram { handle: p },
        GlCall::GetLogLength { object: LogObject::Program, handle: p, len },
    ]
}

/// The trace of a failed program validation; the program is kept.
pub open spec fn validate_failure(
    t0: Seq<GlCall>,
    t1: Seq<GlCall>,
    p: u32,
    len: i32,
    log: String,
) -> bool {
    len > 0 && t1 == t0 + seq![
        GlCall::ValidateProgram { handle: p },
        GlCall::GetLogLength { object: LogObject::Program, handle: p, len },
        GlCall::GetInfoLog { object: LogObject::Program, handle: p, log },
    ]
}

/// Releases every provided stage handle, in attach order.
fn delete_stages<H: ShaderHandler>(
    gl: &mut H,
    vertex_shader: Option<Shader>,
    geometry_shader: Option<Shader>,
    fragment_shader: Option<Shader>,
)
    ensures
        final(gl).trace() == old(gl).trace() + delete_stage_calls(
            vertex_shader,
            geometry_shader,
            fragment_shader,
        ),
{
    let ghost t0 = gl.trace();
    if let Some(s) = vertex_shader {
        s.delete(gl);
    }
    proof {
        assert(gl.trace() =~= t0 + opt_delete(vertex_shader));
    }
    let ghost t1 = gl.trace();
    if let Some(s) = geometry_shader {
        s.delete(gl);
    }
    proof {
        assert(gl.trace() =~= t1 + opt_delete(geometry_shader));
    }
    let ghost t2 = gl.trace();
    if let Some(s) = fragment_shader {
        s.delete(gl);
    }
    proof {
        assert(gl.trace() =~= t2 + opt_delete(fragment_shader));
        assert(gl.trace() =~= t0 + delete_stage_calls(
            vertex_shader,
            geometry_shader,
            fragment_shader,
        ));
    }
}

/// Attaches every provided stage to `program`, in order.
fn attach_stages<H: ShaderHandler>(
    gl: &mut H,
    program: u32,
    vertex_shader: &Option<Shader>,
    geometry_shader: &Option<Shader>,
    fragment_shader: &Option<Shader>,
)
    ensures
        final(gl).trace() == old(gl).trace() + attach_calls(
            program,
            *vertex_shader,
            *geometry_shader,
            *fragment_shader,
        ),
{
    let ghost t0 = gl.trace();
    if let Some(s) = vertex_shader {
        gl.attach_shader(program, s.handle);
    }
    proof {
        assert(gl.trace() =~= t0 + opt_attach(program, *vertex_shader));
    }
    let ghost t1 = gl.trace();
    if let Some(s) = geometry_shader {
        gl.attach_shader(program, s.handle);
    }
    proof {
        assert(gl.trace() =~= t1 + opt_attach(program, *geometry_shader));
    }
    let ghost t2 = gl.trace();
    if let Some(s) = fragment_shader {
        gl.attach_shader(program, s.handle);
    }
    proof {
        assert(gl.trace() =~= t2 + opt_attach(program, *fragment_shader));
        assert(gl.trace() =~= t0 + attach_calls(
            program,
            *vertex_shader,
            *geometry_shader,
            *fragment_shader,
        ));
    }
}

/// Detaches every provided stage from `program`, in the order it was
/// attached.
fn detach_stages<H: ShaderHandler>(
    gl: &mut H,
    program: u32,
    vertex_shader: &Option<Shader>,
    geometry_shader: &Option<Shader>,
    fragment_shader: &Option<Shader>,
)
    ensures
        final(gl).trace() == old(gl).trace() + detach_calls(
            program,
            *vertex_shader,
            *geometry_shader,
            *fragment_shader,
        ),
{
    let ghost t0 = gl.trace();
    if let Some(s) = vertex_shader {
        gl.detach_shader(program, s.handle);
    }
    proof {
        assert(gl.trace() =~= t0 + opt_detach(program, *vertex_shader));
    }
    let ghost t1 = gl.trace();
    if let Some(s) = geometry_shader {
        gl.detach_shader(program, s.handle);
    }
    proof {
        assert(gl.trace() =~= t1 + opt_detach(program, *geometry_shader));
    }
    let ghost t2 = gl.trace();
    if let Some(s) = fragment_shader {
        gl.detach_shader(program, s.handle);
    }
    proof {
        assert(gl.trace() =~= t2 + opt_detach(program, *fragment_shader));
        assert(gl.trace() =~= t0 + detach_calls(
            program,
            *vertex_shader,
            *geometry_shader,
            *fragment_shader,
        ));
    }
}

/// Owns one linked shader-program handle. The stages it was linked from
/// are only needed during the link step and are released as part of it.
#[derive(Debug)]
pub struct ShaderProgram {
    handle: u32,
}

impl ShaderProgram {
    /// The backend handle this program owns.
    pub closed spec fn spec_handle(&self) -> u32 {
        self.handle
    }

    /// A program is well-formed when it owns a valid handle.
    pub open spec fn wf(&self) -> bool {
        self.spec_handle() != 0
    }

    /// Allocates a program handle, attaches every provided stage (an
    /// absent stage is simply skipped), links, and runs the info-log
    /// protocol: an empty log is success, a non-empty log is
    /// [`ShaderError::LinkError`] carrying the trimmed text. After the
    /// check, every previously attached stage is detached — and only
    /// those — and every provided stage handle is released, so stage and
    /// program lifetimes are independent from here on. On failure the
    /// program handle, if one was created, is released too.
    #[verifier::rlimit(100)]
    pub fn from_shaders<H: ShaderHandler>(
        gl: &mut H,
        vertex_shader: Option<Shader>,
        geometry_shader: Option<Shader>,
        fragment_shader: Option<Shader>,
    ) -> (r: Result<ShaderProgram, ShaderError>)
        requires
            opt_wf(vertex_shader),
            opt_wf(geometry_shader),
            opt_wf(fragment_shader),
        ensures
            (match r {
                Ok(prog) => prog.wf() && (exists|len: i32|
                    #[trigger] link_success(
                        old(gl).trace(),
                        final(gl).trace(),
                        vertex_shader,
                        geometry_shader,
                        fragment_shader,
                        prog.spec_handle(),
                        len,
                    )),
                Err(ShaderError::CreateShaderProgramFailed) => final(gl).trace() == old(
                    gl,
                ).trace().push(GlCall::CreateProgram { handle: 0u32 }) + delete_stage_calls(
                    vertex_shader,
                    geometry_shader,
                    fragment_shader,
                ),
                Err(ShaderError::LinkError(msg)) => exists|p: u32, len: i32, log: String|
                    #[trigger] link_failure(
                        old(gl).trace(),
                        final(gl).trace(),
                        vertex_shader,
                        geometry_shader,
                        fragment_shader,
                        p,
                        len,
                        log,
                    ) && msg@ == spec_trim(log@),
                Err(_) => false,
            }),
    {
        let program = gl.create_program();
        if program == 0 {
            delete_stages(gl, vertex_shader, geometry_shader, fragment_shader);
            return Err(ShaderError::CreateShaderProgramFailed);
        }
        attach_stages(gl, program, &vertex_shader, &geometry_shader, &fragment_shader);
        gl.link_program(program);
        let ghost t_linked = gl.trace();
        let checked = check_info_log(gl, LogObject::Program, program);
        match checked {
            Ok(()) => {
                let ghost t_checked = gl.trace();
                detach_stages(gl, program, &vertex_shader, &geometry_shader, &fragment_shader);
                delete_stages(gl, vertex_shader, geometry_shader, fragment_shader);
                let result = ShaderProgram { handle: program };
                proof {
                    let len = choose|len: i32|
                        log_success(t_linked, t_checked, LogObject::Program, program, len);
                    assert(t_checked =~= old(gl).trace() + seq![
                        GlCall::CreateProgram { handle: program },
                    ] + attach_calls(program, vertex_shader, geometry_shader, fragment_shader)
                        + seq![
                        GlCall::LinkProgram { handle: program },
                        GlCall::GetLogLength { object: LogObject::Program, handle: program, len },
                    ]);
                    assert(link_success(
                        old(gl).trace(),
                        gl.trace(),
                        vertex_shader,
                        geometry_shader,
                        fragment_shader,
                        result.spec_handle(),
                        len,
                    ));
                }
                Ok(result)
            },
            Err(msg) => {
                let ghost t_checked = gl.trace();
                gl.delete_program(program);
                delete_stages(gl, vertex_shader, geometry_shader, fragment_shader);
                proof {
                    let (len, log) = choose|len: i32, log: String|
                        log_failure(t_linked, t_checked, LogObject::Program, program, len, log)
                            && msg@ == spec_trim(log@);
                    assert(t_checked.push(GlCall::DeleteProgram { handle: program }) =~= old(
                        gl,
                    ).trace() + seq![GlCall::CreateProgram { handle: program }] + attach_calls(
                        program,
                        vertex_shader,
                        geometry_shader,
                        fragment_shader,
                    ) + seq![
                        GlCall::LinkProgram { handle: program },
                        GlCall::GetLogLength { object: LogObject::Program, handle: program, len },
                        GlCall::GetInfoLog { object: LogObject::Program, handle: program, log },
                        GlCall::DeleteProgram { handle: program },
                    ]);
                    assert(link_failure(
                        old(gl).trace(),
                        gl.trace(),
                        vertex_shader,
                        geometry_shader,
                        fragment_shader,
                        program,
                        len,
                        log,
                    ) && msg@ == spec_trim(log@));
                }
                Err(ShaderError::LinkError(msg))
            },
        }
    }

    /// Asks the backend to validate the program against current bound
    /// state and runs the info-log protocol: an empty log is success, a
    /// non-empty log is [`ShaderError::ValidateError`] carrying the
    /// trimmed text. A diagnostic aid; the program is kept either way.
    pub fn validate<H: ShaderHandler>(&self, gl: &mut H) -> (r: Result<(), ShaderError>)
        ensures
            (match r {
                Ok(()) => exists|len: i32|
                    #[trigger] validate_success(
                        old(gl).trace(),
                        final(gl).trace(),
                        self.spec_handle(),
                        len,
                    ),
                Err(ShaderError::ValidateError(msg)) => exists|len: i32, log: String|
                    #[trigger] validate_failure(
                        old(gl).trace(),
                        final(gl).trace(),
                        self.spec_handle(),
                        len,
                        log,
                    ) && msg@ == spec_trim(log@),
                Err(_) => false,
            }),
    {
        gl.validate_program(self.handle);
        let ghost t_mid = gl.trace();
        let checked = check_info_log(gl, LogObject::Program, self.handle);
        match checked {
            Ok(()) => {
                proof {
                    let len = choose|len: i32|
                        log_success(t_mid, gl.trace(), LogObject::Program, self.spec_handle(), len);
                    assert(gl.trace() =~= old(gl).trace() + seq![
                        GlCall::ValidateProgram { handle: self.spec_handle() },
                        GlCall::GetLogLength {
                            object: LogObject::Program,
                            handle: self.spec_handle(),
                            len,
                        },
                    ]);
                    assert(validate_success(old(gl).trace(), gl.trace(), self.spec_handle(), len));
                }
                Ok(())
            },
            Err(msg) => {
                proof {
                    let (len, log) = choose|len: i32, log: String|
                        log_failure(
                            t_mid,
                            gl.trace(),
                            LogObject::Program,
                            self.spec_handle(),
                            len,
                            log,
                        ) && msg@ == spec_trim(log@);
                    assert(gl.trace() =~= old(gl).trace() + seq![
                        GlCall::ValidateProgram { handle: self.spec_handle() },
                        GlCall::GetLogLength {
                            object: LogObject::Program,
                            handle: self.spec_handle(),
                            len,
                        },
                        GlCall::GetInfoLog {
                            object: LogObject::Program,
                            handle: self.spec_handle(),
                            log,
                        },
                    ]);
                    assert(validate_failure(
                        old(gl).trace(),
                        gl.trace(),
                        self.spec_handle(),
                        len,
                        log,
                    ) && msg@ == spec_trim(log@));
                }
                Err(ShaderError::ValidateError(msg))
            },
        }
    }

    /// The backend handle this program owns, for host-side operations the
    /// capability contract does not cover (uniform binding by location).
    pub fn handle(&self) -> (h: u32)
        ensures
            h == self.spec_handle(),
    {
        self.handle
    }

    /// Makes this program current.
    pub fn bind<H: ShaderHandler>(&self, gl: &mut H)
        ensures
            final(gl).trace() == old(gl).trace().push(
                GlCall::UseProgram { handle: self.spec_handle() },
            ),
    {
        gl.use_program(self.handle);
    }

    /// Releases the owned program handle. Consuming the program makes this
    /// the one and only release.
    pub fn delete<H: ShaderHandler>(self, gl: &mut H)
        ensures
            final(gl).trace() == old(gl).trace().push(
                GlCall::DeleteProgram { handle: self.spec_handle() },
            ),
    {
        gl.delete_program(self.handle);
    }
}

} // verus!
