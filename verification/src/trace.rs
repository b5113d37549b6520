//! Recording implementations of the capability contracts: a backend and a
//! window that perform no native work but log every call, exactly as the
//! contracts describe. They make the resource objects runnable — and their
//! contracts checkable — without a native backend, and let a test script
//! allocation failures, diagnostic logs and event queues.

use crate::buffer::{upload_calls, BufferHandler, BufferType, BufferUsage};
use crate::mesh::{attrib_call, MeshHandler, MeshMode};
use crate::render::{clear_mask, spec_clear_mask, GlCall, GlCalls, GlDataType, RenderHandler};
use crate::shader::{LogObject, ShaderHandler, ShaderType};
use crate::vertex::{Vertex, VertexAttribPointer};
use crate::window::{AWindow, WindowCall, WindowEvent};
use vstd::layout::size_of;
use vstd::prelude::*;

verus! {

/// A graphics backend that records every capability call instead of
/// performing it. Handles are handed out in ascending order starting at 1;
/// an allocation failure or a diagnostic log can be scripted.
pub struct TraceGl {
    calls: Vec<GlCall>,
    next_handle: u32,
    allocs_until_failure: Option<u32>,
    log_text: Option<String>,
}

impl TraceGl {
    /// A fresh backend with an empty trace, no scripted allocation failure
    /// and no scripted log.
    pub fn new() -> (gl: TraceGl)
        ensures
            gl.trace() == Seq::<GlCall>::empty(),
    {
        TraceGl { calls: Vec::new(), next_handle: 1, allocs_until_failure: None, log_text: None }
    }

    /// The calls recorded so far, oldest first.
    pub fn recorded(&self) -> (calls: &Vec<GlCall>)
        ensures
            calls@ == self.trace(),
    {
        &self.calls
    }

    /// Scripts the info log that subsequent log queries report: `None`
    /// means an empty log (success), `Some` text means a diagnostic of
    /// that text.
    pub fn script_info_log(&mut self, log: Option<String>)
        ensures
            final(self).trace() == old(self).trace(),
    {
        self.log_text = log;
    }

    /// Scripts one allocation failure: the next `after` allocations
    /// succeed, the one following them returns the invalid handle 0, and
    /// later ones succeed again.
    pub fn script_alloc_failure(&mut self, after: u32)
        ensures
            final(self).trace() == old(self).trace(),
    {
        self.allocs_until_failure = Some(after);
    }

    /// Hands out the next handle, honouring a scripted failure.
    fn next_alloc(&mut self) -> (h: u32)
        ensures
            final(self).trace() == old(self).trace(),
    {
        let fail_now = match self.allocs_until_failure {
            Some(0) => true,
            Some(n) => {
                self.allocs_until_failure = Some(n - 1);
                false
            },
            None => false,
        };
        if fail_now {
            self.allocs_until_failure = None;
            return 0;
        }
        let h = self.next_handle;
        if self.next_handle < u32::MAX {
            self.next_handle = self.next_handle + 1;
        }
        h
    }

    /// Records a clear of the selected buffers; with neither buffer
    /// selected the call is a guaranteed no-op and nothing is recorded.
    pub fn clear(&mut self, color: bool, depth: bool)
        ensures
            (if !color && !depth {
                final(self).trace() == old(self).trace()
            } else {
                final(self).trace() == old(self).trace().push(
                    GlCall::Clear { mask: spec_clear_mask(color, depth) },
                )
            }),
    {
        let mask = clear_mask(color, depth);
        if mask == 0 {
            return ;
        }
        self.calls.push(GlCall::Clear { mask });
    }
}

impl GlCalls for TraceGl {
    closed spec fn trace(&self) -> Seq<GlCall> {
        self.calls@
    }
}

impl BufferHandler for TraceGl {
    fn gen_buffer(&mut self) -> (h: u32) {
        let h = self.next_alloc();
        self.calls.push(GlCall::GenBuffer { handle: h });
        h
    }

    fn bind_buffer(&mut self, buffer_type: BufferType, handle: u32) {
        self.calls.push(GlCall::BindBuffer { target: buffer_type, handle });
    }

    fn buffer_data<DataType: Sized>(
        &mut self,
        buffer_type: BufferType,
        usage: BufferUsage,
        data: &[DataType],
    ) {
        let size_bytes = data.len() * core::mem::size_of::<DataType>();
        self.calls.push(GlCall::BufferData { target: buffer_type, usage, size_bytes, filled: false });
        self.calls.push(GlCall::BufferData { target: buffer_type, usage, size_bytes, filled: true });
        proof {
            assert(self.calls@ =~= old(self).calls@ + upload_calls(buffer_type, usage, size_bytes));
        }
    }

    fn delete_buffer(&mut self, handle: u32) {
        self.calls.push(GlCall::DeleteBuffer { handle });
    }
}

impl MeshHandler for TraceGl {
    fn gen_vertex_array(&mut self) -> (h: u32) {
        let h = self.next_alloc();
        self.calls.push(GlCall::GenVertexArray { handle: h });
        h
    }

    fn delete_vertex_array(&mut self, handle: u32) {
        self.calls.push(GlCall::DeleteVertexArray { handle });
    }

    fn vertex_attrib_pointer<VertexType: Vertex>(&mut self, pointer: &VertexAttribPointer) {
        let stride = core::mem::size_of::<VertexType>();
        self.calls.push(
            GlCall::AttribPointer {
                index: pointer.index,
                size: pointer.size,
                data_type: pointer.data_type,
                normalized: pointer.normalized,
                stride,
                offset: pointer.offset,
            },
        );
        proof {
            assert(self.calls@ == old(self).calls@.push(
                attrib_call(*pointer, size_of::<VertexType>() as usize),
            ));
        }
    }

    fn enable_attrib_array(&mut self, index: usize) {
        self.calls.push(GlCall::EnableAttrib { index });
    }

    fn disable_attrib_array(&mut self, index: usize) {
        self.calls.push(GlCall::DisableAttrib { index });
    }

    fn bind_vertex_array(&mut self, handle: u32) {
        self.calls.push(GlCall::BindVertexArray { handle });
    }

    fn draw_elements<IndexType: GlDataType>(&mut self, mode: MeshMode, indices: usize) {
        let index_type = IndexType::gl_data_type();
        self.calls.push(GlCall::DrawElements { mode, count: indices, index_type });
    }
}

impl RenderHandler for TraceGl {
}

impl ShaderHandler for TraceGl {
    fn create_shader(&mut self, shader_type: ShaderType) -> (h: u32) {
        let h = self.next_alloc();
        self.calls.push(GlCall::CreateShader { shader_type, handle: h });
        h
    }

    fn shader_source(&mut self, handle: u32, source: &str) {
        self.calls.push(GlCall::ShaderSource { handle });
    }

    fn compile_shader(&mut self, handle: u32) {
        self.calls.push(GlCall::CompileShader { handle });
    }

    fn delete_shader(&mut self, handle: u32) {
        self.calls.push(GlCall::DeleteShader { handle });
    }

    fn create_program(&mut self) -> (h: u32) {
        let h = self.next_alloc();
        self.calls.push(GlCall::CreateProgram { handle: h });
        h
    }

    fn attach_shader(&mut self, program: u32, shader: u32) {
        self.calls.push(GlCall::AttachShader { program, shader });
    }

    fn detach_shader(&mut self, program: u32, shader: u32) {
        self.calls.push(GlCall::DetachShader { program, shader });
    }

    fn link_program(&mut self, handle: u32) {
        self.calls.push(GlCall::LinkProgram { handle });
    }

    fn validate_program(&mut self, handle: u32) {
        self.calls.push(GlCall::ValidateProgram { handle });
    }

    fn use_program(&mut self, handle: u32) {
        self.calls.push(GlCall::UseProgram { handle });
    }

    fn delete_program(&mut self, handle: u32) {
        self.calls.push(GlCall::DeleteProgram { handle });
    }

    fn info_log_length(&mut self, object: LogObject, handle: u32) -> (len: i32) {
        let len: i32 = match &self.log_text {
            Some(s) => {
                let n = s.as_str().unicode_len();
                if n > 1000000 {
                    1000000i32
                } else {
                    n as i32
                }
            },
            None => 0,
        };
        self.calls.push(GlCall::GetLogLength { object, handle, len });
        len
    }

    fn info_log(&mut self, object: LogObject, handle: u32, len: i32) -> (log: String) {
        let log = match &self.log_text {
            Some(s) => s.clone(),
            None => String::new(),
        };
        let recorded_copy = log.clone();
        self.calls.push(GlCall::GetInfoLog { object, handle, log: recorded_copy });
        log
    }
}

/// A window that records presentation-relevant calls and delivers events
/// from a scripted queue, with no native surface behind it.
pub struct TraceWindow {
    window_calls: Vec<WindowCall>,
    queue: Vec<WindowEvent>,
}

impl TraceWindow {
    /// The presentation-relevant calls made so far, oldest first.
    pub closed spec fn spec_calls(&self) -> Seq<WindowCall> {
        self.window_calls@
    }

    /// The events still queued, oldest first.
    pub closed spec fn spec_queue(&self) -> Seq<WindowEvent> {
        self.queue@
    }

    /// A fresh window with no recorded calls and an empty event queue.
    pub fn new() -> (w: TraceWindow)
        ensures
            w.spec_calls() == Seq::<WindowCall>::empty(),
            w.spec_queue() == Seq::<WindowEvent>::empty(),
    {
        TraceWindow { window_calls: Vec::new(), queue: Vec::new() }
    }

    /// Appends one event to the queue.
    pub fn push_event(&mut self, event: WindowEvent)
        ensures
            final(self).spec_queue() == old(self).spec_queue().push(event),
            final(self).spec_calls() == old(self).spec_calls(),
    {
        self.queue.push(event);
    }

    /// The calls recorded so far, oldest first.
    pub fn recorded(&self) -> (calls: &Vec<WindowCall>)
        ensures
            calls@ == self.spec_calls(),
    {
        &self.window_calls
    }

    /// How many events are still queued.
    pub fn queued(&self) -> (n: usize)
        ensures
            n == self.spec_queue().len(),
    {
        self.queue.len()
    }
}

impl AWindow<()> for TraceWindow {
    type ErrorType = ();

    open spec fn trace(&self) -> Seq<WindowCall> {
        self.spec_calls()
    }

    open spec fn pending(&self) -> Seq<WindowEvent> {
        self.spec_queue()
    }

    fn set_title(&mut self, title: &str) -> (r: Result<(), ()>) {
        Ok(())
    }

    fn set_size(&mut self, size: (usize, usize)) -> (r: Result<(), ()>) {
        Ok(())
    }

    fn hide_window(&mut self) -> (r: Result<(), ()>) {
        Ok(())
    }

    fn ctx(&mut self) -> (c: Option<()>) {
        Some(())
    }

    fn swap_buffers(&mut self) {
        self.window_calls.push(WindowCall::SwapBuffers);
    }

    fn set_viewport(&mut self, width: i32, height: i32) {
        self.window_calls.push(WindowCall::Viewport { width, height });
    }

    fn poll_event(&mut self) -> (e: Option<WindowEvent>) {
        if self.queue.len() == 0 {
            None
        } else {
            let event = self.queue.remove(0);
            proof {
                assert(self.queue@ =~= old(self).queue@.drop_first());
            }
            Some(event)
        }
    }
}

} // verus!
