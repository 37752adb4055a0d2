//! Model of the GL device context.
//!
//! The library never touches the native driver directly: it tracks the GL
//! machine state it is responsible for (viewport, bindings, enabled
//! vertex-attribute slots, the pending error code) and records every command
//! it decides to issue in an ordered log, [`GlContext::log`].  The log is the
//! GPU command stream: an embedding crate replays it onto the real driver in
//! order.
//!
//! Driver behaviour that this layer cannot decide (whether an allocation
//! succeeds, whether each shader stage compiles, whether a link succeeds,
//! which uniforms and attributes a linked program reports, whether a draw
//! raises an error, the highest supported sample count, the text of an
//! info log) is part of the model as configuration fields, so every
//! function of the library is verified for every driver behaviour those
//! fields can describe.

use vstd::prelude::*;
use crate::GLError;

verus! {

// Native GL enumerant values, as the OpenGL specification assigns them.
pub const NO_ERROR: u32 = 0;
pub const INVALID_OPERATION: u32 = 0x0502;
pub const OUT_OF_MEMORY: u32 = 0x0505;
pub const BYTE: u32 = 0x1400;
pub const INT: u32 = 0x1404;
pub const UNSIGNED_INT: u32 = 0x1405;
pub const FLOAT: u32 = 0x1406;
pub const TRIANGLES: u32 = 0x0004;
pub const ARRAY_BUFFER: u32 = 0x8892;
pub const DYNAMIC_DRAW: u32 = 0x88E8;
pub const FRAGMENT_SHADER: u32 = 0x8B30;
pub const VERTEX_SHADER: u32 = 0x8B31;
pub const GEOMETRY_SHADER: u32 = 0x8DD9;
pub const READ_FRAMEBUFFER: u32 = 0x8CA8;
pub const DRAW_FRAMEBUFFER: u32 = 0x8CA9;
pub const READ_FRAMEBUFFER_BINDING: u32 = 0x8CAA;
pub const DRAW_FRAMEBUFFER_BINDING: u32 = 0x8CA6;
pub const RENDERBUFFER: u32 = 0x8D41;

/// The kind of GPU object a handle names.
#[derive(Clone, Copy, Debug, PartialEq, Eq, Structural)]
pub enum ObjectKind {
    Texture,
    Buffer,
    VertexArray,
    Renderbuffer,
    Framebuffer,
    Shader,
    Program,
}

/// One command issued to the driver.  `GlContext::log` is the ordered stream
/// of these commands.
#[derive(Debug, PartialEq)]
pub enum GlCall {
    /// Read and clear the pending error code.
    GetError,
    Viewport(i32, i32, i32, i32),
    /// target, framebuffer handle (0 is the default framebuffer).
    BindFramebuffer(u32, u32),
    /// target, renderbuffer handle (0 is none).
    BindRenderbuffer(u32, u32),
    /// target, buffer handle.
    BindBuffer(u32, u32),
    EnableVertexAttribArray(u32),
    DisableVertexAttribArray(u32),
    Gen(ObjectKind, u32),
    /// stage, shader handle.
    CreateShader(u32, u32),
    Delete(ObjectKind, u32),
    ShaderSource(u32),
    CompileShader(u32),
    /// program, shader.
    AttachShader(u32, u32),
    LinkProgram(u32),
    UseProgram(u32),
    /// target, byte count, usage.
    BufferData(u32, usize, u32),
    /// target, byte offset, byte count.
    BufferSubData(u32, usize, usize),
    VertexAttribPointer {
        location: u32,
        components: i32,
        scalar: u32,
        normalized: bool,
        stride: i32,
        offset: i32,
    },
    /// mode, first, count.
    DrawArrays(u32, i32, i32),
    /// target, samples, internal format, width, height.
    RenderbufferStorageMultisample(u32, i32, u32, i32, i32),
    SetUniform {
        location: u32,
        value: crate::uniform::UniformValue,
    },
}

/// One entry on the caller-visible diagnostic channel.  Compile and link
/// failures and post-draw errors are reported here; only compile and link
/// failures additionally produce a typed error.
#[derive(Debug, PartialEq)]
pub enum Diag {
    CompileLog(String),
    LinkLog(String),
    DrawError(u32),
}

/// One active uniform or attribute as driver reflection reports it:
/// name, declared array size, declared scalar type, and resolved location
/// (`None` when the driver optimized the declaration away).
pub struct ShaderVar {
    pub name: String,
    pub size: i32,
    pub utype: u32,
    pub location: Option<u32>,
}

impl Clone for ShaderVar {
    fn clone(&self) -> (r: Self)
        ensures
            r == *self,
    {
        ShaderVar {
            name: self.name.clone(),
            size: self.size,
            utype: self.utype,
            location: self.location,
        }
    }
}

/// The model of the device context: the GL machine state this layer tracks,
/// the command log, the diagnostic channel, and the driver-behaviour
/// configuration.
pub struct GlContext {
    // --- machine state the commands mutate ---
    /// Current viewport rectangle: x, y, width, height.
    pub viewport: (i32, i32, i32, i32),
    /// Framebuffer bound to the draw target (0 is the default framebuffer).
    pub draw_framebuffer: u32,
    /// Framebuffer bound to the read target.
    pub read_framebuffer: u32,
    /// Renderbuffer bound to the renderbuffer target (0 is none).
    pub renderbuffer: u32,
    /// Buffer bound to the array-buffer target.
    pub array_buffer: u32,
    /// Program selected by the last use-program command.
    pub current_program: u32,
    /// The set of enabled vertex-attribute slots.
    pub enabled: Ghost<Set<u32>>,
    /// Pending error code (`NO_ERROR` when none).
    pub error: u32,
    /// Next fresh object handle the driver will hand out.
    pub next_id: u32,
    // --- observable output ---
    /// The ordered stream of commands issued to the driver.
    pub log: Vec<GlCall>,
    /// The caller-visible diagnostic channel.
    pub diagnostics: Vec<Diag>,
    // --- driver-behaviour configuration ---
    /// Whether the driver can allocate new objects.
    pub alloc_ok: bool,
    /// Whether the driver compiles vertex-stage source.
    pub vertex_compile_ok: bool,
    /// Whether the driver compiles fragment-stage source.
    pub fragment_compile_ok: bool,
    /// Whether the driver compiles geometry-stage source.
    pub geometry_compile_ok: bool,
    /// Whether the driver links programs successfully.
    pub link_ok: bool,
    /// The error a draw command raises (`NO_ERROR` when draws succeed).
    pub draw_error: u32,
    /// Highest sample count the driver accepts for multisample storage.
    pub max_samples: i32,
    /// Active uniforms the driver reports for a linked program.
    pub active_uniforms: Vec<ShaderVar>,
    /// Active attributes the driver reports for a linked program.
    pub active_attribs: Vec<ShaderVar>,
    /// The info log the driver reports for a failed compile or link.
    pub info_log: String,
}

/// The binding state (viewport, framebuffers, renderbuffer, array buffer,
/// current program, enabled slots) is the same in `pre` and `post`.
pub open spec fn same_bindings(pre: GlContext, post: GlContext) -> bool {
    &&& post.viewport == pre.viewport
    &&& post.draw_framebuffer == pre.draw_framebuffer
    &&& post.read_framebuffer == pre.read_framebuffer
    &&& post.renderbuffer == pre.renderbuffer
    &&& post.array_buffer == pre.array_buffer
    &&& post.current_program == pre.current_program
    &&& post.enabled@ == pre.enabled@
}

/// The driver-behaviour configuration is the same in `pre` and `post`.
pub open spec fn same_config(pre: GlContext, post: GlContext) -> bool {
    &&& post.alloc_ok == pre.alloc_ok
    &&& post.vertex_compile_ok == pre.vertex_compile_ok
    &&& post.fragment_compile_ok == pre.fragment_compile_ok
    &&& post.geometry_compile_ok == pre.geometry_compile_ok
    &&& post.link_ok == pre.link_ok
    &&& post.draw_error == pre.draw_error
    &&& post.max_samples == pre.max_samples
    &&& post.active_uniforms@ == pre.active_uniforms@
    &&& post.active_attribs@ == pre.active_attribs@
    &&& post.info_log == pre.info_log
}

/// No object was created or destroyed between `pre` and `post`.
pub open spec fn same_objects(pre: GlContext, post: GlContext) -> bool {
    post.next_id == pre.next_id
}

/// The diagnostic channel is the same in `pre` and `post`.
pub open spec fn same_diagnostics(pre: GlContext, post: GlContext) -> bool {
    post.diagnostics@ == pre.diagnostics@
}

/// Everything a plain binding command leaves alone: the configuration, the
/// object handles, the diagnostic channel and the pending error code.
pub open spec fn command_frame(pre: GlContext, post: GlContext) -> bool {
    &&& same_config(pre, post)
    &&& same_objects(pre, post)
    &&& same_diagnostics(pre, post)
    &&& post.error == pre.error
}

/// The model driver's compile verdict for one shader stage.
pub open spec fn stage_compile_ok(gl: GlContext, stage: u32) -> bool {
    if stage == VERTEX_SHADER {
        gl.vertex_compile_ok
    } else if stage == FRAGMENT_SHADER {
        gl.fragment_compile_ok
    } else if stage == GEOMETRY_SHADER {
        gl.geometry_compile_ok
    } else {
        true
    }
}

/// The framebuffer handle bound to `target` in `gl`.
pub open spec fn fb_binding(gl: GlContext, target: u32) -> u32 {
    if target == DRAW_FRAMEBUFFER {
        gl.draw_framebuffer
    } else {
        gl.read_framebuffer
    }
}

impl GlContext {
    /// A fresh model context: clean machine state, empty log, a driver that
    /// allocates and links successfully, accepts up to 16 samples, and
    /// reports no active uniforms or attributes.
    pub fn new() -> (gl: GlContext)
        ensures
            gl.viewport == (0i32, 0i32, 0i32, 0i32),
            gl.draw_framebuffer == 0,
            gl.read_framebuffer == 0,
            gl.renderbuffer == 0,
            gl.array_buffer == 0,
            gl.current_program == 0,
            gl.enabled@ == Set::<u32>::empty(),
            gl.error == NO_ERROR,
            gl.next_id == 1,
            gl.log@ == Seq::<GlCall>::empty(),
            gl.diagnostics@ == Seq::<Diag>::empty(),
            gl.alloc_ok,
            gl.vertex_compile_ok,
            gl.fragment_compile_ok,
            gl.geometry_compile_ok,
            gl.link_ok,
            gl.draw_error == NO_ERROR,
            gl.max_samples == 16,
            gl.active_uniforms@ == Seq::<ShaderVar>::empty(),
            gl.active_attribs@ == Seq::<ShaderVar>::empty(),
            gl.info_log@ == Seq::<char>::empty(),
    {
        GlContext {
            viewport: (0, 0, 0, 0),
            draw_framebuffer: 0,
            read_framebuffer: 0,
            renderbuffer: 0,
            array_buffer: 0,
            current_program: 0,
            enabled: Ghost(Set::empty()),
            error: NO_ERROR,
            next_id: 1,
            log: Vec::new(),
            diagnostics: Vec::new(),
            alloc_ok: true,
            vertex_compile_ok: true,
            fragment_compile_ok: true,
            geometry_compile_ok: true,
            link_ok: true,
            draw_error: NO_ERROR,
            max_samples: 16,
            active_uniforms: Vec::new(),
            active_attribs: Vec::new(),
            info_log: String::new(),
        }
    }

    /// Issue a get-error command: return the pending error code and clear it.
    pub fn get_error(&mut self) -> (code: u32)
        ensures
            code == old(self).error,
            final(self).error == NO_ERROR,
            final(self).log@ == old(self).log@.push(GlCall::GetError),
            same_bindings(*old(self), *final(self)),
            same_config(*old(self), *final(self)),
            same_objects(*old(self), *final(self)),
            same_diagnostics(*old(self), *final(self)),
    {
        let code = self.error;
        self.error = NO_ERROR;
        self.log.push(GlCall::GetError);
        code
    }

    /// Ask the driver for a fresh object handle of the given kind.  Succeeds
    /// exactly when the driver can allocate and has handles left; on failure
    /// the driver leaves an out-of-memory error pending.
    pub fn try_create(&mut self, kind: ObjectKind) -> (r: Option<u32>)
        ensures
            r == if old(self).alloc_ok && old(self).next_id < u32::MAX {
                Some(old(self).next_id)
            } else {
                None::<u32>
            },
            r is Some ==> {
                &&& final(self).next_id == old(self).next_id + 1
                &&& final(self).log@ == old(self).log@.push(
                    GlCall::Gen(kind, old(self).next_id))
                &&& final(self).error == old(self).error
            },
            r is None ==> {
                &&& final(self).next_id == old(self).next_id
                &&& final(self).log@ == old(self).log@
                &&& final(self).error == OUT_OF_MEMORY
            },
            same_bindings(*old(self), *final(self)),
            same_config(*old(self), *final(self)),
            same_diagnostics(*old(self), *final(self)),
    {
        if self.alloc_ok && self.next_id < u32::MAX {
            let id = self.next_id;
            self.next_id = id + 1;
            self.log.push(GlCall::Gen(kind, id));
            Some(id)
        } else {
            self.error = OUT_OF_MEMORY;
            None
        }
    }

    /// Issue a viewport command.
    pub fn set_viewport(&mut self, x: i32, y: i32, width: i32, height: i32)
        ensures
            final(self).viewport == (x, y, width, height),
            final(self).log@ == old(self).log@.push(GlCall::Viewport(x, y, width, height)),
            final(self).draw_framebuffer == old(self).draw_framebuffer,
            final(self).read_framebuffer == old(self).read_framebuffer,
            final(self).renderbuffer == old(self).renderbuffer,
            final(self).array_buffer == old(self).array_buffer,
            final(self).current_program == old(self).current_program,
            final(self).enabled@ == old(self).enabled@,
            command_frame(*old(self), *final(self)),
    {
        self.viewport = (x, y, width, height);
        self.log.push(GlCall::Viewport(x, y, width, height));
    }

    /// Issue a bind-framebuffer command for the draw or read target.
    pub fn bind_framebuffer(&mut self, target: u32, id: u32)
        requires
            target == DRAW_FRAMEBUFFER || target == READ_FRAMEBUFFER,
        ensures
            final(self).log@ == old(self).log@.push(GlCall::BindFramebuffer(target, id)),
            fb_binding(*final(self), target) == id,
            target == DRAW_FRAMEBUFFER ==>
                final(self).read_framebuffer == old(self).read_framebuffer,
            target == READ_FRAMEBUFFER ==>
                final(self).draw_framebuffer == old(self).draw_framebuffer,
            final(self).viewport == old(self).viewport,
            final(self).renderbuffer == old(self).renderbuffer,
            final(self).array_buffer == old(self).array_buffer,
            final(self).current_program == old(self).current_program,
            final(self).enabled@ == old(self).enabled@,
            command_frame(*old(self), *final(self)),
    {
        if target == DRAW_FRAMEBUFFER {
            self.draw_framebuffer = id;
        } else {
            self.read_framebuffer = id;
        }
        self.log.push(GlCall::BindFramebuffer(target, id));
    }

    /// Issue a bind-renderbuffer command (handle 0 unbinds).
    pub fn bind_renderbuffer(&mut self, target: u32, id: u32)
        requires
            target == RENDERBUFFER,
        ensures
            final(self).log@ == old(self).log@.push(GlCall::BindRenderbuffer(target, id)),
            final(self).renderbuffer == id,
            final(self).viewport == old(self).viewport,
            final(self).draw_framebuffer == old(self).draw_framebuffer,
            final(self).read_framebuffer == old(self).read_framebuffer,
            final(self).array_buffer == old(self).array_buffer,
            final(self).current_program == old(self).current_program,
            final(self).enabled@ == old(self).enabled@,
            command_frame(*old(self), *final(self)),
    {
        self.renderbuffer = id;
        self.log.push(GlCall::BindRenderbuffer(target, id));
    }

    /// Issue a bind-buffer command for the array-buffer target.
    pub fn bind_buffer(&mut self, target: u32, id: u32)
        requires
            target == ARRAY_BUFFER,
        ensures
            final(self).log@ == old(self).log@.push(GlCall::BindBuffer(target, id)),
            final(self).array_buffer == id,
            final(self).viewport == old(self).viewport,
            final(self).draw_framebuffer == old(self).draw_framebuffer,
            final(self).read_framebuffer == old(self).read_framebuffer,
            final(self).renderbuffer == old(self).renderbuffer,
            final(self).current_program == old(self).current_program,
            final(self).enabled@ == old(self).enabled@,
            command_frame(*old(self), *final(self)),
    {
        self.array_buffer = id;
        self.log.push(GlCall::BindBuffer(target, id));
    }

    /// Issue a use-program command.
    pub fn use_program(&mut self, id: u32)
        ensures
            final(self).log@ == old(self).log@.push(GlCall::UseProgram(id)),
            final(self).current_program == id,
            final(self).viewport == old(self).viewport,
            final(self).draw_framebuffer == old(self).draw_framebuffer,
            final(self).read_framebuffer == old(self).read_framebuffer,
            final(self).renderbuffer == old(self).renderbuffer,
            final(self).array_buffer == old(self).array_buffer,
            final(self).enabled@ == old(self).enabled@,
            command_frame(*old(self), *final(self)),
    {
        self.current_program = id;
        self.log.push(GlCall::UseProgram(id));
    }

    /// Issue an enable command for one vertex-attribute slot.
    pub fn enable_vertex_attrib_array(&mut self, id: u32)
        ensures
            final(self).log@ == old(self).log@.push(GlCall::EnableVertexAttribArray(id)),
            final(self).enabled@ == old(self).enabled@.insert(id),
            final(self).viewport == old(self).viewport,
            final(self).draw_framebuffer == old(self).draw_framebuffer,
            final(self).read_framebuffer == old(self).read_framebuffer,
            final(self).renderbuffer == old(self).renderbuffer,
            final(self).array_buffer == old(self).array_buffer,
            final(self).current_program == old(self).current_program,
            command_frame(*old(self), *final(self)),
    {
        self.enabled = Ghost(self.enabled@.insert(id));
        self.log.push(GlCall::EnableVertexAttribArray(id));
    }

    /// Issue a disable command for one vertex-attribute slot.
    pub fn disable_vertex_attrib_array(&mut self, id: u32)
        ensures
            final(self).log@ == old(self).log@.push(GlCall::DisableVertexAttribArray(id)),
            final(self).enabled@ == old(self).enabled@.remove(id),
            final(self).viewport == old(self).viewport,
            final(self).draw_framebuffer == old(self).draw_framebuffer,
            final(self).read_framebuffer == old(self).read_framebuffer,
            final(self).renderbuffer == old(self).renderbuffer,
            final(self).array_buffer == old(self).array_buffer,
            final(self).current_program == old(self).current_program,
            command_frame(*old(self), *final(self)),
    {
        self.enabled = Ghost(self.enabled@.remove(id));
        self.log.push(GlCall::DisableVertexAttribArray(id));
    }

    /// Ask the driver for a fresh shader object of the given stage.
    /// Succeeds exactly when the driver can allocate and has handles left;
    /// on failure the driver leaves an out-of-memory error pending.
    pub fn try_create_shader(&mut self, stage: u32) -> (r: Option<u32>)
        ensures
            r == if old(self).alloc_ok && old(self).next_id < u32::MAX {
                Some(old(self).next_id)
            } else {
                None::<u32>
            },
            r is Some ==> {
                &&& final(self).next_id == old(self).next_id + 1
                &&& final(self).log@ == old(self).log@.push(
                    GlCall::CreateShader(stage, old(self).next_id))
                &&& final(self).error == old(self).error
            },
            r is None ==> {
                &&& final(self).next_id == old(self).next_id
                &&& final(self).log@ == old(self).log@
                &&& final(self).error == OUT_OF_MEMORY
            },
            same_bindings(*old(self), *final(self)),
            same_config(*old(self), *final(self)),
            same_diagnostics(*old(self), *final(self)),
    {
        if self.alloc_ok && self.next_id < u32::MAX {
            let id = self.next_id;
            self.next_id = id + 1;
            self.log.push(GlCall::CreateShader(stage, id));
            Some(id)
        } else {
            self.error = OUT_OF_MEMORY;
            None
        }
    }

    /// Issue a shader-source command.  The source text itself travels to
    /// the driver outside the modelled command stream (an embedder pairs
    /// it with the shader handle), so only the handle is logged.
    pub fn shader_source(&mut self, id: u32, _source: &str)
        ensures
            final(self).log@ == old(self).log@.push(GlCall::ShaderSource(id)),
            final(self).error == old(self).error,
            same_bindings(*old(self), *final(self)),
            same_config(*old(self), *final(self)),
            same_objects(*old(self), *final(self)),
            same_diagnostics(*old(self), *final(self)),
    {
        self.log.push(GlCall::ShaderSource(id));
    }

    /// Issue a compile-shader command.
    pub fn compile_shader(&mut self, id: u32)
        ensures
            final(self).log@ == old(self).log@.push(GlCall::CompileShader(id)),
            final(self).error == old(self).error,
            same_bindings(*old(self), *final(self)),
            same_config(*old(self), *final(self)),
            same_objects(*old(self), *final(self)),
            same_diagnostics(*old(self), *final(self)),
    {
        self.log.push(GlCall::CompileShader(id));
    }

    /// Issue an attach-shader command.
    pub fn attach_shader(&mut self, program: u32, shader: u32)
        ensures
            final(self).log@ == old(self).log@.push(GlCall::AttachShader(program, shader)),
            final(self).error == old(self).error,
            same_bindings(*old(self), *final(self)),
            same_config(*old(self), *final(self)),
            same_objects(*old(self), *final(self)),
            same_diagnostics(*old(self), *final(self)),
    {
        self.log.push(GlCall::AttachShader(program, shader));
    }

    /// Issue a link-program command.
    pub fn link_program(&mut self, id: u32)
        ensures
            final(self).log@ == old(self).log@.push(GlCall::LinkProgram(id)),
            final(self).error == old(self).error,
            same_bindings(*old(self), *final(self)),
            same_config(*old(self), *final(self)),
            same_objects(*old(self), *final(self)),
            same_diagnostics(*old(self), *final(self)),
    {
        self.log.push(GlCall::LinkProgram(id));
    }

    /// Query the compile status of the last compile command for a stage (a
    /// read, not a command: the driver decides it, here through the model
    /// configuration).
    pub fn get_compile_status(&self, stage: u32) -> (ok: bool)
        ensures
            ok == stage_compile_ok(*self, stage),
    {
        if stage == VERTEX_SHADER {
            self.vertex_compile_ok
        } else if stage == FRAGMENT_SHADER {
            self.fragment_compile_ok
        } else if stage == GEOMETRY_SHADER {
            self.geometry_compile_ok
        } else {
            true
        }
    }

    /// Query the link status of the last link command (a read, not a
    /// command: the driver decides it, here through the model configuration).
    pub fn get_link_status(&self) -> (ok: bool)
        ensures
            ok == self.link_ok,
    {
        self.link_ok
    }

    /// Query the driver's info log for a failed compile or link.
    pub fn get_info_log(&self) -> (s: String)
        ensures
            s == self.info_log,
    {
        self.info_log.clone()
    }

    /// Write one entry to the caller-visible diagnostic channel.
    pub fn report(&mut self, d: Diag)
        ensures
            final(self).diagnostics@ == old(self).diagnostics@.push(d),
            final(self).log@ == old(self).log@,
            final(self).error == old(self).error,
            same_bindings(*old(self), *final(self)),
            same_config(*old(self), *final(self)),
            same_objects(*old(self), *final(self)),
    {
        self.diagnostics.push(d);
    }

    /// Issue one set-uniform command.
    pub fn set_uniform(&mut self, location: u32, value: crate::uniform::UniformValue)
        ensures
            final(self).log@ == old(self).log@.push(GlCall::SetUniform { location, value }),
            final(self).error == old(self).error,
            same_bindings(*old(self), *final(self)),
            same_config(*old(self), *final(self)),
            same_objects(*old(self), *final(self)),
            same_diagnostics(*old(self), *final(self)),
    {
        self.log.push(GlCall::SetUniform { location, value });
    }

    /// Issue a draw command: `count` vertices from `first`, assembled as
    /// `mode` primitives.  A failing draw raises the configured draw error;
    /// the driver keeps the first pending error, so one already pending
    /// stays.
    pub fn draw_arrays(&mut self, mode: u32, first: i32, count: i32)
        ensures
            final(self).log@ == old(self).log@.push(GlCall::DrawArrays(mode, first, count)),
            final(self).error == if old(self).error != NO_ERROR {
                old(self).error
            } else {
                old(self).draw_error
            },
            same_bindings(*old(self), *final(self)),
            same_config(*old(self), *final(self)),
            same_objects(*old(self), *final(self)),
            same_diagnostics(*old(self), *final(self)),
    {
        self.log.push(GlCall::DrawArrays(mode, first, count));
        if self.error == NO_ERROR {
            self.error = self.draw_error;
        }
    }

    /// Issue a buffer-data command: reallocate the bound array buffer to
    /// `bytes` bytes and fill it.
    pub fn buffer_data(&mut self, target: u32, bytes: usize, usage: u32)
        requires
            target == ARRAY_BUFFER,
        ensures
            final(self).log@ == old(self).log@.push(GlCall::BufferData(target, bytes, usage)),
            final(self).error == old(self).error,
            same_bindings(*old(self), *final(self)),
            same_config(*old(self), *final(self)),
            same_objects(*old(self), *final(self)),
            same_diagnostics(*old(self), *final(self)),
    {
        self.log.push(GlCall::BufferData(target, bytes, usage));
    }

    /// Issue a buffer-sub-data command: overwrite `bytes` bytes of the
    /// bound array buffer at `offset`, keeping the allocation.
    pub fn buffer_sub_data(&mut self, target: u32, offset: usize, bytes: usize)
        requires
            target == ARRAY_BUFFER,
        ensures
            final(self).log@ == old(self).log@.push(GlCall::BufferSubData(target, offset, bytes)),
            final(self).error == old(self).error,
            same_bindings(*old(self), *final(self)),
            same_config(*old(self), *final(self)),
            same_objects(*old(self), *final(self)),
            same_diagnostics(*old(self), *final(self)),
    {
        self.log.push(GlCall::BufferSubData(target, offset, bytes));
    }

    /// Issue a vertex-attribute-pointer command.
    pub fn vertex_attrib_pointer(
        &mut self,
        location: u32,
        components: i32,
        scalar: u32,
        normalized: bool,
        stride: i32,
        offset: i32,
    )
        ensures
            final(self).log@ == old(self).log@.push(GlCall::VertexAttribPointer {
                location, components, scalar, normalized, stride, offset,
            }),
            final(self).error == old(self).error,
            same_bindings(*old(self), *final(self)),
            same_config(*old(self), *final(self)),
            same_objects(*old(self), *final(self)),
            same_diagnostics(*old(self), *final(self)),
    {
        self.log.push(GlCall::VertexAttribPointer {
            location, components, scalar, normalized, stride, offset,
        });
    }

    /// Issue a delete command for an object handle.
    pub fn delete(&mut self, kind: ObjectKind, id: u32)
        ensures
            final(self).log@ == old(self).log@.push(GlCall::Delete(kind, id)),
            final(self).error == old(self).error,
            same_bindings(*old(self), *final(self)),
            same_config(*old(self), *final(self)),
            same_objects(*old(self), *final(self)),
            same_diagnostics(*old(self), *final(self)),
    {
        self.log.push(GlCall::Delete(kind, id));
    }
}

/// Read and clear the pending driver error; `Ok` exactly when none was
/// pending, and the code otherwise.
pub fn check_gl(gl: &mut GlContext) -> (r: Result<(), GLError>)
    ensures
        r == if old(gl).error == NO_ERROR {
            Ok::<(), GLError>(())
        } else {
            Err::<(), GLError>(GLError(old(gl).error))
        },
        final(gl).error == NO_ERROR,
        final(gl).log@ == old(gl).log@.push(GlCall::GetError),
        same_bindings(*old(gl), *final(gl)),
        same_config(*old(gl), *final(gl)),
        same_objects(*old(gl), *final(gl)),
        same_diagnostics(*old(gl), *final(gl)),
{
    let err = gl.get_error();
    if err == NO_ERROR {
        Ok(())
    } else {
        Err(GLError(err))
    }
}

/// Read and clear the pending driver error as a typed error value.
pub fn to_gl_err(gl: &mut GlContext) -> (e: GLError)
    ensures
        e == GLError(old(gl).error),
        final(gl).error == NO_ERROR,
        final(gl).log@ == old(gl).log@.push(GlCall::GetError),
        same_bindings(*old(gl), *final(gl)),
        same_config(*old(gl), *final(gl)),
        same_objects(*old(gl), *final(gl)),
        same_diagnostics(*old(gl), *final(gl)),
{
    GLError(gl.get_error())
}

} // verus!
