//! Shader compilation, program linking, reflection catalogs and lookup.
//!
//! A program is built from vertex/fragment (and optional geometry) source
//! text.  Each stage is compiled independently; a compile or link failure is
//! reported on the diagnostic channel and returned as a typed error, and no
//! partial program is ever exposed.  On success the active uniforms and
//! attributes the driver reports are captured once into immutable catalogs,
//! skipping entries whose location cannot be resolved (the driver may
//! optimize unused declarations away); lookups are by exact name.
//!
//! Whether each stage compiles, whether linking succeeds and what
//! reflection reports are driver verdicts this layer cannot decide: they
//! are model configuration, so the build is verified for every combination
//! of them.

use vstd::prelude::*;
use vstd::string::*;
use crate::GLError;
use crate::gl::{
    GlContext, GlCall, Diag, ObjectKind, ShaderVar,
    same_bindings, same_config, same_objects, same_diagnostics, command_frame,
    NO_ERROR, OUT_OF_MEMORY, VERTEX_SHADER, FRAGMENT_SHADER, GEOMETRY_SHADER,
    stage_compile_ok,
};
use crate::resource::can_alloc;
use crate::uniform::UniformProvider;
use crate::attrib::{AttribProvider, AttribProviderList, attrib_ptr_cmds, attrib_slot_seq};
use crate::guards::disable_cmds;
use crate::vertex::{DynamicVertexArray, bind_buffer_log};

verus! {

/// One active uniform of a linked program: name, resolved location,
/// declared array size and declared scalar type.
#[derive(Debug)]
pub struct Uniform {
    pub name: String,
    pub location: u32,
    pub size: i32,
    pub utype: u32,
}

impl Uniform {
    pub fn name(&self) -> (s: &str)
        ensures
            s@ == self.name@,
    {
        self.name.as_str()
    }

    pub fn location(&self) -> (l: u32)
        ensures
            l == self.location,
    {
        self.location
    }
}

/// One active vertex attribute of a linked program: name, resolved
/// location, declared array size and declared scalar type.
#[derive(Debug)]
pub struct Attribute {
    pub name: String,
    pub location: u32,
    pub size: i32,
    pub utype: u32,
}

impl Attribute {
    pub fn name(&self) -> (s: &str)
        ensures
            s@ == self.name@,
    {
        self.name.as_str()
    }

    pub fn location(&self) -> (l: u32)
        ensures
            l == self.location,
    {
        self.location
    }
}

/// The uniform catalog derived from driver reflection: one entry per
/// reported variable whose location resolved, in reported order.
pub open spec fn uniform_catalog(vars: Seq<ShaderVar>) -> Seq<Uniform>
    decreases vars.len(),
{
    if vars.len() == 0 {
        Seq::empty()
    } else {
        let prefix = uniform_catalog(vars.drop_last());
        let v = vars.last();
        match v.location {
            Some(loc) => prefix.push(Uniform {
                name: v.name,
                location: loc,
                size: v.size,
                utype: v.utype,
            }),
            None => prefix,
        }
    }
}

/// The attribute catalog derived from driver reflection: one entry per
/// reported variable whose location resolved, in reported order.
pub open spec fn attrib_catalog(vars: Seq<ShaderVar>) -> Seq<Attribute>
    decreases vars.len(),
{
    if vars.len() == 0 {
        Seq::empty()
    } else {
        let prefix = attrib_catalog(vars.drop_last());
        let v = vars.last();
        match v.location {
            Some(loc) => prefix.push(Attribute {
                name: v.name,
                location: loc,
                size: v.size,
                utype: v.utype,
            }),
            None => prefix,
        }
    }
}

/// The first catalog uniform with exactly the given name, if any.
pub open spec fn find_uniform(cat: Seq<Uniform>, name: Seq<char>) -> Option<Uniform>
    decreases cat.len(),
{
    if cat.len() == 0 {
        None
    } else if cat.first().name@ == name {
        Some(cat.first())
    } else {
        find_uniform(cat.drop_first(), name)
    }
}

/// The first catalog attribute with exactly the given name, if any.
pub open spec fn find_attrib(cat: Seq<Attribute>, name: Seq<char>) -> Option<Attribute>
    decreases cat.len(),
{
    if cat.len() == 0 {
        None
    } else if cat.first().name@ == name {
        Some(cat.first())
    } else {
        find_attrib(cat.drop_first(), name)
    }
}

/// A compiled shader stage.  Transient: owned by the program build and
/// deleted once linking completes, whatever the outcome.
struct Shader {
    id: u32,
}

/// The commands a successful compile of a `stage` shader issues for
/// handle `id`.
pub open spec fn compile_ok_log(stage: u32, id: u32) -> Seq<GlCall> {
    seq![
        GlCall::CreateShader(stage, id),
        GlCall::ShaderSource(id),
        GlCall::CompileShader(id),
    ]
}

/// The commands a failed compile issues: the failed stage is read back and
/// the transient shader deleted.
pub open spec fn compile_fail_log(stage: u32, id: u32) -> Seq<GlCall> {
    compile_ok_log(stage, id) + seq![GlCall::GetError, GlCall::Delete(ObjectKind::Shader, id)]
}

impl Shader {
    spec fn spec_id(&self) -> u32 {
        self.id
    }

    fn id(&self) -> (i: u32)
        ensures
            i == self.spec_id(),
    {
        self.id
    }

    fn delete(self, gl: &mut GlContext)
        ensures
            final(gl).log@ == old(gl).log@.push(
                GlCall::Delete(ObjectKind::Shader, self.spec_id())),
            final(gl).error == old(gl).error,
            same_bindings(*old(gl), *final(gl)),
            same_config(*old(gl), *final(gl)),
            same_objects(*old(gl), *final(gl)),
            same_diagnostics(*old(gl), *final(gl)),
    {
        gl.delete(ObjectKind::Shader, self.id);
    }

    /// Compile one stage.  Fails when the driver cannot allocate a shader
    /// object, or when the source does not compile; a compile failure puts
    /// the driver's info log on the diagnostic channel.
    fn compile(gl: &mut GlContext, ty: u32, source: &str) -> (r: Result<Shader, GLError>)
        ensures
            !can_alloc(*old(gl)) ==> {
                &&& r == Err::<Shader, GLError>(GLError(OUT_OF_MEMORY))
                &&& final(gl).log@ == old(gl).log@.push(GlCall::GetError)
                &&& final(gl).error == NO_ERROR
                &&& same_objects(*old(gl), *final(gl))
                &&& same_diagnostics(*old(gl), *final(gl))
            },
            can_alloc(*old(gl)) && stage_compile_ok(*old(gl), ty) ==> {
                &&& r matches Ok(sh) && sh.spec_id() == old(gl).next_id
                &&& final(gl).log@ == old(gl).log@ + compile_ok_log(ty, old(gl).next_id)
                &&& final(gl).next_id == old(gl).next_id + 1
                &&& final(gl).error == old(gl).error
                &&& same_diagnostics(*old(gl), *final(gl))
            },
            can_alloc(*old(gl)) && !stage_compile_ok(*old(gl), ty) ==> {
                &&& r == Err::<Shader, GLError>(GLError(old(gl).error))
                &&& final(gl).log@ == old(gl).log@ + compile_fail_log(ty, old(gl).next_id)
                &&& final(gl).next_id == old(gl).next_id + 1
                &&& final(gl).error == NO_ERROR
                &&& final(gl).diagnostics@ == old(gl).diagnostics@.push(
                    Diag::CompileLog(old(gl).info_log))
            },
            same_bindings(*old(gl), *final(gl)),
            same_config(*old(gl), *final(gl)),
    {
        let id = match gl.try_create_shader(ty) {
            Some(id) => id,
            None => {
                return Err(crate::gl::to_gl_err(gl));
            },
        };
        let sh = Shader { id };
        gl.shader_source(id, source);
        gl.compile_shader(id);
        let st = gl.get_compile_status(ty);
        if !st {
            let msg = gl.get_info_log();
            gl.report(Diag::CompileLog(msg));
            let e = GLError(gl.get_error());
            sh.delete(gl);
            assert(gl.log@ =~= old(gl).log@ + compile_fail_log(ty, old(gl).next_id));
            return Err(e);
        }
        assert(gl.log@ =~= old(gl).log@ + compile_ok_log(ty, old(gl).next_id));
        Ok(sh)
    }
}

// ---------------------------------------------------------------------------
// The program build
// ---------------------------------------------------------------------------

/// Whether a program build succeeds: the driver can allocate, every
/// supplied stage compiles, and the driver links successfully.
pub open spec fn from_source_succeeds(pre: GlContext, has_geometry: bool) -> bool {
    &&& pre.alloc_ok
    &&& pre.vertex_compile_ok
    &&& pre.fragment_compile_ok
    &&& (has_geometry ==> pre.geometry_compile_ok)
    &&& pre.link_ok
}

/// The typed error a failed build returns: the out-of-memory code when the
/// driver could not allocate, else whatever error code was pending when the
/// failure was read back (none, after the initial purge).
pub open spec fn from_source_err(pre: GlContext) -> GLError {
    if !pre.alloc_ok {
        GLError(OUT_OF_MEMORY)
    } else {
        GLError(NO_ERROR)
    }
}

/// How many stage objects a build creates before the program object.
pub open spec fn stage_count(has_geometry: bool) -> int {
    if has_geometry {
        3
    } else {
        2
    }
}

/// The handle of the program object a successful build returns.
pub open spec fn program_handle(pre: GlContext, has_geometry: bool) -> u32 {
    (pre.next_id + stage_count(has_geometry)) as u32
}

/// How many object handles a build consumes.
pub open spec fn from_source_allocs(pre: GlContext, has_geometry: bool) -> int {
    if !pre.alloc_ok {
        0
    } else if !pre.vertex_compile_ok {
        1
    } else if !pre.fragment_compile_ok {
        2
    } else if has_geometry && !pre.geometry_compile_ok {
        3
    } else {
        stage_count(has_geometry) + 1
    }
}

/// What a build writes to the diagnostic channel: one compile log per
/// failed stage build (only the first failing stage is reached), or one
/// link log.
pub open spec fn from_source_diags(pre: GlContext, has_geometry: bool) -> Seq<Diag> {
    if !pre.alloc_ok {
        Seq::empty()
    } else if !pre.vertex_compile_ok || !pre.fragment_compile_ok
        || (has_geometry && !pre.geometry_compile_ok) {
        seq![Diag::CompileLog(pre.info_log)]
    } else if !pre.link_ok {
        seq![Diag::LinkLog(pre.info_log)]
    } else {
        Seq::empty()
    }
}

/// The attach commands of a build: each compiled stage is attached in
/// order, and a transient geometry stage is deleted right after attaching.
pub open spec fn attach_log(idp: u32, id1: u32, id2: u32, g_id: Option<u32>) -> Seq<GlCall> {
    match g_id {
        None => seq![GlCall::AttachShader(idp, id1), GlCall::AttachShader(idp, id2)],
        Some(id3) => seq![
            GlCall::AttachShader(idp, id1),
            GlCall::AttachShader(idp, id2),
            GlCall::AttachShader(idp, id3),
            GlCall::Delete(ObjectKind::Shader, id3),
        ],
    }
}

/// Every command a program build issues, in order, for a context whose
/// next handle is `pre.next_id`.
pub open spec fn from_source_log(pre: GlContext, has_geometry: bool) -> Seq<GlCall> {
    let purge = seq![GlCall::GetError];
    let id1 = pre.next_id;
    let id2 = (pre.next_id + 1) as u32;
    let id3 = (pre.next_id + 2) as u32;
    let idp = program_handle(pre, has_geometry);
    if !pre.alloc_ok {
        purge + seq![GlCall::GetError]
    } else if !pre.vertex_compile_ok {
        purge + compile_fail_log(VERTEX_SHADER, id1)
    } else if !pre.fragment_compile_ok {
        purge + compile_ok_log(VERTEX_SHADER, id1) + compile_fail_log(FRAGMENT_SHADER, id2)
            + seq![GlCall::Delete(ObjectKind::Shader, id1)]
    } else if has_geometry && !pre.geometry_compile_ok {
        purge + compile_ok_log(VERTEX_SHADER, id1) + compile_ok_log(FRAGMENT_SHADER, id2)
            + compile_fail_log(GEOMETRY_SHADER, id3)
            + seq![
                GlCall::Delete(ObjectKind::Shader, id2),
                GlCall::Delete(ObjectKind::Shader, id1),
            ]
    } else {
        let stages = if has_geometry {
            compile_ok_log(VERTEX_SHADER, id1) + compile_ok_log(FRAGMENT_SHADER, id2)
                + compile_ok_log(GEOMETRY_SHADER, id3)
        } else {
            compile_ok_log(VERTEX_SHADER, id1) + compile_ok_log(FRAGMENT_SHADER, id2)
        };
        let g_id = if has_geometry {
            Some(id3)
        } else {
            None::<u32>
        };
        let head = purge + stages + seq![GlCall::Gen(ObjectKind::Program, idp)]
            + attach_log(idp, id1, id2, g_id) + seq![GlCall::LinkProgram(idp)];
        let tail = seq![
            GlCall::Delete(ObjectKind::Shader, id2),
            GlCall::Delete(ObjectKind::Shader, id1),
        ];
        if pre.link_ok {
            head + tail
        } else {
            head + seq![GlCall::GetError, GlCall::Delete(ObjectKind::Program, idp)] + tail
        }
    }
}

/// The set-uniform commands that applying provider `u` across the uniform
/// catalog `cat` issues, one lookup per catalog entry, in catalog order.
pub open spec fn uniform_cmds<U: UniformProvider>(u: U, cat: Seq<Uniform>) -> Seq<GlCall>
    decreases cat.len(),
{
    if cat.len() == 0 {
        Seq::empty()
    } else {
        uniform_cmds(u, cat.drop_last()) + u.cmds_for(cat.last())
    }
}

/// The error code the post-draw check reads: the driver keeps the first
/// pending error, so one pending at entry wins over the error the draw
/// itself raises.
pub open spec fn draw_checked_error(pre: GlContext) -> u32 {
    if pre.error != NO_ERROR {
        pre.error
    } else {
        pre.draw_error
    }
}

/// Every command one draw call issues: activate, set the uniforms, bind
/// the attribute streams, draw, read the error state back, release the
/// enabled slots in reverse order.
pub open spec fn draw_log<U: UniformProvider, AS: AttribProviderList>(
    p: Program,
    u: U,
    a: AS,
    primitive: u32,
) -> Seq<GlCall> {
    seq![GlCall::UseProgram(p.spec_id())]
        + uniform_cmds(u, p.spec_uniforms())
        + a.bind_log(p)
        + seq![GlCall::DrawArrays(primitive, 0, a.spec_len() as i32), GlCall::GetError]
        + disable_cmds(a.bind_slots(p).reverse())
}

/// Every command one sub-range draw call issues: activate, set the
/// uniforms, bind and flush the full array, set the pointers with the
/// range's base offset, draw the range, read the error state back, release
/// the enabled slots in reverse order.
pub open spec fn draw_range_log<U: UniformProvider, A: AttribProvider>(
    p: Program,
    u: U,
    arr: DynamicVertexArray<A>,
    start: int,
    count: int,
    primitive: u32,
) -> Seq<GlCall> {
    seq![GlCall::UseProgram(p.spec_id())]
        + uniform_cmds(u, p.spec_uniforms())
        + bind_buffer_log(arr)
        + attrib_ptr_cmds::<A>(p.spec_attribs(), start * A::spec_record_bytes())
        + seq![GlCall::DrawArrays(primitive, 0, count as i32), GlCall::GetError]
        + disable_cmds(attrib_slot_seq::<A>(p.spec_attribs()).reverse())
}

/// A linked GPU program together with its reflected uniform and attribute
/// catalogs, immutable after construction.
pub struct Program {
    id: u32,
    uniforms: Vec<Uniform>,
    attribs: Vec<Attribute>,
}

impl Program {
    /// The program handle.
    pub closed spec fn spec_id(&self) -> u32 {
        self.id
    }

    /// The uniform catalog.
    pub closed spec fn spec_uniforms(&self) -> Seq<Uniform> {
        self.uniforms@
    }

    /// The attribute catalog.
    pub closed spec fn spec_attribs(&self) -> Seq<Attribute> {
        self.attribs@
    }

    pub fn id(&self) -> (i: u32)
        ensures
            i == self.spec_id(),
    {
        self.id
    }

    /// Build a program from source text: purge the pending error, compile
    /// each supplied stage, link, and on success capture the reflection
    /// catalogs.  No partial program is returned on failure.
    pub fn from_source(
        gl: &mut GlContext,
        vertex: &str,
        fragment: &str,
        geometry: Option<&str>,
    ) -> (r: Result<Program, GLError>)
        requires
            old(gl).next_id + 4 <= u32::MAX,
        ensures
            final(gl).log@ == old(gl).log@
                + from_source_log(*old(gl), geometry is Some),
            final(gl).diagnostics@ == old(gl).diagnostics@
                + from_source_diags(*old(gl), geometry is Some),
            final(gl).error == NO_ERROR,
            final(gl).next_id == old(gl).next_id
                + from_source_allocs(*old(gl), geometry is Some),
            same_bindings(*old(gl), *final(gl)),
            same_config(*old(gl), *final(gl)),
            r is Ok <==> from_source_succeeds(*old(gl), geometry is Some),
            r matches Ok(p) ==> {
                &&& p.spec_id() == program_handle(*old(gl), geometry is Some)
                &&& p.spec_uniforms() == uniform_catalog(old(gl).active_uniforms@)
                &&& p.spec_attribs() == attrib_catalog(old(gl).active_attribs@)
            },
            r matches Err(e) ==> e == from_source_err(*old(gl)),
    {
        let ghost pre = *old(gl);
        let ghost hasg = geometry is Some;
        // Purge the pending error state.
        gl.get_error();
        let vsh = match Shader::compile(gl, VERTEX_SHADER, vertex) {
            Ok(s) => s,
            Err(e) => {
                assert(gl.log@ =~= pre.log@
                    + from_source_log(pre, hasg));
                assert(gl.diagnostics@ =~= pre.diagnostics@
                    + from_source_diags(pre, hasg));
                return Err(e);
            },
        };
        let fsh = match Shader::compile(gl, FRAGMENT_SHADER, fragment) {
            Ok(s) => s,
            Err(e) => {
                vsh.delete(gl);
                assert(gl.log@ =~= pre.log@
                    + from_source_log(pre, hasg));
                assert(gl.diagnostics@ =~= pre.diagnostics@
                    + from_source_diags(pre, hasg));
                return Err(e);
            },
        };
        let gsh = match geometry {
            Some(src) => match Shader::compile(gl, GEOMETRY_SHADER, src) {
                Ok(s) => Some(s),
                Err(e) => {
                    fsh.delete(gl);
                    vsh.delete(gl);
                    assert(gl.log@ =~= pre.log@
                        + from_source_log(pre, hasg));
                    assert(gl.diagnostics@ =~= pre.diagnostics@
                        + from_source_diags(pre, hasg));
                    return Err(e);
                },
            },
            None => None,
        };
        let idp = match gl.try_create(ObjectKind::Program) {
            Some(id) => id,
            None => {
                // Unreachable: the driver allocated every stage just above,
                // and the handle headroom is a precondition.
                assert(false);
                return Err(GLError(OUT_OF_MEMORY));
            },
        };
        gl.attach_shader(idp, vsh.id());
        gl.attach_shader(idp, fsh.id());
        if let Some(g) = gsh {
            gl.attach_shader(idp, g.id());
            g.delete(gl);
        }
        gl.link_program(idp);

        let st = gl.get_link_status();
        if !st {
            let msg = gl.get_info_log();
            gl.report(Diag::LinkLog(msg));
            let e = GLError(gl.get_error());
            gl.delete(ObjectKind::Program, idp);
            fsh.delete(gl);
            vsh.delete(gl);
            assert(gl.log@ =~= pre.log@
                + from_source_log(pre, hasg));
            assert(gl.diagnostics@ =~= pre.diagnostics@
                + from_source_diags(pre, hasg));
            return Err(e);
        }

        // Capture the reflection catalogs, skipping entries whose location
        // did not resolve.
        let mut uniforms: Vec<Uniform> = Vec::new();
        let nu = gl.active_uniforms.len();
        let ghost mid = *gl;
        for i in 0..nu
            invariant
                nu == gl.active_uniforms.len(),
                *gl == mid,
                uniforms@ == uniform_catalog(gl.active_uniforms@.take(i as int)),
        {
            let v = &gl.active_uniforms[i];
            proof {
                assert(gl.active_uniforms@.take(i + 1).drop_last()
                    =~= gl.active_uniforms@.take(i as int));
                assert(gl.active_uniforms@.take(i + 1).last() == gl.active_uniforms@[i as int]);
            }
            match v.location {
                Some(loc) => {
                    let entry = Uniform {
                        name: v.name.clone(),
                        location: loc,
                        size: v.size,
                        utype: v.utype,
                    };
                    uniforms.push(entry);
                },
                None => {},
            }
        }
        proof {
            assert(gl.active_uniforms@.take(nu as int) =~= gl.active_uniforms@);
        }

        let mut attribs: Vec<Attribute> = Vec::new();
        let na = gl.active_attribs.len();
        for i in 0..na
            invariant
                na == gl.active_attribs.len(),
                *gl == mid,
                attribs@ == attrib_catalog(gl.active_attribs@.take(i as int)),
        {
            let v = &gl.active_attribs[i];
            proof {
                assert(gl.active_attribs@.take(i + 1).drop_last()
                    =~= gl.active_attribs@.take(i as int));
                assert(gl.active_attribs@.take(i + 1).last() == gl.active_attribs@[i as int]);
            }
            match v.location {
                Some(loc) => {
                    let entry = Attribute {
                        name: v.name.clone(),
                        location: loc,
                        size: v.size,
                        utype: v.utype,
                    };
                    attribs.push(entry);
                },
                None => {},
            }
        }
        proof {
            assert(gl.active_attribs@.take(na as int) =~= gl.active_attribs@);
        }

        fsh.delete(gl);
        vsh.delete(gl);
        assert(gl.log@ =~= pre.log@ + from_source_log(pre, hasg));
        assert(gl.diagnostics@ =~= pre.diagnostics@ + from_source_diags(pre, hasg));
        Ok(Program { id: idp, uniforms, attribs })
    }

    /// How many active uniforms the catalog holds.
    pub fn uniform_count(&self) -> (n: usize)
        ensures
            n == self.spec_uniforms().len(),
    {
        self.uniforms.len()
    }

    /// The catalog uniform at index `i`.
    pub fn uniform_at(&self, i: usize) -> (u: &Uniform)
        requires
            i < self.spec_uniforms().len(),
        ensures
            *u == self.spec_uniforms()[i as int],
    {
        &self.uniforms[i]
    }

    /// How many active attributes the catalog holds.
    pub fn attrib_count(&self) -> (n: usize)
        ensures
            n == self.spec_attribs().len(),
    {
        self.attribs.len()
    }

    /// The catalog attribute at index `i`.
    pub fn attrib_at(&self, i: usize) -> (a: &Attribute)
        requires
            i < self.spec_attribs().len(),
        ensures
            *a == self.spec_attribs()[i as int],
    {
        &self.attribs[i]
    }

    /// Look up an active attribute by exact name; the first match in
    /// catalog order, or nothing.
    pub fn attrib_by_name(&self, name: &str) -> (r: Option<&Attribute>)
        ensures
            match find_attrib(self.spec_attribs(), name@) {
                Some(a) => r matches Some(x) && *x == a,
                None => r is None,
            },
    {
        let key = name.to_owned();
        let n = self.attribs.len();
        let ghost cat = self.spec_attribs();
        proof {
            assert(cat.skip(0) =~= cat);
        }
        for i in 0..n
            invariant
                n == self.attribs.len(),
                cat == self.spec_attribs(),
                key@ == name@,
                find_attrib(cat, name@) == find_attrib(cat.skip(i as int), name@),
        {
            proof {
                assert(cat.skip(i as int).first() == cat[i as int]);
                assert(cat.skip(i as int).drop_first() =~= cat.skip(i + 1));
            }
            if self.attribs[i].name == key {
                return Some(&self.attribs[i]);
            }
        }
        proof {
            assert(cat.skip(n as int).len() == 0);
        }
        None
    }

    /// Look up an active uniform by exact name; the first match in catalog
    /// order, or nothing.
    pub fn uniform_by_name(&self, name: &str) -> (r: Option<&Uniform>)
        ensures
            match find_uniform(self.spec_uniforms(), name@) {
                Some(u) => r matches Some(x) && *x == u,
                None => r is None,
            },
    {
        let key = name.to_owned();
        let n = self.uniforms.len();
        let ghost cat = self.spec_uniforms();
        proof {
            assert(cat.skip(0) =~= cat);
        }
        for i in 0..n
            invariant
                n == self.uniforms.len(),
                cat == self.spec_uniforms(),
                key@ == name@,
                find_uniform(cat, name@) == find_uniform(cat.skip(i as int), name@),
        {
            proof {
                assert(cat.skip(i as int).first() == cat[i as int]);
                assert(cat.skip(i as int).drop_first() =~= cat.skip(i + 1));
            }
            if self.uniforms[i].name == key {
                return Some(&self.uniforms[i]);
            }
        }
        proof {
            assert(cat.skip(n as int).len() == 0);
        }
        None
    }

    /// Orchestrate one draw call: activate the program, push every active
    /// uniform's value from the provider, bind the attribute streams, issue
    /// the draw, check the error state, and release the binding token.
    ///
    /// A source reporting zero vertices is an explicit no-op, not an error.
    /// A post-draw driver error is reported on the diagnostic channel but
    /// does not fail the call: the draw already happened.
    pub fn draw<U: UniformProvider, AS: AttribProviderList>(
        &self,
        gl: &mut GlContext,
        uniforms: &U,
        attribs: &mut AS,
        primitive: u32,
    )
        requires
            old(attribs).spec_len() <= i32::MAX,
            old(attribs).bind_requires(*self),
            forall|i: int| 0 <= i < self.spec_uniforms().len() ==>
                uniforms.can_apply(#[trigger] self.spec_uniforms()[i]),
        ensures
            old(attribs).spec_len() == 0 ==> {
                &&& *final(gl) == *old(gl)
                &&& *final(attribs) == *old(attribs)
            },
            old(attribs).spec_len() > 0 ==> {
                &&& final(gl).log@ == old(gl).log@
                    + draw_log(*self, *uniforms, *old(attribs), primitive)
                &&& final(gl).error == NO_ERROR
                &&& final(gl).enabled@ == old(gl).enabled@.union(
                        old(attribs).bind_slots(*self).to_set(),
                    ).difference(old(attribs).bind_slots(*self).to_set())
                &&& final(gl).diagnostics@ == old(gl).diagnostics@
                    + if draw_checked_error(*old(gl)) != NO_ERROR {
                        seq![Diag::DrawError(draw_checked_error(*old(gl)))]
                    } else {
                        Seq::<Diag>::empty()
                    }
                &&& *final(attribs) == old(attribs).after_bind()
                &&& final(gl).current_program == self.spec_id()
                &&& final(gl).array_buffer == old(attribs).post_array_buffer(
                    old(gl).array_buffer)
                &&& final(gl).viewport == old(gl).viewport
                &&& final(gl).draw_framebuffer == old(gl).draw_framebuffer
                &&& final(gl).read_framebuffer == old(gl).read_framebuffer
                &&& final(gl).renderbuffer == old(gl).renderbuffer
                &&& same_config(*old(gl), *final(gl))
                &&& same_objects(*old(gl), *final(gl))
            },
    {
        if attribs.is_empty() {
            return;
        }
        let count = attribs.len();
        let ghost pre = *gl;
        gl.use_program(self.id());
        let ghost g1 = *gl;
        proof {
            assert(self.spec_uniforms().take(0) =~= Seq::<Uniform>::empty());
            assert(g1.log@ + Seq::<GlCall>::empty() =~= g1.log@);
        }
        let n = self.uniform_count();
        for i in 0..n
            invariant
                n == self.spec_uniforms().len(),
                forall|j: int| 0 <= j < self.spec_uniforms().len() ==>
                    uniforms.can_apply(#[trigger] self.spec_uniforms()[j]),
                gl.log@ == g1.log@ + uniform_cmds(
                    *uniforms, self.spec_uniforms().take(i as int)),
                gl.error == g1.error,
                same_bindings(g1, *gl),
                command_frame(g1, *gl),
        {
            proof {
                assert(self.spec_uniforms().take(i + 1).drop_last()
                    =~= self.spec_uniforms().take(i as int));
                assert(self.spec_uniforms().take(i + 1).last()
                    == self.spec_uniforms()[i as int]);
            }
            let u = self.uniform_at(i);
            uniforms.apply(gl, u);
            proof {
                assert(gl.log@ =~= g1.log@ + uniform_cmds(
                    *uniforms, self.spec_uniforms().take(i + 1)));
            }
        }
        proof {
            assert(self.spec_uniforms().take(n as int) =~= self.spec_uniforms());
        }

        let k = attribs.bind(gl, self);
        gl.draw_arrays(primitive, 0, count as i32);
        let err = gl.get_error();
        if err != NO_ERROR {
            gl.report(Diag::DrawError(err));
        }
        AS::unbind(gl, k);
        proof {
            assert(gl.log@ =~= pre.log@
                + draw_log(*self, *uniforms, *old(attribs), primitive));
        }
    }

    /// Orchestrate one draw call over a contiguous sub-range of a dynamic
    /// vertex array, flushing the array first: the full array's records are
    /// uploaded when it is dirty, each matched attribute's pointer is set
    /// with the range's base byte offset, and the draw is sized to the
    /// range.  This is the entry point for drawing a sub-range of an array
    /// that may still hold unflushed writes; the borrowed sub-range view
    /// serves the already-flushed case.
    ///
    /// An empty range is an explicit no-op, not an error.
    pub fn draw_range<U: UniformProvider, A: AttribProvider>(
        &self,
        gl: &mut GlContext,
        uniforms: &U,
        arr: &mut DynamicVertexArray<A>,
        start: usize,
        end: usize,
        primitive: u32,
    )
        requires
            old(arr).wf(),
            start <= end <= old(arr).spec_data().len(),
            (start + 1) * A::spec_record_bytes() <= i32::MAX,
            end - start <= i32::MAX,
            forall|i: int| 0 <= i < self.spec_uniforms().len() ==>
                uniforms.can_apply(#[trigger] self.spec_uniforms()[i]),
        ensures
            start == end ==> {
                &&& *final(gl) == *old(gl)
                &&& *final(arr) == *old(arr)
            },
            start < end ==> {
                &&& final(gl).log@ == old(gl).log@ + draw_range_log(
                    *self, *uniforms, *old(arr), start as int, end - start, primitive)
                &&& final(gl).error == NO_ERROR
                &&& final(gl).enabled@ == old(gl).enabled@.union(
                        attrib_slot_seq::<A>(self.spec_attribs()).to_set(),
                    ).difference(attrib_slot_seq::<A>(self.spec_attribs()).to_set())
                &&& final(gl).diagnostics@ == old(gl).diagnostics@
                    + if draw_checked_error(*old(gl)) != NO_ERROR {
                        seq![Diag::DrawError(draw_checked_error(*old(gl)))]
                    } else {
                        Seq::<Diag>::empty()
                    }
                &&& *final(arr) == old(arr).after_flush()
                &&& final(gl).current_program == self.spec_id()
                &&& final(gl).array_buffer == old(arr).spec_buf_id()
                &&& final(gl).viewport == old(gl).viewport
                &&& final(gl).draw_framebuffer == old(gl).draw_framebuffer
                &&& final(gl).read_framebuffer == old(gl).read_framebuffer
                &&& final(gl).renderbuffer == old(gl).renderbuffer
                &&& same_config(*old(gl), *final(gl))
                &&& same_objects(*old(gl), *final(gl))
            },
    {
        if start == end {
            return;
        }
        let count = end - start;
        let ghost pre = *gl;
        gl.use_program(self.id());
        let ghost g1 = *gl;
        proof {
            assert(self.spec_uniforms().take(0) =~= Seq::<Uniform>::empty());
            assert(g1.log@ + Seq::<GlCall>::empty() =~= g1.log@);
        }
        let n = self.uniform_count();
        for i in 0..n
            invariant
                n == self.spec_uniforms().len(),
                forall|j: int| 0 <= j < self.spec_uniforms().len() ==>
                    uniforms.can_apply(#[trigger] self.spec_uniforms()[j]),
                gl.log@ == g1.log@ + uniform_cmds(
                    *uniforms, self.spec_uniforms().take(i as int)),
                gl.error == g1.error,
                same_bindings(g1, *gl),
                command_frame(g1, *gl),
        {
            proof {
                assert(self.spec_uniforms().take(i + 1).drop_last()
                    =~= self.spec_uniforms().take(i as int));
                assert(self.spec_uniforms().take(i + 1).last()
                    == self.spec_uniforms()[i as int]);
            }
            let u = self.uniform_at(i);
            uniforms.apply(gl, u);
            proof {
                assert(gl.log@ =~= g1.log@ + uniform_cmds(
                    *uniforms, self.spec_uniforms().take(i + 1)));
            }
        }
        proof {
            assert(self.spec_uniforms().take(n as int) =~= self.spec_uniforms());
        }

        let k = arr.bind_range(gl, self, start);
        gl.draw_arrays(primitive, 0, count as i32);
        let err = gl.get_error();
        if err != NO_ERROR {
            gl.report(Diag::DrawError(err));
        }
        k.release(gl);
        proof {
            assert(gl.log@ =~= pre.log@ + draw_range_log(
                *self, *uniforms, *old(arr), start as int, end - start, primitive));
        }
    }

    /// Release the program object.
    pub fn delete(self, gl: &mut GlContext)
        ensures
            final(gl).log@ == old(gl).log@.push(
                GlCall::Delete(ObjectKind::Program, self.spec_id())),
            final(gl).error == old(gl).error,
            same_bindings(*old(gl), *final(gl)),
            same_config(*old(gl), *final(gl)),
            same_objects(*old(gl), *final(gl)),
            same_diagnostics(*old(gl), *final(gl)),
    {
        gl.delete(ObjectKind::Program, self.id);
    }
}

} // verus!
