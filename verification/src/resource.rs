//! GPU object wrappers.
//!
//! Each wrapper owns exactly one native object handle.  Construction asks
//! the driver for a fresh handle and fails exactly when the driver cannot
//! allocate; destruction is the explicit, consuming [`delete`] call, so a
//! handle is deleted exactly once, never before the wrapper is given up and
//! never twice.  `Texture` additionally supports escaping: relinquishing the
//! handle to the caller, who thereafter bears the destruction obligation.

use vstd::prelude::*;
use crate::GLError;
use crate::gl::{
    GlContext, GlCall, ObjectKind, same_bindings, same_config, same_diagnostics,
    same_objects, NO_ERROR, OUT_OF_MEMORY, INVALID_OPERATION,
};

verus! {

/// Exactly when a fresh handle can be allocated in `gl`.
pub open spec fn can_alloc(gl: GlContext) -> bool {
    gl.alloc_ok && gl.next_id < u32::MAX
}

/// What allocation failure leaves behind: the out-of-memory code was raised
/// and then read back, one get-error command was issued, nothing else moved.
pub open spec fn alloc_failed(pre: GlContext, post: GlContext) -> bool {
    &&& post.log@ == pre.log@.push(GlCall::GetError)
    &&& post.error == NO_ERROR
    &&& same_objects(pre, post)
    &&& same_bindings(pre, post)
    &&& same_config(pre, post)
    &&& same_diagnostics(pre, post)
}

/// What a successful allocation of `kind` leaves behind: the handle that was
/// next in line is taken and one gen command is logged.
pub open spec fn alloc_issued(pre: GlContext, post: GlContext, kind: ObjectKind) -> bool {
    &&& post.log@ == pre.log@.push(GlCall::Gen(kind, pre.next_id))
    &&& post.next_id == pre.next_id + 1
    &&& post.error == pre.error
    &&& same_bindings(pre, post)
    &&& same_config(pre, post)
    &&& same_diagnostics(pre, post)
}

/// What deleting handle `id` of `kind` leaves behind: one delete command.
pub open spec fn delete_issued(pre: GlContext, post: GlContext, kind: ObjectKind, id: u32) -> bool {
    &&& post.log@ == pre.log@.push(GlCall::Delete(kind, id))
    &&& post.error == pre.error
    &&& same_objects(pre, post)
    &&& same_bindings(pre, post)
    &&& same_config(pre, post)
    &&& same_diagnostics(pre, post)
}

pub struct Texture {
    id: u32,
}

impl Texture {
    /// The handle this wrapper owns.
    pub closed spec fn spec_id(&self) -> u32 {
        self.id
    }

    /// Allocate one texture object; fails exactly when the driver cannot.
    pub fn generate(gl: &mut GlContext) -> (r: Result<Texture, GLError>)
        ensures
            can_alloc(*old(gl)) ==> {
                &&& r matches Ok(t) && t.spec_id() == old(gl).next_id
                &&& alloc_issued(*old(gl), *final(gl), ObjectKind::Texture)
            },
            !can_alloc(*old(gl)) ==> {
                &&& r == Err::<Texture, GLError>(GLError(OUT_OF_MEMORY))
                &&& alloc_failed(*old(gl), *final(gl))
            },
    {
        match gl.try_create(ObjectKind::Texture) {
            Some(id) => Ok(Texture { id }),
            None => Err(crate::gl::to_gl_err(gl)),
        }
    }

    pub fn id(&self) -> (i: u32)
        ensures
            i == self.spec_id(),
    {
        self.id
    }

    /// Relinquish ownership of the handle to the caller without deleting it.
    pub fn into_id(self) -> (i: u32)
        ensures
            i == self.spec_id(),
    {
        self.id
    }

    /// Release the owned handle.
    pub fn delete(self, gl: &mut GlContext)
        ensures
            delete_issued(*old(gl), *final(gl), ObjectKind::Texture, self.spec_id()),
    {
        gl.delete(ObjectKind::Texture, self.id);
    }
}

pub struct Buffer {
    id: u32,
}

impl Buffer {
    /// The handle this wrapper owns.
    pub closed spec fn spec_id(&self) -> u32 {
        self.id
    }

    /// Allocate one buffer object; fails exactly when the driver cannot.
    pub fn generate(gl: &mut GlContext) -> (r: Result<Buffer, GLError>)
        ensures
            can_alloc(*old(gl)) ==> {
                &&& r matches Ok(b) && b.spec_id() == old(gl).next_id
                &&& alloc_issued(*old(gl), *final(gl), ObjectKind::Buffer)
            },
            !can_alloc(*old(gl)) ==> {
                &&& r == Err::<Buffer, GLError>(GLError(OUT_OF_MEMORY))
                &&& alloc_failed(*old(gl), *final(gl))
            },
    {
        match gl.try_create(ObjectKind::Buffer) {
            Some(id) => Ok(Buffer { id }),
            None => Err(crate::gl::to_gl_err(gl)),
        }
    }

    pub fn id(&self) -> (i: u32)
        ensures
            i == self.spec_id(),
    {
        self.id
    }

    /// Release the owned handle.
    pub fn delete(self, gl: &mut GlContext)
        ensures
            delete_issued(*old(gl), *final(gl), ObjectKind::Buffer, self.spec_id()),
    {
        gl.delete(ObjectKind::Buffer, self.id);
    }
}

pub struct VertexArray {
    id: u32,
}

impl VertexArray {
    /// The handle this wrapper owns.
    pub closed spec fn spec_id(&self) -> u32 {
        self.id
    }

    /// Allocate one vertex-array object; fails exactly when the driver cannot.
    pub fn generate(gl: &mut GlContext) -> (r: Result<VertexArray, GLError>)
        ensures
            can_alloc(*old(gl)) ==> {
                &&& r matches Ok(v) && v.spec_id() == old(gl).next_id
                &&& alloc_issued(*old(gl), *final(gl), ObjectKind::VertexArray)
            },
            !can_alloc(*old(gl)) ==> {
                &&& r == Err::<VertexArray, GLError>(GLError(OUT_OF_MEMORY))
                &&& alloc_failed(*old(gl), *final(gl))
            },
    {
        match gl.try_create(ObjectKind::VertexArray) {
            Some(id) => Ok(VertexArray { id }),
            None => Err(crate::gl::to_gl_err(gl)),
        }
    }

    pub fn id(&self) -> (i: u32)
        ensures
            i == self.spec_id(),
    {
        self.id
    }

    /// Release the owned handle.
    pub fn delete(self, gl: &mut GlContext)
        ensures
            delete_issued(*old(gl), *final(gl), ObjectKind::VertexArray, self.spec_id()),
    {
        gl.delete(ObjectKind::VertexArray, self.id);
    }
}

pub struct Renderbuffer {
    id: u32,
}

impl Renderbuffer {
    /// The handle this wrapper owns.
    pub closed spec fn spec_id(&self) -> u32 {
        self.id
    }

    /// Allocate one renderbuffer object; fails exactly when the driver cannot.
    pub fn generate(gl: &mut GlContext) -> (r: Result<Renderbuffer, GLError>)
        ensures
            can_alloc(*old(gl)) ==> {
                &&& r matches Ok(rb) && rb.spec_id() == old(gl).next_id
                &&& alloc_issued(*old(gl), *final(gl), ObjectKind::Renderbuffer)
            },
            !can_alloc(*old(gl)) ==> {
                &&& r == Err::<Renderbuffer, GLError>(GLError(OUT_OF_MEMORY))
                &&& alloc_failed(*old(gl), *final(gl))
            },
    {
        match gl.try_create(ObjectKind::Renderbuffer) {
            Some(id) => Ok(Renderbuffer { id }),
            None => Err(crate::gl::to_gl_err(gl)),
        }
    }

    pub fn id(&self) -> (i: u32)
        ensures
            i == self.spec_id(),
    {
        self.id
    }

    /// Release the owned handle.
    pub fn delete(self, gl: &mut GlContext)
        ensures
            delete_issued(*old(gl), *final(gl), ObjectKind::Renderbuffer, self.spec_id()),
    {
        gl.delete(ObjectKind::Renderbuffer, self.id);
    }
}

pub struct Framebuffer {
    id: u32,
}

impl Framebuffer {
    /// The handle this wrapper owns.
    pub closed spec fn spec_id(&self) -> u32 {
        self.id
    }

    /// Allocate one framebuffer object; fails exactly when the driver cannot.
    pub fn generate(gl: &mut GlContext) -> (r: Result<Framebuffer, GLError>)
        ensures
            can_alloc(*old(gl)) ==> {
                &&& r matches Ok(f) && f.spec_id() == old(gl).next_id
                &&& alloc_issued(*old(gl), *final(gl), ObjectKind::Framebuffer)
            },
            !can_alloc(*old(gl)) ==> {
                &&& r == Err::<Framebuffer, GLError>(GLError(OUT_OF_MEMORY))
                &&& alloc_failed(*old(gl), *final(gl))
            },
    {
        match gl.try_create(ObjectKind::Framebuffer) {
            Some(id) => Ok(Framebuffer { id }),
            None => Err(crate::gl::to_gl_err(gl)),
        }
    }

    pub fn id(&self) -> (i: u32)
        ensures
            i == self.spec_id(),
    {
        self.id
    }

    /// Release the owned handle.
    pub fn delete(self, gl: &mut GlContext)
        ensures
            delete_issued(*old(gl), *final(gl), ObjectKind::Framebuffer, self.spec_id()),
    {
        gl.delete(ObjectKind::Framebuffer, self.id);
    }
}

/// The sample count the negotiation settles on for a driver whose highest
/// accepted count is `max`: the first of 16, 8, 4, 2 the driver accepts.
pub open spec fn msaa_result(max: i32) -> Option<i32> {
    if max >= 16 {
        Some(16)
    } else if max >= 8 {
        Some(8)
    } else if max >= 4 {
        Some(4)
    } else if max >= 2 {
        Some(2)
    } else {
        None
    }
}

/// The commands one storage attempt issues: clear the error state, ask for
/// storage, read the error state back.
pub open spec fn msaa_attempt_log(
    target: u32,
    internalformat: u32,
    width: i32,
    height: i32,
    samples: i32,
) -> Seq<GlCall> {
    seq![
        GlCall::GetError,
        GlCall::RenderbufferStorageMultisample(target, samples, internalformat, width, height),
        GlCall::GetError,
    ]
}

/// The commands the whole negotiation issues: one attempt per rejected
/// count, then the accepted one (or all four when none is accepted).
pub open spec fn msaa_log(
    target: u32,
    internalformat: u32,
    width: i32,
    height: i32,
    max: i32,
) -> Seq<GlCall> {
    let a16 = msaa_attempt_log(target, internalformat, width, height, 16);
    let a8 = msaa_attempt_log(target, internalformat, width, height, 8);
    let a4 = msaa_attempt_log(target, internalformat, width, height, 4);
    let a2 = msaa_attempt_log(target, internalformat, width, height, 2);
    if max >= 16 {
        a16
    } else if max >= 8 {
        a16 + a8
    } else if max >= 4 {
        a16 + a8 + a4
    } else {
        a16 + a8 + a4 + a2
    }
}

impl GlContext {
    /// Issue a multisample storage command.  The driver accepts it exactly
    /// when `samples` does not exceed its highest supported count; a
    /// rejected command leaves an invalid-operation error pending.
    pub fn renderbuffer_storage_multisample(
        &mut self,
        target: u32,
        samples: i32,
        internalformat: u32,
        width: i32,
        height: i32,
    )
        ensures
            final(self).log@ == old(self).log@.push(
                GlCall::RenderbufferStorageMultisample(
                    target, samples, internalformat, width, height)),
            final(self).error == if samples <= old(self).max_samples {
                old(self).error
            } else {
                INVALID_OPERATION
            },
            same_bindings(*old(self), *final(self)),
            same_config(*old(self), *final(self)),
            same_objects(*old(self), *final(self)),
            same_diagnostics(*old(self), *final(self)),
    {
        self.log.push(GlCall::RenderbufferStorageMultisample(
            target, samples, internalformat, width, height));
        if samples > self.max_samples {
            self.error = INVALID_OPERATION;
        }
    }
}

/// One attempt of the negotiation: clear the pending error, ask for storage
/// with the given sample count, and report whether the driver accepted it.
fn msaa_attempt(
    gl: &mut GlContext,
    target: u32,
    samples: i32,
    internalformat: u32,
    width: i32,
    height: i32,
) -> (ok: bool)
    ensures
        ok == (samples <= old(gl).max_samples),
        final(gl).log@ == old(gl).log@
            + msaa_attempt_log(target, internalformat, width, height, samples),
        final(gl).error == NO_ERROR,
        same_bindings(*old(gl), *final(gl)),
        same_config(*old(gl), *final(gl)),
        same_objects(*old(gl), *final(gl)),
        same_diagnostics(*old(gl), *final(gl)),
{
    gl.get_error();
    gl.renderbuffer_storage_multisample(target, samples, internalformat, width, height);
    let err = gl.get_error();
    assert(gl.log@ =~= old(gl).log@
        + msaa_attempt_log(target, internalformat, width, height, samples));
    err == NO_ERROR
}

/// Negotiate a supported multisample sample count: try 16, 8, 4, 2 in that
/// order, clearing the error state before each attempt, and return the
/// first count the driver accepts without error, or `None` when none is
/// accepted.
pub fn try_renderbuffer_storage_multisample(
    gl: &mut GlContext,
    target: u32,
    internalformat: u32,
    width: i32,
    height: i32,
) -> (r: Option<i32>)
    ensures
        r == msaa_result(old(gl).max_samples),
        final(gl).log@ == old(gl).log@
            + msaa_log(target, internalformat, width, height, old(gl).max_samples),
        final(gl).error == NO_ERROR,
        same_bindings(*old(gl), *final(gl)),
        same_config(*old(gl), *final(gl)),
        same_objects(*old(gl), *final(gl)),
        same_diagnostics(*old(gl), *final(gl)),
{
    if msaa_attempt(gl, target, 16, internalformat, width, height) {
        return Some(16);
    }
    if msaa_attempt(gl, target, 8, internalformat, width, height) {
        assert(gl.log@ =~= old(gl).log@
            + msaa_log(target, internalformat, width, height, old(gl).max_samples));
        return Some(8);
    }
    if msaa_attempt(gl, target, 4, internalformat, width, height) {
        assert(gl.log@ =~= old(gl).log@
            + msaa_log(target, internalformat, width, height, old(gl).max_samples));
        return Some(4);
    }
    if msaa_attempt(gl, target, 2, internalformat, width, height) {
        assert(gl.log@ =~= old(gl).log@
            + msaa_log(target, internalformat, width, height, old(gl).max_samples));
        return Some(2);
    }
    assert(gl.log@ =~= old(gl).log@
        + msaa_log(target, internalformat, width, height, old(gl).max_samples));
    None
}

} // verus!
