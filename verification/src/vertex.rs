//! The dynamic vertex array: an owned, resizable, dirty-tracked client-side
//! buffer of typed vertex records mirrored into GPU memory.
//!
//! The GPU mirror is uploaded lazily, when the array is bound for a draw:
//! nothing is uploaded while the array is clean; a dirty array that did not
//! grow past the last upload is updated in place with a sub-range upload,
//! keeping the GPU allocation; only a dirty array that grew is reallocated.
//! Reallocating every frame would be wasteful when the record count is
//! stable or shrinking, and a full reallocation is only unavoidable on
//! growth.

use vstd::prelude::*;
use crate::GLError;
use crate::gl::{
    GlContext, GlCall, command_frame, ARRAY_BUFFER, DYNAMIC_DRAW, OUT_OF_MEMORY,
};
use crate::guards::{AttribBindings, EnablerVertexAttribArray};
use crate::attrib::{
    AttribProvider, AttribProviderList, attrib_ptr_cmds, attrib_slot_seq, lemma_push_to_set,
};
use crate::program::{Program, Attribute};
use crate::resource::{Buffer, can_alloc, alloc_issued, alloc_failed};
use crate::gl::ObjectKind;

verus! {

/// An owned, growable sequence of fixed-layout vertex records of type `A`,
/// with a backing GPU buffer, the last-uploaded record count and a dirty
/// flag.  Whenever the array is clean, the head of the GPU mirror equals
/// the local record sequence.
pub struct DynamicVertexArray<A> {
    data: Vec<A>,
    buf: Buffer,
    buf_len: usize,
    dirty: bool,
    gpu: Ghost<Seq<A>>,
}

impl<A: AttribProvider> DynamicVertexArray<A> {
    /// The local record sequence.
    pub closed spec fn spec_data(&self) -> Seq<A> {
        self.data@
    }

    /// Whether the local sequence differs from what was last uploaded.
    pub closed spec fn spec_dirty(&self) -> bool {
        self.dirty
    }

    /// The record count of the current GPU allocation.
    pub closed spec fn spec_buf_len(&self) -> usize {
        self.buf_len
    }

    /// The backing buffer handle.
    pub closed spec fn spec_buf_id(&self) -> u32 {
        self.buf.spec_id()
    }

    /// The model of the GPU buffer contents.
    pub closed spec fn spec_gpu(&self) -> Seq<A> {
        self.gpu@
    }

    /// The backing buffer handle.
    pub fn buf_id(&self) -> (i: u32)
        ensures
            i == self.spec_buf_id(),
    {
        self.buf.id()
    }

    /// Whether the local sequence differs from what was last uploaded.
    pub fn dirty(&self) -> (d: bool)
        ensures
            d == self.spec_dirty(),
    {
        self.dirty
    }

    /// Well-formedness: the GPU mirror is exactly the current allocation,
    /// byte sizes fit the machine, and a clean array's records are the head
    /// of the mirror.
    pub closed spec fn wf(&self) -> bool {
        &&& self.gpu@.len() == self.buf_len
        &&& self.data@.len() * A::spec_record_bytes() <= usize::MAX
        &&& self.buf_len * A::spec_record_bytes() <= usize::MAX
        &&& !self.dirty ==> {
            &&& self.buf_len >= self.data@.len()
            &&& self.gpu@.subrange(0, self.data@.len() as int) == self.data@
        }
    }

    /// An empty array with a fresh backing buffer; dirty, so the first
    /// bind uploads.  Fails exactly when the driver cannot allocate.
    pub fn new(gl: &mut GlContext) -> (r: Result<Self, GLError>)
        ensures
            can_alloc(*old(gl)) ==> {
                &&& r matches Ok(v) && {
                    &&& v.wf()
                    &&& v.spec_data() == Seq::<A>::empty()
                    &&& v.spec_dirty()
                    &&& v.spec_buf_len() == 0
                    &&& v.spec_buf_id() == old(gl).next_id
                }
                &&& alloc_issued(*old(gl), *final(gl), ObjectKind::Buffer)
            },
            !can_alloc(*old(gl)) ==> {
                &&& r matches Err(e) && e == GLError(OUT_OF_MEMORY)
                &&& alloc_failed(*old(gl), *final(gl))
            },
    {
        let data: Vec<A> = Vec::new();
        proof {
            assert(data@.len() * A::spec_record_bytes() == 0) by (nonlinear_arith)
                requires data@.len() == 0;
        }
        Self::from_data(gl, data)
    }

    /// An array holding `data`, with a fresh backing buffer; dirty, so the
    /// first bind uploads.  Fails exactly when the driver cannot allocate.
    pub fn from_data(gl: &mut GlContext, data: Vec<A>) -> (r: Result<Self, GLError>)
        requires
            data@.len() * A::spec_record_bytes() <= usize::MAX,
        ensures
            can_alloc(*old(gl)) ==> {
                &&& r matches Ok(v) && {
                    &&& v.wf()
                    &&& v.spec_data() == data@
                    &&& v.spec_dirty()
                    &&& v.spec_buf_len() == 0
                    &&& v.spec_buf_id() == old(gl).next_id
                }
                &&& alloc_issued(*old(gl), *final(gl), ObjectKind::Buffer)
            },
            !can_alloc(*old(gl)) ==> {
                &&& r matches Err(e) && e == GLError(OUT_OF_MEMORY)
                &&& alloc_failed(*old(gl), *final(gl))
            },
    {
        let buf = match Buffer::generate(gl) {
            Ok(b) => b,
            Err(e) => {
                return Err(e);
            },
        };
        Ok(DynamicVertexArray {
            data,
            buf,
            buf_len: 0,
            dirty: true,
            gpu: Ghost(Seq::empty()),
        })
    }

    /// How many records the array holds.
    pub fn len(&self) -> (n: usize)
        ensures
            n == self.spec_data().len(),
    {
        self.data.len()
    }

    /// Replace the entire contents; the array becomes dirty.
    pub fn set(&mut self, data: Vec<A>)
        requires
            old(self).wf(),
            data@.len() * A::spec_record_bytes() <= usize::MAX,
        ensures
            final(self).wf(),
            final(self).spec_data() == data@,
            final(self).spec_dirty(),
            final(self).spec_buf_len() == old(self).spec_buf_len(),
            final(self).spec_buf_id() == old(self).spec_buf_id(),
            final(self).spec_gpu() == old(self).spec_gpu(),
    {
        self.dirty = true;
        self.data = data;
    }

    /// The records, as a slice.
    pub fn data(&self) -> (s: &[A])
        ensures
            s@ == self.spec_data(),
    {
        self.data.as_slice()
    }

    /// Read one record; no side effect.
    pub fn index(&self, i: usize) -> (r: &A)
        requires
            i < self.spec_data().len(),
        ensures
            *r == self.spec_data()[i as int],
    {
        &self.data[i]
    }

    /// Write one record; the array becomes dirty, whatever was written.
    pub fn set_at(&mut self, i: usize, value: A)
        requires
            old(self).wf(),
            i < old(self).spec_data().len(),
        ensures
            final(self).wf(),
            final(self).spec_data() == old(self).spec_data().update(i as int, value),
            final(self).spec_dirty(),
            final(self).spec_buf_len() == old(self).spec_buf_len(),
            final(self).spec_buf_id() == old(self).spec_buf_id(),
            final(self).spec_gpu() == old(self).spec_gpu(),
    {
        self.dirty = true;
        let slot = &mut self.data[i];
        *slot = value;
    }

    /// A view of a contiguous sub-range of the records, usable wherever the
    /// whole array is usable for draw binding once the array is clean (for
    /// a possibly-dirty array, `Program::draw_range` flushes and draws a
    /// sub-range in one call).
    pub fn sub(&self, start: usize, end: usize) -> (s: DynamicVertexArraySub<'_, A>)
        requires
            start <= end <= self.spec_data().len(),
        ensures
            s.spec_array() == *self,
            s.spec_start() == start,
            s.spec_count() == end - start,
    {
        DynamicVertexArraySub {
            array: self,
            start,
            count: end - start,
        }
    }

    /// Flush the records to GPU memory as part of binding for a draw.  An
    /// empty array does nothing at all; a clean array only binds the
    /// buffer; a dirty one that did not grow past the last upload is
    /// updated in place; a dirty one that grew is reallocated.
    pub fn bind_buffer(&mut self, gl: &mut GlContext)
        requires
            old(self).wf(),
        ensures
            final(self).wf(),
            final(self).spec_data() == old(self).spec_data(),
            final(self).spec_buf_id() == old(self).spec_buf_id(),
            old(self).spec_data().len() == 0 ==> {
                &&& *final(self) == *old(self)
                &&& *final(gl) == *old(gl)
            },
            old(self).spec_data().len() > 0 ==> {
                &&& *final(self) == old(self).after_flush()
                &&& final(gl).log@ == old(gl).log@ + bind_buffer_log(*old(self))
                &&& final(gl).array_buffer == old(self).spec_buf_id()
                &&& !final(self).spec_dirty()
                &&& final(self).spec_buf_len() == if old(self).spec_dirty()
                        && old(self).spec_data().len() > old(self).spec_buf_len() {
                    old(self).spec_data().len()
                } else {
                    old(self).spec_buf_len() as nat
                }
                &&& final(self).spec_gpu() == if !old(self).spec_dirty() {
                    old(self).spec_gpu()
                } else if old(self).spec_data().len() > old(self).spec_buf_len() {
                    old(self).spec_data()
                } else {
                    old(self).spec_data()
                        + old(self).spec_gpu().skip(old(self).spec_data().len() as int)
                }
                &&& final(gl).viewport == old(gl).viewport
                &&& final(gl).draw_framebuffer == old(gl).draw_framebuffer
                &&& final(gl).read_framebuffer == old(gl).read_framebuffer
                &&& final(gl).renderbuffer == old(gl).renderbuffer
                &&& final(gl).current_program == old(gl).current_program
                &&& final(gl).enabled@ == old(gl).enabled@
                &&& command_frame(*old(gl), *final(gl))
            },
    {
        if self.data.len() == 0 {
            return;
        }
        gl.bind_buffer(ARRAY_BUFFER, self.buf.id());
        if self.dirty {
            let stride = A::stride();
            let bytes = self.data.len() * stride;
            if self.data.len() > self.buf_len {
                gl.buffer_data(ARRAY_BUFFER, bytes, DYNAMIC_DRAW);
                self.buf_len = self.data.len();
                self.gpu = Ghost(self.data@);
            } else {
                gl.buffer_sub_data(ARRAY_BUFFER, 0, bytes);
                self.gpu = Ghost(self.data@ + self.gpu@.skip(self.data@.len() as int));
            }
            self.dirty = false;
            proof {
                assert(self.gpu@.subrange(0, self.data@.len() as int) =~= self.data@);
            }
        }
        proof {
            assert(gl.log@ =~= old(gl).log@ + bind_buffer_log(*old(self)));
        }
    }

    /// Flush pending records and bind a sub-range of them for a draw: the
    /// buffer is bound (uploading first when the array is dirty), and each
    /// matched attribute's slot is enabled and its pointer set with the
    /// range's base byte offset.  Unlike the borrowed sub-range view, this
    /// takes the array mutably and so can flush a dirty array itself.
    pub fn bind_range(&mut self, gl: &mut GlContext, p: &Program, start: usize)
        -> (k: AttribBindings)
        requires
            old(self).wf(),
            old(self).spec_data().len() > 0,
            start <= old(self).spec_data().len(),
            (start + 1) * A::spec_record_bytes() <= i32::MAX,
        ensures
            final(gl).log@ == old(gl).log@ + bind_buffer_log(*old(self))
                + attrib_ptr_cmds::<A>(
                    p.spec_attribs(), start * A::spec_record_bytes()),
            final(gl).enabled@ == old(gl).enabled@.union(
                attrib_slot_seq::<A>(p.spec_attribs()).to_set()),
            k.view() == attrib_slot_seq::<A>(p.spec_attribs()),
            *final(self) == old(self).after_flush(),
            final(gl).array_buffer == old(self).spec_buf_id(),
            final(gl).viewport == old(gl).viewport,
            final(gl).draw_framebuffer == old(gl).draw_framebuffer,
            final(gl).read_framebuffer == old(gl).read_framebuffer,
            final(gl).renderbuffer == old(gl).renderbuffer,
            final(gl).current_program == old(gl).current_program,
            command_frame(*old(gl), *final(gl)),
    {
        let ghost pre = *gl;
        self.bind_buffer(gl);
        let ghost mid = *gl;
        let ghost cat = p.spec_attribs();
        let stride = A::stride();
        proof {
            assert((start + 1) * A::spec_record_bytes()
                == start * A::spec_record_bytes() + A::spec_record_bytes())
                by (nonlinear_arith);
            assert(A::spec_record_bytes() * start
                == start * A::spec_record_bytes()) by (nonlinear_arith);
            assert(stride * start <= i32::MAX);
        }
        let base = stride * start;
        proof {
            assert(base == start * A::spec_record_bytes());
        }
        let mut vas = AttribBindings::new();
        proof {
            A::fields_wf();
            assert(cat.take(0) =~= Seq::<Attribute>::empty());
            assert(mid.log@ + Seq::<GlCall>::empty() =~= mid.log@);
            assert(Seq::<u32>::empty().to_set() =~= Set::<u32>::empty());
            assert(mid.enabled@.union(Set::<u32>::empty()) =~= mid.enabled@);
        }
        let n = p.attrib_count();
        for i in 0..n
            invariant
                n == p.spec_attribs().len(),
                cat == p.spec_attribs(),
                stride == A::spec_record_bytes(),
                base == start * A::spec_record_bytes(),
                base + A::spec_record_bytes() <= i32::MAX,
                gl.log@ == mid.log@ + attrib_ptr_cmds::<A>(cat.take(i as int), base as int),
                gl.enabled@ == mid.enabled@.union(
                    attrib_slot_seq::<A>(cat.take(i as int)).to_set()),
                vas.view() == attrib_slot_seq::<A>(cat.take(i as int)),
                gl.viewport == mid.viewport,
                gl.draw_framebuffer == mid.draw_framebuffer,
                gl.read_framebuffer == mid.read_framebuffer,
                gl.renderbuffer == mid.renderbuffer,
                gl.array_buffer == mid.array_buffer,
                gl.current_program == mid.current_program,
                command_frame(mid, *gl),
                *self == old(self).after_flush(),
        {
            let a = p.attrib_at(i);
            proof {
                assert(cat.take(i + 1).drop_last() =~= cat.take(i as int));
                assert(cat.take(i + 1).last() == cat[i as int]);
                crate::attrib::lemma_matched_field_bounds::<A>(a.name@);
            }
            match A::apply(a) {
                Some((size, ty, offs)) => {
                    let loc = a.location();
                    let e = EnablerVertexAttribArray::enable(gl, loc);
                    vas.push(e);
                    let offset = offs + base;
                    gl.vertex_attrib_pointer(
                        loc,
                        size as i32,
                        ty,
                        false,
                        stride as i32,
                        offset as i32,
                    );
                    proof {
                        lemma_push_to_set(attrib_slot_seq::<A>(cat.take(i as int)), loc);
                        assert(gl.log@ =~= mid.log@
                            + attrib_ptr_cmds::<A>(cat.take(i + 1), base as int));
                        assert(gl.enabled@ =~= mid.enabled@.union(
                            attrib_slot_seq::<A>(cat.take(i + 1)).to_set()));
                    }
                },
                None => {
                    proof {
                        assert(attrib_ptr_cmds::<A>(cat.take(i + 1), base as int)
                            =~= attrib_ptr_cmds::<A>(cat.take(i as int), base as int));
                        assert(attrib_slot_seq::<A>(cat.take(i + 1))
                            =~= attrib_slot_seq::<A>(cat.take(i as int)));
                    }
                },
            }
        }
        proof {
            assert(cat.take(n as int) =~= cat);
            assert(gl.log@ =~= pre.log@ + bind_buffer_log(*old(self))
                + attrib_ptr_cmds::<A>(cat, start * A::spec_record_bytes()));
        }
        vas
    }

    /// Release the array: delete the backing GPU buffer.
    pub fn delete(self, gl: &mut GlContext)
        ensures
            final(gl).log@ == old(gl).log@.push(
                GlCall::Delete(ObjectKind::Buffer, self.spec_buf_id())),
            final(gl).error == old(gl).error,
            crate::gl::same_bindings(*old(gl), *final(gl)),
            crate::gl::same_config(*old(gl), *final(gl)),
            crate::gl::same_objects(*old(gl), *final(gl)),
            crate::gl::same_diagnostics(*old(gl), *final(gl)),
    {
        self.buf.delete(gl);
    }
}

/// Law: writing a record through an indexed write and then reading the
/// same index returns the written value, and the write leaves the array
/// dirty (and it stays dirty until the next flush: only `bind_buffer`
/// clears the flag, per its contract).  `post` is the array as `set_at`
/// leaves it, per its contract.
pub proof fn lemma_indexed_write_round_trip<A: AttribProvider>(
    pre: DynamicVertexArray<A>,
    post: DynamicVertexArray<A>,
    i: int,
    x: A,
)
    requires
        0 <= i < pre.spec_data().len(),
        post.spec_data() == pre.spec_data().update(i, x),
        post.spec_dirty(),
    ensures
        post.spec_data()[i] == x,
        post.spec_dirty(),
        forall|j: int| 0 <= j < pre.spec_data().len() && j != i ==>
            post.spec_data()[j] == pre.spec_data()[j],
{
}

/// The buffer commands one bind of `v` issues.
pub open spec fn bind_buffer_log<A: AttribProvider>(v: DynamicVertexArray<A>) -> Seq<GlCall> {
    let bind = seq![GlCall::BindBuffer(ARRAY_BUFFER, v.spec_buf_id())];
    let bytes = (v.spec_data().len() * A::spec_record_bytes()) as usize;
    if v.spec_data().len() == 0 {
        Seq::empty()
    } else if !v.spec_dirty() {
        bind
    } else if v.spec_data().len() > v.spec_buf_len() {
        bind + seq![GlCall::BufferData(ARRAY_BUFFER, bytes, DYNAMIC_DRAW)]
    } else {
        bind + seq![GlCall::BufferSubData(ARRAY_BUFFER, 0, bytes)]
    }
}

impl<A: AttribProvider> AttribProviderList for DynamicVertexArray<A> {
    type KeepType = AttribBindings;

    open spec fn spec_len(&self) -> int {
        self.spec_data().len() as int
    }

    open spec fn bind_requires(&self, p: Program) -> bool {
        self.wf()
    }

    open spec fn bind_log(&self, p: Program) -> Seq<GlCall> {
        bind_buffer_log(*self) + attrib_ptr_cmds::<A>(p.spec_attribs(), 0)
    }

    open spec fn bind_slots(&self, p: Program) -> Seq<u32> {
        attrib_slot_seq::<A>(p.spec_attribs())
    }

    open spec fn after_bind(&self) -> Self {
        if self.spec_data().len() == 0 {
            *self
        } else {
            self.after_flush()
        }
    }

    open spec fn post_array_buffer(&self, pre: u32) -> u32 {
        if self.spec_data().len() == 0 {
            pre
        } else {
            self.spec_buf_id()
        }
    }

    open spec fn keep_slots(k: &AttribBindings) -> Seq<u32> {
        k.view()
    }

    fn len(&self) -> usize {
        self.data.len()
    }

    fn is_empty(&self) -> bool {
        self.data.len() == 0
    }

    fn bind(&mut self, gl: &mut GlContext, p: &Program) -> (k: AttribBindings) {
        let ghost pre = *gl;
        self.bind_buffer(gl);
        let ghost mid = *gl;
        let ghost cat = p.spec_attribs();
        let mut vas = AttribBindings::new();
        let stride = A::stride();
        proof {
            A::fields_wf();
            assert(cat.take(0) =~= Seq::<Attribute>::empty());
            assert(mid.log@ + Seq::<GlCall>::empty() =~= mid.log@);
            assert(Seq::<u32>::empty().to_set() =~= Set::<u32>::empty());
            assert(mid.enabled@.union(Set::<u32>::empty()) =~= mid.enabled@);
        }
        let n = p.attrib_count();
        for i in 0..n
            invariant
                n == p.spec_attribs().len(),
                cat == p.spec_attribs(),
                stride == A::spec_record_bytes(),
                gl.log@ == mid.log@ + attrib_ptr_cmds::<A>(cat.take(i as int), 0),
                gl.enabled@ == mid.enabled@.union(
                    attrib_slot_seq::<A>(cat.take(i as int)).to_set()),
                vas.view() == attrib_slot_seq::<A>(cat.take(i as int)),
                gl.viewport == mid.viewport,
                gl.draw_framebuffer == mid.draw_framebuffer,
                gl.read_framebuffer == mid.read_framebuffer,
                gl.renderbuffer == mid.renderbuffer,
                gl.array_buffer == mid.array_buffer,
                gl.current_program == mid.current_program,
                command_frame(mid, *gl),
                *self == old(self).after_bind(),
        {
            let a = p.attrib_at(i);
            proof {
                assert(cat.take(i + 1).drop_last() =~= cat.take(i as int));
                assert(cat.take(i + 1).last() == cat[i as int]);
                crate::attrib::lemma_matched_field_bounds::<A>(a.name@);
            }
            match A::apply(a) {
                Some((size, ty, offs)) => {
                    let loc = a.location();
                    let e = EnablerVertexAttribArray::enable(gl, loc);
                    vas.push(e);
                    gl.vertex_attrib_pointer(
                        loc,
                        size as i32,
                        ty,
                        false,
                        stride as i32,
                        offs as i32,
                    );
                    proof {
                        lemma_push_to_set(attrib_slot_seq::<A>(cat.take(i as int)), loc);
                        assert(gl.log@ =~= mid.log@
                            + attrib_ptr_cmds::<A>(cat.take(i + 1), 0));
                        assert(gl.enabled@ =~= mid.enabled@.union(
                            attrib_slot_seq::<A>(cat.take(i + 1)).to_set()));
                    }
                },
                None => {
                    proof {
                        assert(attrib_ptr_cmds::<A>(cat.take(i + 1), 0)
                            =~= attrib_ptr_cmds::<A>(cat.take(i as int), 0));
                        assert(attrib_slot_seq::<A>(cat.take(i + 1))
                            =~= attrib_slot_seq::<A>(cat.take(i as int)));
                    }
                },
            }
        }
        proof {
            assert(cat.take(n as int) =~= cat);
            assert(gl.log@ =~= pre.log@ + old(self).bind_log(*p));
        }
        vas
    }

    fn unbind(gl: &mut GlContext, k: AttribBindings) {
        k.release(gl);
    }
}

impl<A: AttribProvider> DynamicVertexArray<A> {
    /// The array as a flush (a bind of a non-empty array) leaves it: clean,
    /// with the GPU mirror brought up to date.
    pub closed spec fn after_flush(&self) -> Self {
        DynamicVertexArray {
            data: self.data,
            buf: self.buf,
            buf_len: if self.dirty && self.data@.len() > self.buf_len {
                self.data@.len() as usize
            } else {
                self.buf_len
            },
            dirty: false,
            gpu: if !self.dirty {
                Ghost(self.gpu@)
            } else if self.data@.len() > self.buf_len {
                Ghost(self.data@)
            } else {
                Ghost(self.data@ + self.gpu@.skip(self.data@.len() as int))
            },
        }
    }
}

/// What a flush leaves behind, for callers of the draw entry points whose
/// contracts hand the array back as `after_flush`: the records and the
/// backing buffer are untouched, the array is clean, the allocation grew
/// exactly when the records outgrew it, the GPU mirror is brought up to
/// date, and well-formedness is preserved.
pub proof fn lemma_after_flush_props<A: AttribProvider>(v: DynamicVertexArray<A>)
    requires
        v.wf(),
    ensures
        v.after_flush().spec_data() == v.spec_data(),
        v.after_flush().spec_buf_id() == v.spec_buf_id(),
        !v.after_flush().spec_dirty(),
        v.after_flush().spec_buf_len() == if v.spec_dirty()
                && v.spec_data().len() > v.spec_buf_len() {
            v.spec_data().len()
        } else {
            v.spec_buf_len() as nat
        },
        v.after_flush().spec_gpu() == if !v.spec_dirty() {
            v.spec_gpu()
        } else if v.spec_data().len() > v.spec_buf_len() {
            v.spec_data()
        } else {
            v.spec_data() + v.spec_gpu().skip(v.spec_data().len() as int)
        },
        v.after_flush().wf(),
{
    A::fields_wf();
    assert(v.spec_data().len() <= usize::MAX) by (nonlinear_arith)
        requires
            v.spec_data().len() * A::spec_record_bytes() <= usize::MAX,
            A::spec_record_bytes() >= 1,
    ;
    assert(v.after_flush().spec_gpu().subrange(0, v.spec_data().len() as int)
        =~= v.spec_data());
}

/// A view of a contiguous sub-range of a dynamic vertex array: binds the
/// same underlying buffer but reports only the sub-range's length, and
/// shifts every attribute's base offset by the range start.  The backing
/// array must already be flushed (clean) when the view is bound, since the
/// view only borrows it; to draw a sub-range of an array that may still be
/// dirty, use `Program::draw_range`, which flushes first.
pub struct DynamicVertexArraySub<'a, A> {
    array: &'a DynamicVertexArray<A>,
    start: usize,
    count: usize,
}

impl<'a, A: AttribProvider> DynamicVertexArraySub<'a, A> {
    /// The backing array.
    pub closed spec fn spec_array(&self) -> DynamicVertexArray<A> {
        *self.array
    }

    /// The first record of the range.
    pub closed spec fn spec_start(&self) -> usize {
        self.start
    }

    /// How many records the range holds.
    pub closed spec fn spec_count(&self) -> usize {
        self.count
    }
}

impl<'a, A: AttribProvider> AttribProviderList for DynamicVertexArraySub<'a, A> {
    type KeepType = AttribBindings;

    open spec fn spec_len(&self) -> int {
        self.spec_count() as int
    }

    open spec fn bind_requires(&self, p: Program) -> bool {
        &&& self.spec_array().wf()
        &&& !self.spec_array().spec_dirty()
        &&& self.spec_start() + self.spec_count() <= self.spec_array().spec_data().len()
        &&& (self.spec_start() + 1) * A::spec_record_bytes() <= i32::MAX
    }

    open spec fn bind_log(&self, p: Program) -> Seq<GlCall> {
        seq![GlCall::BindBuffer(ARRAY_BUFFER, self.spec_array().spec_buf_id())]
            + attrib_ptr_cmds::<A>(
                p.spec_attribs(),
                self.spec_start() * A::spec_record_bytes(),
            )
    }

    open spec fn bind_slots(&self, p: Program) -> Seq<u32> {
        attrib_slot_seq::<A>(p.spec_attribs())
    }

    open spec fn after_bind(&self) -> Self {
        *self
    }

    open spec fn post_array_buffer(&self, pre: u32) -> u32 {
        self.spec_array().spec_buf_id()
    }

    open spec fn keep_slots(k: &AttribBindings) -> Seq<u32> {
        k.view()
    }

    fn len(&self) -> usize {
        self.count
    }

    fn is_empty(&self) -> bool {
        self.count == 0
    }

    fn bind(&mut self, gl: &mut GlContext, p: &Program) -> (k: AttribBindings) {
        let ghost pre = *gl;
        gl.bind_buffer(ARRAY_BUFFER, self.array.buf_id());
        let ghost mid = *gl;
        let ghost cat = p.spec_attribs();
        let stride = A::stride();
        proof {
            assert(old(self).bind_requires(*p));
            assert((self.spec_start() + 1) * A::spec_record_bytes() <= i32::MAX);
            assert((self.spec_start() + 1) * A::spec_record_bytes()
                == self.spec_start() * A::spec_record_bytes() + A::spec_record_bytes())
                by (nonlinear_arith);
            assert(self.spec_start() * A::spec_record_bytes() + A::spec_record_bytes()
                <= i32::MAX);
            assert(stride == A::spec_record_bytes());
            assert(self.start == self.spec_start());
            assert(A::spec_record_bytes() * self.spec_start()
                == self.spec_start() * A::spec_record_bytes()) by (nonlinear_arith);
            assert(stride * self.start <= i32::MAX);
        }
        let base = stride * self.start;
        proof {
            assert(base == self.spec_start() * A::spec_record_bytes());
        }
        let mut vas = AttribBindings::new();
        proof {
            A::fields_wf();
            assert(cat.take(0) =~= Seq::<Attribute>::empty());
            assert(mid.log@ + Seq::<GlCall>::empty() =~= mid.log@);
            assert(Seq::<u32>::empty().to_set() =~= Set::<u32>::empty());
            assert(mid.enabled@.union(Set::<u32>::empty()) =~= mid.enabled@);
        }
        let n = p.attrib_count();
        for i in 0..n
            invariant
                n == p.spec_attribs().len(),
                cat == p.spec_attribs(),
                stride == A::spec_record_bytes(),
                base == self.spec_start() * A::spec_record_bytes(),
                base + A::spec_record_bytes() <= i32::MAX,
                gl.log@ == mid.log@ + attrib_ptr_cmds::<A>(cat.take(i as int), base as int),
                gl.enabled@ == mid.enabled@.union(
                    attrib_slot_seq::<A>(cat.take(i as int)).to_set()),
                vas.view() == attrib_slot_seq::<A>(cat.take(i as int)),
                gl.viewport == mid.viewport,
                gl.draw_framebuffer == mid.draw_framebuffer,
                gl.read_framebuffer == mid.read_framebuffer,
                gl.renderbuffer == mid.renderbuffer,
                gl.array_buffer == mid.array_buffer,
                gl.current_program == mid.current_program,
                command_frame(mid, *gl),
                *self == *old(self),
        {
            let a = p.attrib_at(i);
            proof {
                assert(cat.take(i + 1).drop_last() =~= cat.take(i as int));
                assert(cat.take(i + 1).last() == cat[i as int]);
                crate::attrib::lemma_matched_field_bounds::<A>(a.name@);
            }
            match A::apply(a) {
                Some((size, ty, offs)) => {
                    let loc = a.location();
                    let e = EnablerVertexAttribArray::enable(gl, loc);
                    vas.push(e);
                    let offset = offs + base;
                    gl.vertex_attrib_pointer(
                        loc,
                        size as i32,
                        ty,
                        false,
                        stride as i32,
                        offset as i32,
                    );
                    proof {
                        lemma_push_to_set(attrib_slot_seq::<A>(cat.take(i as int)), loc);
                        assert(gl.log@ =~= mid.log@
                            + attrib_ptr_cmds::<A>(cat.take(i + 1), base as int));
                        assert(gl.enabled@ =~= mid.enabled@.union(
                            attrib_slot_seq::<A>(cat.take(i + 1)).to_set()));
                    }
                },
                None => {
                    proof {
                        assert(attrib_ptr_cmds::<A>(cat.take(i + 1), base as int)
                            =~= attrib_ptr_cmds::<A>(cat.take(i as int), base as int));
                        assert(attrib_slot_seq::<A>(cat.take(i + 1))
                            =~= attrib_slot_seq::<A>(cat.take(i as int)));
                    }
                },
            }
        }
        proof {
            assert(cat.take(n as int) =~= cat);
            assert(gl.log@ =~= pre.log@ + old(self).bind_log(*p));
        }
        vas
    }

    fn unbind(gl: &mut GlContext, k: AttribBindings) {
        k.release(gl);
    }
}

} // verus!
