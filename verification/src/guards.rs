//! Scoped state guards.
//!
//! GPU machine state is global and mutation-based: every "set" must be paired
//! with a "restore" or state leaks across unrelated rendering code.  Each
//! guard captures a piece of machine state at construction and puts it back
//! when the guard is given up through its consuming restore call, so the
//! pairing is enforced structurally: a guard value that is never restored
//! cannot be dropped silently out of verified code, and restoring consumes
//! the guard so it restores exactly once.

use vstd::prelude::*;
use smallvec::SmallVec;
use crate::gl::{
    GlContext, GlCall, command_frame, fb_binding,
    DRAW_FRAMEBUFFER, READ_FRAMEBUFFER,
    DRAW_FRAMEBUFFER_BINDING, READ_FRAMEBUFFER_BINDING, RENDERBUFFER,
};
use crate::resource::{Framebuffer, Renderbuffer};

verus! {

/// The binding state other than the enabled-slot set is the same in `pre`
/// and `post`.
pub open spec fn same_other_bindings(pre: GlContext, post: GlContext) -> bool {
    &&& post.viewport == pre.viewport
    &&& post.draw_framebuffer == pre.draw_framebuffer
    &&& post.read_framebuffer == pre.read_framebuffer
    &&& post.renderbuffer == pre.renderbuffer
    &&& post.array_buffer == pre.array_buffer
    &&& post.current_program == pre.current_program
}

// ---------------------------------------------------------------------------
// Viewport guard
// ---------------------------------------------------------------------------

/// What a viewport command leaves behind.
pub open spec fn viewport_effect(
    pre: GlContext,
    post: GlContext,
    x: i32,
    y: i32,
    width: i32,
    height: i32,
) -> bool {
    &&& post.viewport == (x, y, width, height)
    &&& post.log@ == pre.log@.push(GlCall::Viewport(x, y, width, height))
    &&& post.draw_framebuffer == pre.draw_framebuffer
    &&& post.read_framebuffer == pre.read_framebuffer
    &&& post.renderbuffer == pre.renderbuffer
    &&& post.array_buffer == pre.array_buffer
    &&& post.current_program == pre.current_program
    &&& post.enabled@ == pre.enabled@
    &&& command_frame(pre, post)
}

/// Captures the viewport rectangle current at construction and reapplies it,
/// whatever was set in between, when the guard is restored.
pub struct PushViewport {
    prev: (i32, i32, i32, i32),
}

impl PushViewport {
    /// The rectangle captured at construction.
    pub closed spec fn spec_prev(&self) -> (i32, i32, i32, i32) {
        self.prev
    }

    /// Capture the current viewport without changing it.
    pub fn new(gl: &GlContext) -> (pv: PushViewport)
        ensures
            pv.spec_prev() == gl.viewport,
    {
        PushViewport { prev: gl.viewport }
    }

    /// Capture the current viewport, then set a new one immediately.
    pub fn push(gl: &mut GlContext, x: i32, y: i32, width: i32, height: i32) -> (pv: PushViewport)
        ensures
            pv.spec_prev() == old(gl).viewport,
            viewport_effect(*old(gl), *final(gl), x, y, width, height),
    {
        let pv = Self::new(gl);
        pv.viewport(gl, x, y, width, height);
        pv
    }

    /// Set the viewport while the guard is held.
    pub fn viewport(&self, gl: &mut GlContext, x: i32, y: i32, width: i32, height: i32)
        ensures
            viewport_effect(*old(gl), *final(gl), x, y, width, height),
    {
        gl.set_viewport(x, y, width, height);
    }

    /// Reapply the captured rectangle.
    pub fn restore(self, gl: &mut GlContext)
        ensures
            final(gl).viewport == self.spec_prev(),
            viewport_effect(
                *old(gl), *final(gl),
                self.spec_prev().0, self.spec_prev().1,
                self.spec_prev().2, self.spec_prev().3,
            ),
    {
        gl.set_viewport(self.prev.0, self.prev.1, self.prev.2, self.prev.3);
    }
}

/// Law: a viewport guard restores the exact pre-construction rectangle on
/// restore, no matter how the viewport was changed while the guard was held.
/// `capture` is any state the guard was constructed in and `restored` any
/// state its restore call produced.
pub proof fn lemma_viewport_guard_restores(
    capture: GlContext,
    restored: GlContext,
    g: PushViewport,
)
    requires
        g.spec_prev() == capture.viewport,
        restored.viewport == g.spec_prev(),
    ensures
        restored.viewport == capture.viewport,
{
}

// ---------------------------------------------------------------------------
// Framebuffer binder
// ---------------------------------------------------------------------------

/// What a bind-framebuffer command for `target` leaves behind.
pub open spec fn bind_framebuffer_effect(
    pre: GlContext,
    post: GlContext,
    target: u32,
    id: u32,
) -> bool {
    &&& post.log@ == pre.log@.push(GlCall::BindFramebuffer(target, id))
    &&& fb_binding(post, target) == id
    &&& (target == DRAW_FRAMEBUFFER ==> post.read_framebuffer == pre.read_framebuffer)
    &&& (target == READ_FRAMEBUFFER ==> post.draw_framebuffer == pre.draw_framebuffer)
    &&& post.viewport == pre.viewport
    &&& post.renderbuffer == pre.renderbuffer
    &&& post.array_buffer == pre.array_buffer
    &&& post.current_program == pre.current_program
    &&& post.enabled@ == pre.enabled@
    &&& command_frame(pre, post)
}

/// A marker naming one framebuffer target (draw or read) and the query
/// enumerant for its current binding.
pub trait BinderFBOTarget {
    /// The framebuffer target enumerant.
    spec fn spec_target() -> u32;

    /// The get-parameter enumerant for the target's current binding.
    spec fn spec_get_binding() -> u32;

    /// The target is one of the two framebuffer targets.
    proof fn target_valid()
        ensures
            Self::spec_target() == DRAW_FRAMEBUFFER || Self::spec_target() == READ_FRAMEBUFFER,
    ;

    fn target() -> (t: u32)
        ensures
            t == Self::spec_target(),
    ;

    fn get_binding() -> (b: u32)
        ensures
            b == Self::spec_get_binding(),
    ;
}

/// The draw framebuffer target.
pub struct BinderFBODraw;

impl BinderFBOTarget for BinderFBODraw {
    open spec fn spec_target() -> u32 {
        DRAW_FRAMEBUFFER
    }

    open spec fn spec_get_binding() -> u32 {
        DRAW_FRAMEBUFFER_BINDING
    }

    proof fn target_valid() {
    }

    fn target() -> u32 {
        DRAW_FRAMEBUFFER
    }

    fn get_binding() -> u32 {
        DRAW_FRAMEBUFFER_BINDING
    }
}

/// The read framebuffer target.
pub struct BinderFBORead;

impl BinderFBOTarget for BinderFBORead {
    open spec fn spec_target() -> u32 {
        READ_FRAMEBUFFER
    }

    open spec fn spec_get_binding() -> u32 {
        READ_FRAMEBUFFER_BINDING
    }

    proof fn target_valid() {
    }

    fn target() -> u32 {
        READ_FRAMEBUFFER
    }

    fn get_binding() -> u32 {
        READ_FRAMEBUFFER_BINDING
    }
}

/// Scoped framebuffer binding for one target.  Construction either captures
/// the currently bound framebuffer without changing it, or binds a given
/// framebuffer immediately (then the default framebuffer, handle 0, is what
/// restore puts back).  Restore rebinds the captured handle.
pub struct BinderFramebuffer<TGT: BinderFBOTarget> {
    prev: u32,
    _pd: core::marker::PhantomData<TGT>,
}

impl<TGT: BinderFBOTarget> BinderFramebuffer<TGT> {
    /// The framebuffer handle restore will rebind.
    pub closed spec fn spec_prev(&self) -> u32 {
        self.prev
    }

    /// Capture the framebuffer currently bound to the target, without
    /// changing it.
    pub fn new(gl: &GlContext) -> (b: Self)
        ensures
            b.spec_prev() == fb_binding(*gl, TGT::spec_target()),
    {
        proof {
            TGT::target_valid();
        }
        let t = TGT::target();
        let prev = if t == DRAW_FRAMEBUFFER {
            gl.draw_framebuffer
        } else {
            gl.read_framebuffer
        };
        BinderFramebuffer { prev, _pd: core::marker::PhantomData }
    }

    /// The target this binder serves.
    pub fn target(&self) -> (t: u32)
        ensures
            t == TGT::spec_target(),
    {
        TGT::target()
    }

    /// Bind a framebuffer immediately; restore will rebind the default
    /// framebuffer.
    pub fn bind(gl: &mut GlContext, fb: &Framebuffer) -> (b: Self)
        ensures
            b.spec_prev() == 0,
            bind_framebuffer_effect(*old(gl), *final(gl), TGT::spec_target(), fb.spec_id()),
    {
        proof {
            TGT::target_valid();
        }
        gl.bind_framebuffer(TGT::target(), fb.id());
        BinderFramebuffer { prev: 0, _pd: core::marker::PhantomData }
    }

    /// Bind another framebuffer while the guard is held.
    pub fn rebind(&self, gl: &mut GlContext, fb: &Framebuffer)
        ensures
            bind_framebuffer_effect(*old(gl), *final(gl), TGT::spec_target(), fb.spec_id()),
    {
        proof {
            TGT::target_valid();
        }
        gl.bind_framebuffer(TGT::target(), fb.id());
    }

    /// Rebind the captured framebuffer.
    pub fn restore(self, gl: &mut GlContext)
        ensures
            fb_binding(*final(gl), TGT::spec_target()) == self.spec_prev(),
            bind_framebuffer_effect(*old(gl), *final(gl), TGT::spec_target(), self.spec_prev()),
    {
        proof {
            TGT::target_valid();
        }
        gl.bind_framebuffer(TGT::target(), self.prev);
    }
}

pub type BinderDrawFramebuffer = BinderFramebuffer<BinderFBODraw>;

pub type BinderReadFramebuffer = BinderFramebuffer<BinderFBORead>;

/// Law: a framebuffer binder restores the exact binding current at
/// construction, no matter what was bound to the target while it was held.
pub proof fn lemma_framebuffer_guard_restores<TGT: BinderFBOTarget>(
    capture: GlContext,
    restored: GlContext,
    g: BinderFramebuffer<TGT>,
)
    requires
        g.spec_prev() == fb_binding(capture, TGT::spec_target()),
        fb_binding(restored, TGT::spec_target()) == g.spec_prev(),
    ensures
        fb_binding(restored, TGT::spec_target()) == fb_binding(capture, TGT::spec_target()),
{
}

// ---------------------------------------------------------------------------
// Renderbuffer binder
// ---------------------------------------------------------------------------

/// What a bind-renderbuffer command leaves behind.
pub open spec fn bind_renderbuffer_effect(pre: GlContext, post: GlContext, id: u32) -> bool {
    &&& post.log@ == pre.log@.push(GlCall::BindRenderbuffer(RENDERBUFFER, id))
    &&& post.renderbuffer == id
    &&& post.viewport == pre.viewport
    &&& post.draw_framebuffer == pre.draw_framebuffer
    &&& post.read_framebuffer == pre.read_framebuffer
    &&& post.array_buffer == pre.array_buffer
    &&& post.current_program == pre.current_program
    &&& post.enabled@ == pre.enabled@
    &&& command_frame(pre, post)
}

/// Scoped renderbuffer binding.  Deliberately asymmetric to the framebuffer
/// binder: release unbinds (restores to none), not to a previous value.
pub struct BinderRenderbuffer;

impl BinderRenderbuffer {
    /// Bind a renderbuffer to the renderbuffer target.
    pub fn bind(gl: &mut GlContext, rb: &Renderbuffer) -> (b: BinderRenderbuffer)
        ensures
            bind_renderbuffer_effect(*old(gl), *final(gl), rb.spec_id()),
    {
        gl.bind_renderbuffer(RENDERBUFFER, rb.id());
        BinderRenderbuffer
    }

    /// The renderbuffer target enumerant.
    pub fn target(&self) -> (t: u32)
        ensures
            t == RENDERBUFFER,
    {
        RENDERBUFFER
    }

    /// Bind another renderbuffer while the guard is held.
    pub fn rebind(&self, gl: &mut GlContext, rb: &Renderbuffer)
        ensures
            bind_renderbuffer_effect(*old(gl), *final(gl), rb.spec_id()),
    {
        gl.bind_renderbuffer(RENDERBUFFER, rb.id());
    }

    /// Unbind the renderbuffer target (restore to none, handle 0).
    pub fn release(self, gl: &mut GlContext)
        ensures
            bind_renderbuffer_effect(*old(gl), *final(gl), 0),
    {
        gl.bind_renderbuffer(RENDERBUFFER, 0);
    }
}

// ---------------------------------------------------------------------------
// Vertex-attribute slot guards
// ---------------------------------------------------------------------------

/// Enables one vertex-attribute slot at construction; releasing it disables
/// that exact slot.
pub struct EnablerVertexAttribArray {
    id: u32,
}

impl EnablerVertexAttribArray {
    /// The slot this guard enabled.
    pub closed spec fn spec_id(&self) -> u32 {
        self.id
    }

    /// Enable one vertex-attribute slot.
    pub fn enable(gl: &mut GlContext, id: u32) -> (e: EnablerVertexAttribArray)
        ensures
            e.spec_id() == id,
            final(gl).log@ == old(gl).log@.push(GlCall::EnableVertexAttribArray(id)),
            final(gl).enabled@ == old(gl).enabled@.insert(id),
            same_other_bindings(*old(gl), *final(gl)),
            command_frame(*old(gl), *final(gl)),
    {
        gl.enable_vertex_attrib_array(id);
        EnablerVertexAttribArray { id }
    }

    /// Disable the slot this guard enabled.
    pub fn release(self, gl: &mut GlContext)
        ensures
            final(gl).log@ == old(gl).log@.push(
                GlCall::DisableVertexAttribArray(self.spec_id())),
            final(gl).enabled@ == old(gl).enabled@.remove(self.spec_id()),
            same_other_bindings(*old(gl), *final(gl)),
            command_frame(*old(gl), *final(gl)),
    {
        gl.disable_vertex_attrib_array(self.id);
    }

    /// Hand the slot index over without disabling it; the caller takes on
    /// the disable obligation.
    pub fn into_id(self) -> (i: u32)
        ensures
            i == self.spec_id(),
    {
        self.id
    }
}

// The guards of one draw call are collected in a small inline vector sized
// for the common case of at most eight attributes, growing to the heap
// beyond that.

/// A small inline vector of slot indices, backed by `smallvec::SmallVec`
/// with inline room for the common case of at most eight attributes.
/// Verus cannot read the backing type, so the vector is held opaquely and
/// spoken of through [`slot_seq`] and the trusted accessors below.
#[verifier::external_body]
pub struct SlotVec {
    inner: SmallVec<[u32; 8]>,
}

/// The items a slot vector holds, oldest first.
pub uninterp spec fn slot_seq(v: SlotVec) -> Seq<u32>;

/// Relies on smallvec::SmallVec::new: constructs an empty vector.
#[verifier::external_body]
fn slots_new() -> (v: SlotVec)
    ensures
        slot_seq(v) == Seq::<u32>::empty(),
{
    SlotVec { inner: SmallVec::new() }
}

/// Relies on smallvec::SmallVec::push: appends one item at the end.
#[verifier::external_body]
fn slots_push(v: &mut SlotVec, x: u32)
    ensures
        slot_seq(*final(v)) == slot_seq(*old(v)).push(x),
{
    v.inner.push(x);
}

/// Relies on smallvec::SmallVec::pop: removes and returns the last item, or
/// returns nothing when the vector is empty.
#[verifier::external_body]
fn slots_pop(v: &mut SlotVec) -> (r: Option<u32>)
    ensures
        slot_seq(*old(v)).len() == 0 ==> {
            &&& r is None
            &&& slot_seq(*final(v)) == slot_seq(*old(v))
        },
        slot_seq(*old(v)).len() > 0 ==> {
            &&& r == Some(slot_seq(*old(v)).last())
            &&& slot_seq(*final(v)) == slot_seq(*old(v)).drop_last()
        },
{
    v.inner.pop()
}

/// Relies on smallvec::SmallVec::len: the number of items held.
#[verifier::external_body]
fn slots_len(v: &SlotVec) -> (n: usize)
    ensures
        n == slot_seq(*v).len(),
{
    v.inner.len()
}

/// The disable commands for `slots`, in order.
pub open spec fn disable_cmds(slots: Seq<u32>) -> Seq<GlCall> {
    slots.map_values(|s: u32| GlCall::DisableVertexAttribArray(s))
}

/// The slots enabled for one draw call, collected so they can be disabled
/// together, last enabled first, once the draw call has been issued.
pub struct AttribBindings {
    slots: SlotVec,
}

impl AttribBindings {
    /// The enabled slots this token holds, in order of enabling.
    pub closed spec fn view(&self) -> Seq<u32> {
        slot_seq(self.slots)
    }

    /// An empty token.
    pub fn new() -> (b: AttribBindings)
        ensures
            b.view() == Seq::<u32>::empty(),
    {
        AttribBindings { slots: slots_new() }
    }

    /// Take over one enabled-slot guard; its disable obligation now rests
    /// with this token.
    pub fn push(&mut self, e: EnablerVertexAttribArray)
        ensures
            final(self).view() == old(self).view().push(e.spec_id()),
    {
        slots_push(&mut self.slots, e.into_id());
    }

    /// How many slots the token holds.
    pub fn len(&self) -> (n: usize)
        ensures
            n == self.view().len(),
    {
        slots_len(&self.slots)
    }

    /// Disable every held slot, in reverse (LIFO) order of enabling.
    pub fn release(self, gl: &mut GlContext)
        ensures
            final(gl).log@ == old(gl).log@ + disable_cmds(self.view().reverse()),
            final(gl).enabled@ == old(gl).enabled@.difference(self.view().to_set()),
            same_other_bindings(*old(gl), *final(gl)),
            command_frame(*old(gl), *final(gl)),
    {
        let AttribBindings { slots } = self;
        let mut slots = slots;
        let ghost orig = slot_seq(slots);
        let ghost pre = *gl;
        let ghost mut k: int = orig.len() as int;
        proof {
            assert(orig.take(k) =~= orig);
            assert(orig.skip(k) =~= Seq::<u32>::empty());
            assert(disable_cmds(orig.skip(k).reverse()) =~= Seq::<GlCall>::empty());
            assert(pre.log@ + Seq::<GlCall>::empty() =~= pre.log@);
            assert(orig.skip(k).to_set() =~= Set::<u32>::empty());
            assert(pre.enabled@.difference(Set::<u32>::empty()) =~= pre.enabled@);
        }
        loop
            invariant
                0 <= k <= orig.len(),
                slot_seq(slots) == orig.take(k),
                gl.log@ == pre.log@ + disable_cmds(orig.skip(k).reverse()),
                gl.enabled@ == pre.enabled@.difference(orig.skip(k).to_set()),
                same_other_bindings(pre, *gl),
                command_frame(pre, *gl),
            ensures
                gl.log@ == pre.log@ + disable_cmds(orig.reverse()),
                gl.enabled@ == pre.enabled@.difference(orig.to_set()),
                same_other_bindings(pre, *gl),
                command_frame(pre, *gl),
            decreases k,
        {
            match slots_pop(&mut slots) {
                None => {
                    proof {
                        assert(orig.take(k).len() == 0);
                        assert(k == 0);
                        assert(orig.skip(0) =~= orig);
                    }
                    break;
                },
                Some(s) => {
                    proof {
                        assert(orig.take(k).len() == k);
                        assert(s == orig.take(k).last());
                        assert(orig.take(k).last() == orig[k - 1]);
                        assert(orig.take(k).drop_last() =~= orig.take(k - 1));
                    }
                    gl.disable_vertex_attrib_array(s);
                    proof {
                        lemma_skip_reverse_step(orig, k - 1);
                        assert(disable_cmds(orig.skip(k).reverse()).push(
                            GlCall::DisableVertexAttribArray(orig[k - 1]))
                            =~= disable_cmds(orig.skip(k - 1).reverse()));
                        assert(gl.log@ =~= pre.log@ + disable_cmds(orig.skip(k - 1).reverse()));
                        lemma_skip_to_set_step(orig, k - 1);
                        assert(pre.enabled@.difference(orig.skip(k).to_set()).remove(orig[k - 1])
                            =~= pre.enabled@.difference(orig.skip(k - 1).to_set()));
                        k = k - 1;
                    }
                },
            }
        }
        proof {
            assert(gl.log@ =~= pre.log@ + disable_cmds(orig.reverse()));
            assert(gl.enabled@ =~= pre.enabled@.difference(orig.to_set()));
        }
    }
}

/// Law: when attribute-enabling guards are taken over a token and the token
/// is released — construction and destruction in strict LIFO order — no
/// slot of the token remains enabled afterwards.  `enabled0` is the
/// enabled-set before the guards were constructed, `slots` the slots they
/// enabled; the left-hand side is the enabled-set release leaves behind
/// (per the contracts of `bind` and `release`), and it equals the original
/// set exactly, provided none of the slots was already enabled.
pub proof fn lemma_lifo_release_restores(enabled0: Set<u32>, slots: Seq<u32>)
    requires
        forall|i: int| 0 <= i < slots.len() ==> !enabled0.contains(#[trigger] slots[i]),
    ensures
        enabled0.union(slots.to_set()).difference(slots.to_set()) == enabled0,
{
    assert forall|x: u32| enabled0.contains(x)
        implies !slots.to_set().contains(x) by {
        if slots.to_set().contains(x) {
            let i = choose|i: int| 0 <= i < slots.len() && #[trigger] slots[i] == x;
        }
    }
    assert(enabled0.union(slots.to_set()).difference(slots.to_set()) =~= enabled0);
}

/// Law: releasing a token disables every slot it holds exactly once.  The
/// release commands are one disable per element of `slots.reverse()`, so
/// the disabled slots are exactly the enabled slots as a multiset, and
/// when the slots are distinct each is disabled exactly once.
pub proof fn lemma_lifo_release_disables_once(slots: Seq<u32>)
    requires
        slots.no_duplicates(),
    ensures
        slots.reverse().to_multiset() == slots.to_multiset(),
        forall|x: u32| slots.to_set().contains(x) ==>
            slots.reverse().to_multiset().count(x) == 1,
{
    broadcast use vstd::seq_lib::group_to_multiset_ensures;

    slots.lemma_reverse_to_multiset();
    slots.lemma_multiset_has_no_duplicates();
    assert(slots.reverse().to_multiset() =~= slots.to_multiset());
    assert forall|x: u32| slots.to_set().contains(x)
        implies slots.reverse().to_multiset().count(x) == 1 by {
        let i = choose|i: int| 0 <= i < slots.len() && #[trigger] slots[i] == x;
        assert(slots.contains(x));
        assert(slots.to_multiset().count(x) > 0);
        assert(slots.to_multiset().contains(x));
    }
}

/// Dropping the element at index `k` from the front of the tail sequence
/// appends it at the back of the reversed tail.
proof fn lemma_skip_reverse_step<T>(s: Seq<T>, k: int)
    requires
        0 <= k < s.len(),
    ensures
        s.skip(k).reverse() == s.skip(k + 1).reverse().push(s[k]),
{
    assert(s.skip(k).reverse() =~= s.skip(k + 1).reverse().push(s[k]));
}

/// Widening the tail by the element at index `k` inserts that element into
/// the tail's slot set.
proof fn lemma_skip_to_set_step(s: Seq<u32>, k: int)
    requires
        0 <= k < s.len(),
    ensures
        s.skip(k).to_set() == s.skip(k + 1).to_set().insert(s[k]),
{
    assert forall|x: u32| s.skip(k).to_set().contains(x)
        implies s.skip(k + 1).to_set().insert(s[k]).contains(x) by {
        let i = choose|i: int| 0 <= i < s.skip(k).len() && #[trigger] s.skip(k)[i] == x;
        if i == 0 {
            assert(x == s[k]);
        } else {
            assert(s.skip(k + 1)[i - 1] == x);
        }
    }
    assert forall|x: u32| s.skip(k + 1).to_set().insert(s[k]).contains(x)
        implies s.skip(k).to_set().contains(x) by {
        if x == s[k] {
            assert(s.skip(k)[0] == x);
        } else {
            let i = choose|i: int| 0 <= i < s.skip(k + 1).len() && #[trigger] s.skip(k + 1)[i] == x;
            assert(s.skip(k)[i + 1] == x);
        }
    }
    assert(s.skip(k).to_set() =~= s.skip(k + 1).to_set().insert(s[k]));
}

} // verus!
