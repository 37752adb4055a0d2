//! The attribute field protocol: typed vertex records matched by name
//! against a program's attribute catalog.
//!
//! Each vertex-record type declares, per named field, the component count,
//! the native scalar type and the byte offset inside the record; matching
//! against the reflected catalog is structural, by exact name, so shader
//! attribute reordering never requires reordering the record.  Because the
//! declared shape is what the driver will use to read raw record memory, a
//! record type's declaration must match its real in-memory layout; the
//! declarations live here, next to the types, for that reason.
//!
//! Float-typed components are carried as IEEE-754 bit patterns ([`FloatBits`]),
//! which have exactly the width and layout of the floats they stand for.

use vstd::prelude::*;
use vstd::string::*;
use crate::gl::{
    GlContext, GlCall, command_frame, BYTE, FLOAT, INT, UNSIGNED_INT,
};
use crate::guards::{disable_cmds, same_other_bindings};
use crate::program::{Attribute, Program};

verus! {

/// The bit pattern of one 32-bit float.
#[derive(Clone, Copy, Debug, PartialEq, Eq, Structural)]
pub struct FloatBits(pub u32);

/// A two-component float vector, carried as bit patterns.
#[derive(Clone, Copy, Debug, PartialEq, Eq, Structural)]
pub struct Vec2f {
    pub x: FloatBits,
    pub y: FloatBits,
}

/// A three-component float vector, carried as bit patterns.
#[derive(Clone, Copy, Debug, PartialEq, Eq, Structural)]
pub struct Vec3f {
    pub x: FloatBits,
    pub y: FloatBits,
    pub z: FloatBits,
}

/// What one vertex-record field looks like to the attribute protocol:
/// matched by name, bound with a component count, a native scalar type and
/// a byte offset inside the record.
pub struct FieldSpec {
    pub name: Seq<char>,
    pub components: usize,
    pub scalar: u32,
    pub offset: usize,
}

/// The first field whose name matches, if any.
pub open spec fn match_field(fields: Seq<FieldSpec>, name: Seq<char>) -> Option<FieldSpec>
    decreases fields.len(),
{
    if fields.len() == 0 {
        None
    } else if fields.first().name == name {
        Some(fields.first())
    } else {
        match_field(fields.drop_first(), name)
    }
}

/// The component count, scalar type and byte offset of the first field
/// whose name matches, if any.
pub open spec fn field_info(fields: Seq<FieldSpec>, name: Seq<char>) -> Option<(usize, u32, usize)> {
    match match_field(fields, name) {
        Some(f) => Some((f.components, f.scalar, f.offset)),
        None => None,
    }
}

/// A type usable as one field of a vertex record: a fixed number of
/// components of one native scalar type.
pub trait AttribField {
    /// Component count and native scalar type.
    spec fn spec_detail() -> (usize, u32);

    fn detail() -> (r: (usize, u32))
        ensures
            r == Self::spec_detail(),
    ;
}

impl AttribField for FloatBits {
    open spec fn spec_detail() -> (usize, u32) {
        (1, FLOAT)
    }

    fn detail() -> (r: (usize, u32)) {
        (1, FLOAT)
    }
}

impl AttribField for u8 {
    open spec fn spec_detail() -> (usize, u32) {
        (1, BYTE)
    }

    fn detail() -> (r: (usize, u32)) {
        (1, BYTE)
    }
}

impl AttribField for u32 {
    open spec fn spec_detail() -> (usize, u32) {
        (1, UNSIGNED_INT)
    }

    fn detail() -> (r: (usize, u32)) {
        (1, UNSIGNED_INT)
    }
}

impl AttribField for i32 {
    open spec fn spec_detail() -> (usize, u32) {
        (1, INT)
    }

    fn detail() -> (r: (usize, u32)) {
        (1, INT)
    }
}

impl AttribField for crate::uniform::Rgba {
    open spec fn spec_detail() -> (usize, u32) {
        (4, FLOAT)
    }

    fn detail() -> (r: (usize, u32)) {
        (4, FLOAT)
    }
}

/// A fixed-size array of field elements composes: `N` times the element's
/// component count (saturated at the machine limit, never reached by a
/// real field), with the element's scalar type.
impl<F: AttribField, const N: usize> AttribField for [F; N] {
    open spec fn spec_detail() -> (usize, u32) {
        let d = F::spec_detail().0;
        let n = if N * d <= usize::MAX {
            (N * d) as usize
        } else {
            usize::MAX
        };
        (n, F::spec_detail().1)
    }

    fn detail() -> (r: (usize, u32)) {
        let (d, t) = F::detail();
        match N.checked_mul(d) {
            Some(n) => (n, t),
            None => (usize::MAX, t),
        }
    }
}

impl AttribField for Vec2f {
    open spec fn spec_detail() -> (usize, u32) {
        (2, FLOAT)
    }

    fn detail() -> (r: (usize, u32)) {
        (2, FLOAT)
    }
}

impl AttribField for Vec3f {
    open spec fn spec_detail() -> (usize, u32) {
        (3, FLOAT)
    }

    fn detail() -> (r: (usize, u32)) {
        (3, FLOAT)
    }
}

/// A fixed-layout vertex record whose named fields the attribute protocol
/// can bind.  The declared field table must describe the type's real
/// in-memory layout: the offsets and the record size are what the driver
/// will use to read raw record memory.
pub trait AttribProvider: Sized + Copy {
    /// The declared field table, in declaration order.
    spec fn spec_fields() -> Seq<FieldSpec>;

    /// The record size in bytes (the stride between consecutive records).
    spec fn spec_record_bytes() -> usize;

    /// Every declared field fits inside the record, and all sizes fit the
    /// driver's signed 32-bit parameters.
    proof fn fields_wf()
        ensures
            0 < Self::spec_record_bytes() <= i32::MAX,
            forall|i: int| 0 <= i < Self::spec_fields().len() ==> {
                &&& (#[trigger] Self::spec_fields()[i]).components <= i32::MAX
                &&& Self::spec_fields()[i].offset <= Self::spec_record_bytes()
            },
    ;

    /// The record size in bytes.
    fn stride() -> (s: usize)
        ensures
            s == Self::spec_record_bytes(),
    ;

    /// Match one reflected attribute against the field table: the
    /// component count, scalar type and byte offset of the field with the
    /// attribute's name, or nothing when no field matches.
    fn apply(a: &Attribute) -> (r: Option<(usize, u32, usize)>)
        ensures
            r == field_info(Self::spec_fields(), a.name@),
    ;
}

/// A vertex record with a single three-component float position field.
#[derive(Clone, Copy, Debug, PartialEq, Eq, Structural)]
pub struct VertexPos3 {
    pub pos: Vec3f,
}

impl AttribProvider for VertexPos3 {
    open spec fn spec_fields() -> Seq<FieldSpec> {
        seq![
            FieldSpec { name: "pos"@, components: 3, scalar: FLOAT, offset: 0 },
        ]
    }

    open spec fn spec_record_bytes() -> usize {
        12
    }

    proof fn fields_wf() {
    }

    fn stride() -> usize {
        12
    }

    fn apply(a: &Attribute) -> (r: Option<(usize, u32, usize)>) {
        proof {
            reveal_with_fuel(match_field, 3);
        }
        let key = "pos".to_owned();
        if a.name == key {
            proof {
                assert(Self::spec_fields().first()
                    == (FieldSpec { name: "pos"@, components: 3, scalar: FLOAT, offset: 0 }));
            }
            let (c, t) = Vec3f::detail();
            Some((c, t, 0))
        } else {
            proof {
                assert(Self::spec_fields().drop_first().len() == 0);
            }
            None
        }
    }
}

/// An interleaved GUI vertex: two-component position, two-component
/// texture coordinate, one packed four-byte colour.
#[derive(Clone, Copy, Debug, PartialEq, Eq)]
pub struct UiVertex {
    pub pos: Vec2f,
    pub uv: Vec2f,
    pub col: [u8; 4],
}

impl AttribProvider for UiVertex {
    open spec fn spec_fields() -> Seq<FieldSpec> {
        seq![
            FieldSpec { name: "pos"@, components: 2, scalar: FLOAT, offset: 0 },
            FieldSpec { name: "uv"@, components: 2, scalar: FLOAT, offset: 8 },
            FieldSpec { name: "col"@, components: 4, scalar: BYTE, offset: 16 },
        ]
    }

    open spec fn spec_record_bytes() -> usize {
        20
    }

    proof fn fields_wf() {
        assert forall|i: int| 0 <= i < Self::spec_fields().len() implies {
            &&& (#[trigger] Self::spec_fields()[i]).components <= i32::MAX
            &&& Self::spec_fields()[i].offset <= Self::spec_record_bytes()
        } by {
            if i == 0 {
            } else if i == 1 {
            } else {
            }
        }
    }

    fn stride() -> usize {
        20
    }

    fn apply(a: &Attribute) -> (r: Option<(usize, u32, usize)>) {
        proof {
            reveal_with_fuel(match_field, 5);
        }
        let ghost fields = Self::spec_fields();
        let key_pos = "pos".to_owned();
        if a.name == key_pos {
            proof {
                assert(fields.first()
                    == (FieldSpec { name: "pos"@, components: 2, scalar: FLOAT, offset: 0 }));
            }
            let (c, t) = Vec2f::detail();
            return Some((c, t, 0));
        }
        proof {
            assert(fields.drop_first() =~= fields.skip(1));
        }
        let key_uv = "uv".to_owned();
        if a.name == key_uv {
            proof {
                assert(fields.skip(1).first() == fields[1]);
                assert(fields[1]
                    == (FieldSpec { name: "uv"@, components: 2, scalar: FLOAT, offset: 8 }));
            }
            let (c, t) = Vec2f::detail();
            return Some((c, t, 8));
        }
        proof {
            assert(fields.skip(1).first() == fields[1]);
            assert(fields.skip(1).drop_first() =~= fields.skip(2));
        }
        let key_col = "col".to_owned();
        if a.name == key_col {
            proof {
                assert(fields.skip(2).first() == fields[2]);
                assert(fields[2]
                    == (FieldSpec { name: "col"@, components: 4, scalar: BYTE, offset: 16 }));
            }
            let (c, t) = <[u8; 4]>::detail();
            return Some((c, t, 16));
        }
        proof {
            assert(fields.skip(2).first() == fields[2]);
            assert(fields.skip(2).drop_first().len() == 0);
        }
        None
    }
}

// ---------------------------------------------------------------------------
// Attribute source lists
// ---------------------------------------------------------------------------

/// The enable and pointer commands that binding record type `A` against the
/// reflected attributes `attrs` issues, with every byte offset shifted by
/// `base` (the sub-range base offset; zero for a whole array).
pub open spec fn attrib_ptr_cmds<A: AttribProvider>(attrs: Seq<Attribute>, base: int) -> Seq<GlCall>
    decreases attrs.len(),
{
    if attrs.len() == 0 {
        Seq::empty()
    } else {
        let rest = attrib_ptr_cmds::<A>(attrs.drop_last(), base);
        let a = attrs.last();
        match field_info(A::spec_fields(), a.name@) {
            Some(info) => rest + seq![
                GlCall::EnableVertexAttribArray(a.location),
                GlCall::VertexAttribPointer {
                    location: a.location,
                    components: info.0 as i32,
                    scalar: info.1,
                    normalized: false,
                    stride: A::spec_record_bytes() as i32,
                    offset: (info.2 + base) as i32,
                },
            ],
            None => rest,
        }
    }
}

/// The slots that binding record type `A` against `attrs` enables, in
/// enabling order.
pub open spec fn attrib_slot_seq<A: AttribProvider>(attrs: Seq<Attribute>) -> Seq<u32>
    decreases attrs.len(),
{
    if attrs.len() == 0 {
        Seq::empty()
    } else {
        let rest = attrib_slot_seq::<A>(attrs.drop_last());
        let a = attrs.last();
        match field_info(A::spec_fields(), a.name@) {
            Some(_) => rest.push(a.location),
            None => rest,
        }
    }
}

/// A matched field is one of the declared fields.
pub proof fn lemma_match_field_mem(fields: Seq<FieldSpec>, name: Seq<char>)
    ensures
        match_field(fields, name) matches Some(f) ==> fields.contains(f),
    decreases fields.len(),
{
    if fields.len() > 0 && !(fields.first().name == name) {
        lemma_match_field_mem(fields.drop_first(), name);
        match match_field(fields.drop_first(), name) {
            Some(f) => {
                let i = choose|i: int|
                    0 <= i < fields.drop_first().len() && fields.drop_first()[i] == f;
                assert(fields[i + 1] == f);
            },
            None => {},
        }
    }
}

/// A matched field obeys the record's declared bounds: its component count
/// fits the driver's signed parameters and its offset lies in the record.
pub proof fn lemma_matched_field_bounds<A: AttribProvider>(name: Seq<char>)
    ensures
        field_info(A::spec_fields(), name) matches Some(info) ==> {
            &&& info.0 <= i32::MAX
            &&& info.2 <= A::spec_record_bytes()
        },
{
    A::fields_wf();
    lemma_match_field_mem(A::spec_fields(), name);
    match match_field(A::spec_fields(), name) {
        Some(f) => {
            let j = choose|j: int|
                0 <= j < A::spec_fields().len() && A::spec_fields()[j] == f;
            assert(A::spec_fields()[j].components <= i32::MAX);
            assert(A::spec_fields()[j].offset <= A::spec_record_bytes());
        },
        None => {},
    }
}

/// Appending an element inserts it into the sequence's slot set.
pub proof fn lemma_push_to_set(s: Seq<u32>, x: u32)
    ensures
        s.push(x).to_set() == s.to_set().insert(x),
{
    assert forall|y: u32| s.push(x).to_set().contains(y)
        implies s.to_set().insert(x).contains(y) by {
        let i = choose|i: int| 0 <= i < s.push(x).len() && #[trigger] s.push(x)[i] == y;
        if i < s.len() {
            assert(s[i] == y);
        }
    }
    assert forall|y: u32| s.to_set().insert(x).contains(y)
        implies s.push(x).to_set().contains(y) by {
        if y == x {
            assert(s.push(x)[s.len() as int] == y);
        } else {
            let i = choose|i: int| 0 <= i < s.len() && #[trigger] s[i] == y;
            assert(s.push(x)[i] == y);
        }
    }
    assert(s.push(x).to_set() =~= s.to_set().insert(x));
}

/// Concatenation unions the slot sets.
pub proof fn lemma_concat_to_set(s0: Seq<u32>, s1: Seq<u32>)
    ensures
        (s0 + s1).to_set() == s0.to_set().union(s1.to_set()),
{
    assert forall|y: u32| (s0 + s1).to_set().contains(y)
        implies s0.to_set().union(s1.to_set()).contains(y) by {
        let i = choose|i: int| 0 <= i < (s0 + s1).len() && #[trigger] (s0 + s1)[i] == y;
        if i < s0.len() {
            assert(s0[i] == y);
        } else {
            assert(s1[i - s0.len()] == y);
        }
    }
    assert forall|y: u32| s0.to_set().union(s1.to_set()).contains(y)
        implies (s0 + s1).to_set().contains(y) by {
        if s0.to_set().contains(y) {
            let i = choose|i: int| 0 <= i < s0.len() && #[trigger] s0[i] == y;
            assert((s0 + s1)[i] == y);
        } else {
            let i = choose|i: int| 0 <= i < s1.len() && #[trigger] s1[i] == y;
            assert((s0 + s1)[s0.len() + i] == y);
        }
    }
    assert((s0 + s1).to_set() =~= s0.to_set().union(s1.to_set()));
}

/// A source of vertex attribute streams for one draw call.  Binding
/// enables the matched slots and issues the pointer commands; the returned
/// token holds the enabled slots alive until it is unbound right after the
/// draw call.
pub trait AttribProviderList: Sized {
    type KeepType;

    /// How many vertices the source supplies.
    spec fn spec_len(&self) -> int;

    /// What binding needs of the source and the program.
    spec fn bind_requires(&self, p: Program) -> bool;

    /// The commands binding issues.
    spec fn bind_log(&self, p: Program) -> Seq<GlCall>;

    /// The slots binding enables, in enabling order.
    spec fn bind_slots(&self, p: Program) -> Seq<u32>;

    /// The source as binding leaves it (uploads mark themselves clean).
    spec fn after_bind(&self) -> Self;

    /// The array-buffer binding that binding leaves, given the one before.
    spec fn post_array_buffer(&self, pre: u32) -> u32;

    /// The slots a returned token holds.
    spec fn keep_slots(k: &Self::KeepType) -> Seq<u32>;

    fn len(&self) -> (n: usize)
        ensures
            n as int == self.spec_len(),
    ;

    fn is_empty(&self) -> (e: bool)
        ensures
            e == (self.spec_len() == 0),
    ;

    /// Bind the source against the program's attribute catalog.
    fn bind(&mut self, gl: &mut GlContext, p: &Program) -> (k: Self::KeepType)
        requires
            old(self).bind_requires(*p),
        ensures
            final(gl).log@ == old(gl).log@ + old(self).bind_log(*p),
            final(gl).enabled@ == old(gl).enabled@.union(
                old(self).bind_slots(*p).to_set()),
            Self::keep_slots(&k) == old(self).bind_slots(*p),
            *final(self) == old(self).after_bind(),
            final(gl).array_buffer == old(self).post_array_buffer(old(gl).array_buffer),
            final(gl).viewport == old(gl).viewport,
            final(gl).draw_framebuffer == old(gl).draw_framebuffer,
            final(gl).read_framebuffer == old(gl).read_framebuffer,
            final(gl).renderbuffer == old(gl).renderbuffer,
            final(gl).current_program == old(gl).current_program,
            command_frame(*old(gl), *final(gl)),
    ;

    /// Release a binding token: disable its slots in reverse order.
    fn unbind(gl: &mut GlContext, k: Self::KeepType)
        ensures
            final(gl).log@ == old(gl).log@ + disable_cmds(
                Self::keep_slots(&k).reverse()),
            final(gl).enabled@ == old(gl).enabled@.difference(
                Self::keep_slots(&k).to_set()),
            same_other_bindings(*old(gl), *final(gl)),
            command_frame(*old(gl), *final(gl)),
    ;
}

/// An attribute source that supplies a vertex count and no attribute data:
/// for draws whose attributes come from elsewhere.
#[derive(Debug, Copy, Clone)]
pub struct NilVertexAttrib(pub usize);

impl AttribProviderList for NilVertexAttrib {
    type KeepType = ();

    open spec fn spec_len(&self) -> int {
        self.0 as int
    }

    open spec fn bind_requires(&self, p: Program) -> bool {
        true
    }

    open spec fn bind_log(&self, p: Program) -> Seq<GlCall> {
        Seq::empty()
    }

    open spec fn bind_slots(&self, p: Program) -> Seq<u32> {
        Seq::empty()
    }

    open spec fn after_bind(&self) -> Self {
        *self
    }

    open spec fn post_array_buffer(&self, pre: u32) -> u32 {
        pre
    }

    open spec fn keep_slots(k: &()) -> Seq<u32> {
        Seq::empty()
    }

    fn len(&self) -> usize {
        self.0
    }

    fn is_empty(&self) -> bool {
        self.0 == 0
    }

    fn bind(&mut self, gl: &mut GlContext, p: &Program) -> (k: ()) {
        proof {
            assert(gl.log@ + Seq::<GlCall>::empty() =~= gl.log@);
            assert(Seq::<u32>::empty().to_set() =~= Set::<u32>::empty());
            assert(gl.enabled@.union(Set::<u32>::empty()) =~= gl.enabled@);
        }
    }

    fn unbind(gl: &mut GlContext, k: ()) {
        proof {
            assert(Seq::<u32>::empty().reverse() =~= Seq::<u32>::empty());
            assert(disable_cmds(Seq::<u32>::empty()) =~= Seq::<GlCall>::empty());
            assert(gl.log@ + Seq::<GlCall>::empty() =~= gl.log@);
            assert(Seq::<u32>::empty().to_set() =~= Set::<u32>::empty());
            assert(gl.enabled@.difference(Set::<u32>::empty()) =~= gl.enabled@);
        }
    }
}

/// Two attribute sources bound one after the other; the vertex count is
/// the smaller of the two.
impl<A0: AttribProviderList, A1: AttribProviderList> AttribProviderList for (A0, A1) {
    type KeepType = (A0::KeepType, A1::KeepType);

    open spec fn spec_len(&self) -> int {
        if self.0.spec_len() < self.1.spec_len() {
            self.0.spec_len()
        } else {
            self.1.spec_len()
        }
    }

    open spec fn bind_requires(&self, p: Program) -> bool {
        self.0.bind_requires(p) && self.1.bind_requires(p)
    }

    open spec fn bind_log(&self, p: Program) -> Seq<GlCall> {
        self.0.bind_log(p) + self.1.bind_log(p)
    }

    open spec fn bind_slots(&self, p: Program) -> Seq<u32> {
        self.0.bind_slots(p) + self.1.bind_slots(p)
    }

    open spec fn after_bind(&self) -> Self {
        (self.0.after_bind(), self.1.after_bind())
    }

    open spec fn post_array_buffer(&self, pre: u32) -> u32 {
        self.1.post_array_buffer(self.0.post_array_buffer(pre))
    }

    open spec fn keep_slots(k: &(A0::KeepType, A1::KeepType)) -> Seq<u32> {
        A0::keep_slots(&k.0) + A1::keep_slots(&k.1)
    }

    fn len(&self) -> usize {
        let l0 = self.0.len();
        let l1 = self.1.len();
        if l0 < l1 {
            l0
        } else {
            l1
        }
    }

    fn is_empty(&self) -> bool {
        self.len() == 0
    }

    fn bind(&mut self, gl: &mut GlContext, p: &Program) -> (k: (A0::KeepType, A1::KeepType)) {
        let ghost pre = *gl;
        let ghost s0 = self.0.bind_slots(*p);
        let ghost s1 = self.1.bind_slots(*p);
        let k0 = self.0.bind(gl, p);
        let k1 = self.1.bind(gl, p);
        proof {
            assert(gl.log@ =~= pre.log@ + (old(self).0.bind_log(*p) + old(self).1.bind_log(*p)));
            lemma_concat_to_set(s0, s1);
            assert(pre.enabled@.union(s0.to_set()).union(s1.to_set())
                =~= pre.enabled@.union((s0 + s1).to_set()));
        }
        (k0, k1)
    }

    fn unbind(gl: &mut GlContext, k: (A0::KeepType, A1::KeepType)) {
        let ghost pre = *gl;
        let ghost s0 = A0::keep_slots(&k.0);
        let ghost s1 = A1::keep_slots(&k.1);
        let (k0, k1) = k;
        A1::unbind(gl, k1);
        A0::unbind(gl, k0);
        proof {
            assert((s0 + s1).reverse() =~= s1.reverse() + s0.reverse());
            assert(disable_cmds((s0 + s1).reverse())
                =~= disable_cmds(s1.reverse()) + disable_cmds(s0.reverse()));
            assert(gl.log@ =~= pre.log@ + disable_cmds((s0 + s1).reverse()));
            lemma_concat_to_set(s0, s1);
            assert(pre.enabled@.difference(s1.to_set()).difference(s0.to_set())
                =~= pre.enabled@.difference((s0 + s1).to_set()));
        }
    }
}

} // verus!
