//! Uniform values and the uniform field protocol.
//!
//! The library itself never performs floating-point arithmetic; a float-typed
//! uniform scalar is carried as its IEEE-754 bit pattern (`u32`), and the
//! embedding crate converts real floats to and from bits at the boundary.

use vstd::prelude::*;
use vstd::string::*;
use crate::gl::{GlContext, GlCall, same_bindings, command_frame};
use crate::program::Uniform;

verus! {

/// An RGBA colour; each channel is the bit pattern of a 32-bit float.
#[derive(Clone, Copy, Debug, PartialEq, Eq, Structural)]
pub struct Rgba {
    pub r: u32,
    pub g: u32,
    pub b: u32,
    pub a: u32,
}

impl Rgba {
    pub fn new(r: u32, g: u32, b: u32, a: u32) -> (c: Rgba)
        ensures
            c == (Rgba { r, g, b, a }),
    {
        Rgba { r, g, b, a }
    }
}

/// The value a uniform field supplies.  The semantic type decides which
/// native set-uniform call is issued and how many scalar components are
/// transferred.  Float components are IEEE-754 bit patterns.
///
/// `Array` is a recognized but unimplemented extension point: applying an
/// array-typed field would corrupt GPU state silently if mis-sized, so the
/// draw path refuses it statically (see `UniformTable::apply`).
#[derive(Debug, PartialEq)]
pub enum UniformValue {
    /// One float scalar.
    Float(u32),
    /// One integer scalar.
    Int(i32),
    /// A three-component float vector.
    Vec3([u32; 3]),
    /// A four-component colour.
    Color(Rgba),
    /// A 3x3 float matrix, column-major.
    Mat3([u32; 9]),
    /// A 4x4 float matrix, column-major.
    Mat4([u32; 16]),
    /// An array of uniforms: element prototype and count.  Recognized for
    /// name matching (`name[0]`), never applied.
    Array(Box<UniformValue>, usize),
}

impl Clone for UniformValue {
    fn clone(&self) -> (r: Self)
        ensures
            r == *self,
        decreases *self,
    {
        match self {
            UniformValue::Float(x) => UniformValue::Float(*x),
            UniformValue::Int(x) => UniformValue::Int(*x),
            UniformValue::Vec3(v) => UniformValue::Vec3(*v),
            UniformValue::Color(c) => UniformValue::Color(*c),
            UniformValue::Mat3(m) => UniformValue::Mat3(*m),
            UniformValue::Mat4(m) => UniformValue::Mat4(*m),
            UniformValue::Array(elem, n) => UniformValue::Array(
                Box::new((**elem).clone()),
                *n,
            ),
        }
    }
}

impl UniformValue {
    /// How many scalar components the value transfers.
    pub open spec fn spec_components(&self) -> nat {
        match self {
            UniformValue::Float(_) => 1,
            UniformValue::Int(_) => 1,
            UniformValue::Vec3(_) => 3,
            UniformValue::Color(_) => 4,
            UniformValue::Mat3(_) => 9,
            UniformValue::Mat4(_) => 16,
            UniformValue::Array(_, _) => 0,
        }
    }

    /// How many scalar components the value transfers.
    pub fn components(&self) -> (n: usize)
        ensures
            n == self.spec_components(),
    {
        match self {
            UniformValue::Float(_) => 1,
            UniformValue::Int(_) => 1,
            UniformValue::Vec3(_) => 3,
            UniformValue::Color(_) => 4,
            UniformValue::Mat3(_) => 9,
            UniformValue::Mat4(_) => 16,
            UniformValue::Array(_, _) => 0,
        }
    }

    /// Whether the value is the unimplemented array extension point.
    pub open spec fn spec_is_array(&self) -> bool {
        self is Array
    }

    /// Whether the value is the unimplemented array extension point.
    pub fn is_array(&self) -> (r: bool)
        ensures
            r == self.spec_is_array(),
    {
        match self {
            UniformValue::Array(_, _) => true,
            _ => false,
        }
    }
}

/// A source of uniform values for one draw call: asked, per active uniform
/// of the program, to push that uniform's current value.
pub trait UniformProvider {
    /// The commands applying one catalog uniform issues (none when the
    /// provider has no matching field).
    spec fn cmds_for(&self, u: Uniform) -> Seq<GlCall>;

    /// Whether the provider can apply the uniform.  False only for the
    /// unimplemented array extension point, which must fail loudly rather
    /// than mis-set GPU state, and is therefore refused statically.
    spec fn can_apply(&self, u: Uniform) -> bool;

    /// Push the value for one catalog uniform, matching by name; a uniform
    /// no field matches is simply left alone.
    fn apply(&self, gl: &mut GlContext, u: &Uniform)
        requires
            self.can_apply(*u),
        ensures
            final(gl).log@ == old(gl).log@ + self.cmds_for(*u),
            final(gl).error == old(gl).error,
            same_bindings(*old(gl), *final(gl)),
            command_frame(*old(gl), *final(gl)),
    ;
}

/// One field of a declarative uniform table: the shader-side name and the
/// value to supply.
pub struct UniformEntry {
    pub name: String,
    pub value: UniformValue,
}

/// The shader-side name an entry matches: an array-typed field matches the
/// driver's naming for arrays, `name[0]`.
pub open spec fn target_name(e: UniformEntry) -> Seq<char> {
    if e.value is Array {
        e.name@ + "[0]"@
    } else {
        e.name@
    }
}

/// The first entry whose target name matches, if any.
pub open spec fn match_entry(entries: Seq<UniformEntry>, name: Seq<char>) -> Option<UniformEntry>
    decreases entries.len(),
{
    if entries.len() == 0 {
        None
    } else if target_name(entries.first()) == name {
        Some(entries.first())
    } else {
        match_entry(entries.drop_first(), name)
    }
}

/// A declarative uniform provider: one entry per named field, matched
/// against the catalog by name.  The declarative form exists so that names
/// and component shapes are written once, next to each other.
pub struct UniformTable {
    pub entries: Vec<UniformEntry>,
}

impl UniformProvider for UniformTable {
    open spec fn cmds_for(&self, u: Uniform) -> Seq<GlCall> {
        match match_entry(self.entries@, u.name@) {
            Some(e) => seq![GlCall::SetUniform { location: u.location, value: e.value }],
            None => Seq::empty(),
        }
    }

    open spec fn can_apply(&self, u: Uniform) -> bool {
        match match_entry(self.entries@, u.name@) {
            Some(e) => !(e.value is Array),
            None => true,
        }
    }

    fn apply(&self, gl: &mut GlContext, u: &Uniform) {
        let ghost entries = self.entries@;
        proof {
            assert(entries.skip(0) =~= entries);
        }
        let n = self.entries.len();
        for i in 0..n
            invariant
                n == self.entries.len(),
                entries == self.entries@,
                *gl == *old(gl),
                self.can_apply(*u),
                match_entry(entries, u.name@) == match_entry(entries.skip(i as int), u.name@),
        {
            proof {
                assert(entries.skip(i as int).first() == entries[i as int]);
                assert(entries.skip(i as int).drop_first() =~= entries.skip(i + 1));
            }
            let e = &self.entries[i];
            let tname = if e.value.is_array() {
                e.name.clone().concat("[0]")
            } else {
                e.name.clone()
            };
            proof {
                assert(tname@ == target_name(entries[i as int]));
            }
            if tname == u.name {
                proof {
                    assert(match_entry(entries, u.name@) == Some(entries[i as int]));
                    assert(!e.value.spec_is_array());
                }
                gl.set_uniform(u.location, e.value.clone());
                proof {
                    assert(gl.log@ =~= old(gl).log@ + self.cmds_for(*u));
                }
                return;
            }
        }
        proof {
            assert(entries.skip(n as int).len() == 0);
            assert(gl.log@ =~= old(gl).log@ + self.cmds_for(*u));
        }
    }
}

} // verus!
