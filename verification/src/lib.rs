//! Safe, verified core of an OpenGL-style resource-binding and
//! vertex-attribute layer.
//!
//! The driver itself is reached only through unsafe foreign calls, which
//! cannot stand in verified code; the library therefore works against an
//! explicit model of the device context ([`gl::GlContext`]): the GL machine
//! state the library tracks plus the stream of commands it issues.  Every
//! operation is a verified function over that model, and its contract states
//! exactly which commands are issued and how the machine state changes.
//! An embedding crate owns the real driver handle and replays the issued
//! command stream onto it, in order.

use vstd::prelude::*;

pub mod attrib;
pub mod callback;
pub mod gl;
pub mod guards;
pub mod program;
pub mod resource;
pub mod uniform;
pub mod vertex;

verus! {

/// A driver error: the native numeric error code, as the driver reports it.
#[derive(Clone, Copy, Debug, PartialEq, Eq, Structural)]
pub struct GLError(pub u32);

impl GLError {
    /// The wrapped native error code.
    pub fn code(&self) -> (c: u32)
        ensures
            c == self.0,
    {
        self.0
    }
}

} // verus!
