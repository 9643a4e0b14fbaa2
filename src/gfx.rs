use vstd::prelude::*;

verus! {

/// OpenGL's value for point primitives.
pub const GL_POINTS: u32 = 0x0000;
/// OpenGL's value for independent line primitives.
pub const GL_LINES: u32 = 0x0001;
/// OpenGL's value for a connected line strip.
pub const GL_LINE_STRIP: u32 = 0x0003;
/// OpenGL's value for independent triangle primitives.
pub const GL_TRIANGLES: u32 = 0x0004;

/// OpenGL's bit that selects the depth buffer for clearing.
pub const GL_DEPTH_BUFFER_BIT: u32 = 0x0100;
/// OpenGL's bit that selects the stencil buffer for clearing.
pub const GL_STENCIL_BUFFER_BIT: u32 = 0x0400;
/// OpenGL's bit that selects the color buffer for clearing.
pub const GL_COLOR_BUFFER_BIT: u32 = 0x4000;

/// The kind of primitive generated by a draw call.
#[derive(Copy, Clone, Debug, PartialEq, Eq, Structural)]
pub enum DrawMode {
    Points,
    Lines,
    LineStrip,
    Triangles,
}

impl DrawMode {
    /// The OpenGL primitive value of this mode.
    pub open spec fn gl_value(self) -> u32 {
        match self {
            DrawMode::Points => GL_POINTS,
            DrawMode::Lines => GL_LINES,
            DrawMode::LineStrip => GL_LINE_STRIP,
            DrawMode::Triangles => GL_TRIANGLES,
        }
    }

    pub fn into_gl(self) -> (r: u32)
        ensures
            r == self.gl_value(),
    {
        match self {
            DrawMode::Points => GL_POINTS,
            DrawMode::Lines => GL_LINES,
            DrawMode::LineStrip => GL_LINE_STRIP,
            DrawMode::Triangles => GL_TRIANGLES,
        }
    }
}

/// A set of planes to clear, one bit per plane.
#[derive(Copy, Clone, Debug, PartialEq, Eq, Hash, Structural)]
pub struct ClearMode {
    pub bits: u32,
}

/// The bit of the color plane.
pub const CLEAR_COLOR_BIT: u32 = 0b001;
/// The bit of the depth plane.
pub const CLEAR_DEPTH_BIT: u32 = 0b010;
/// The bit of the stencil plane.
pub const CLEAR_STENCIL_BIT: u32 = 0b100;
/// The bits of all three planes.
pub const CLEAR_ALL_BITS: u32 = 0b111;

impl ClearMode {
    /// True when every bit of `other` is set in `self`.
    pub open spec fn spec_contains(self, other: ClearMode) -> bool {
        self.bits & other.bits == other.bits
    }

    /// The OpenGL clear mask that selects the same planes.
    pub open spec fn gl_mask(self) -> u32 {
        (if self.bits & CLEAR_COLOR_BIT != 0 { GL_COLOR_BUFFER_BIT } else { 0u32 })
            | (if self.bits & CLEAR_DEPTH_BIT != 0 { GL_DEPTH_BUFFER_BIT } else { 0u32 })
            | (if self.bits & CLEAR_STENCIL_BIT != 0 { GL_STENCIL_BUFFER_BIT } else { 0u32 })
    }

    pub fn contains(&self, other: ClearMode) -> (r: bool)
        ensures
            r == self.spec_contains(other),
    {
        self.bits & other.bits == other.bits
    }

    pub fn into_gl(self) -> (r: u32)
        ensures
            r == self.gl_mask(),
    {
        proof {
            let b = self.bits;
            assert(b & 1u32 == 1u32 <==> b & 1u32 != 0) by (bit_vector);
            assert(b & 2u32 == 2u32 <==> b & 2u32 != 0) by (bit_vector);
            assert(b & 4u32 == 4u32 <==> b & 4u32 != 0) by (bit_vector);
        }
        let color = if self.contains(ClearMode { bits: CLEAR_COLOR_BIT }) {
            GL_COLOR_BUFFER_BIT
        } else {
            0
        };
        let depth = if self.contains(ClearMode { bits: CLEAR_DEPTH_BIT }) {
            GL_DEPTH_BUFFER_BIT
        } else {
            0
        };
        let stencil = if self.contains(ClearMode { bits: CLEAR_STENCIL_BIT }) {
            GL_STENCIL_BUFFER_BIT
        } else {
            0
        };
        color | depth | stencil
    }
}

} // verus!
