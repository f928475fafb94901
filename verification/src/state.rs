//! Fixed-function hardware state primitives.
//!
//! Configures the primitive assembly, rasterizer, and output merger blocks:
//! winding and culling, rasterization method, comparison functions, stencil
//! operations, depth test, blend equations and factors, color write masks,
//! and the dynamically settable reference values.

use vstd::prelude::*;

use crate::target;

verus! {

/// The front face winding order of a set of vertices.
#[derive(Clone, Copy, Debug, PartialEq, Eq, Structural, PartialOrd, Ord, Hash)]
pub enum FrontFace {
    /// Clockwise winding order.
    Clockwise,
    /// Counter-clockwise winding order.
    CounterClockwise,
}

/// Width of a line, in integral units.
pub type LineWidth = i32;
/// Slope depth offset factor, in integral units.
pub type OffsetSlope = i32;
/// Number of units to offset, where the unit is the minimal difference in
/// the depth value dictated by the precision of the depth buffer.
pub type OffsetUnits = i32;

/// How to offset vertices in screen space, if at all: a slope factor and a
/// unit count.
#[derive(Clone, Copy, Debug, PartialEq, Eq, Structural, PartialOrd, Hash)]
pub struct Offset(pub OffsetSlope, pub OffsetUnits);

/// Which face, if any, to cull.
#[derive(Clone, Copy, Debug, PartialEq, Eq, Structural, PartialOrd, Ord, Hash)]
pub enum CullFace {
    /// Cull nothing.
    Nothing,
    /// Cull front-facing primitives.
    Front,
    /// Cull back-facing primitives.
    Back,
}

/// How to rasterize a primitive.
#[derive(Clone, Copy, Debug, PartialEq, Eq, Structural, PartialOrd, Hash)]
pub enum RasterMethod {
    /// Rasterize as a point.
    Point,
    /// Rasterize as a line with the given width.
    Line(LineWidth),
    /// Rasterize as a face.
    Fill,
}

/// Multi-sampling rasterization mode.
#[derive(Clone, Copy, Debug, PartialEq, Eq, Structural, PartialOrd, Ord, Hash)]
pub struct MultiSample;

/// Primitive rasterization state.  Note that some graphics APIs allow
/// different raster methods to be used for front and back faces, while this
/// abstraction does not.
#[derive(Clone, Copy, Debug, PartialEq, Eq, PartialOrd, Hash)]
pub struct Rasterizer {
    /// Which vertex winding is considered to be the front face for culling.
    pub front_face: FrontFace,
    /// Which face should be culled.
    pub cull_face: CullFace,
    /// How to rasterize this primitive.
    pub method: RasterMethod,
    /// Any polygon offset to apply.
    pub offset: Option<Offset>,
    /// Multi-sampling mode.
    pub samples: Option<MultiSample>,
}

impl Rasterizer {
    /// Create a new filling rasterizer: counter-clockwise front faces, no
    /// culling, no polygon offset, no multi-sampling.
    pub fn new_fill() -> (r: Rasterizer)
        ensures
            r.front_face == FrontFace::CounterClockwise,
            r.cull_face == CullFace::Nothing,
            r.method == RasterMethod::Fill,
            r.offset is None,
            r.samples is None,
    {
        Rasterizer {
            front_face: FrontFace::CounterClockwise,
            cull_face: CullFace::Nothing,
            method: RasterMethod::Fill,
            offset: None,
            samples: None,
        }
    }

    /// Add back face culling; every other field is kept.
    pub fn with_cull_back(self) -> (r: Rasterizer)
        ensures
            r.cull_face == CullFace::Back,
            r.front_face == self.front_face,
            r.method == self.method,
            r.offset == self.offset,
            r.samples == self.samples,
    {
        Rasterizer { cull_face: CullFace::Back, ..self }
    }

    /// Add a polygon offset; every other field is kept.
    pub fn with_offset(self, slope: OffsetSlope, units: OffsetUnits) -> (r: Rasterizer)
        ensures
            r.offset == Some(Offset(slope, units)),
            r.front_face == self.front_face,
            r.cull_face == self.cull_face,
            r.method == self.method,
            r.samples == self.samples,
    {
        Rasterizer { offset: Some(Offset(slope, units)), ..self }
    }
}

/// A pixel-wise comparison function.
#[derive(Clone, Copy, Debug, PartialEq, Eq, Structural, PartialOrd, Ord, Hash)]
pub enum Comparison {
    /// `false`
    Never,
    /// `x < y`
    Less,
    /// `x <= y`
    LessEqual,
    /// `x == y`
    Equal,
    /// `x >= y`
    GreaterEqual,
    /// `x > y`
    Greater,
    /// `x != y`
    NotEqual,
    /// `true`
    Always,
}

/// Stencil mask operation.
#[derive(Clone, Copy, Debug, PartialEq, Eq, Structural, PartialOrd, Ord, Hash)]
pub enum StencilOp {
    /// Keep the current value in the stencil buffer (no change).
    Keep,
    /// Set the value in the stencil buffer to zero.
    Zero,
    /// Set the stencil buffer value to the reference value of the side.
    Replace,
    /// Increment the stencil buffer value, clamping to its maximum value.
    IncrementClamp,
    /// Increment the stencil buffer value, wrapping around to 0 on overflow.
    IncrementWrap,
    /// Decrement the stencil buffer value, clamping to its minimum value.
    DecrementClamp,
    /// Decrement the stencil buffer value, wrapping around to the maximum
    /// value on overflow.
    DecrementWrap,
    /// Bitwise invert the current value in the stencil buffer.
    Invert,
}

/// Complete stencil state for a given side of a face.
#[derive(Clone, Copy, Debug, PartialEq, Eq, Structural, PartialOrd, Ord, Hash)]
pub struct StencilSide {
    /// Comparison function to use to determine if the stencil test passes.
    pub fun: Comparison,
    /// A mask that is ANDed with both the stencil buffer value and the
    /// reference value when they are read before doing the stencil test.
    pub mask_read: target::Stencil,
    /// A mask that is ANDed with the stencil value before writing to the
    /// stencil buffer.
    pub mask_write: target::Stencil,
    /// What operation to do if the stencil test fails.
    pub op_fail: StencilOp,
    /// What operation to do if the stencil test passes but the depth test
    /// fails.
    pub op_depth_fail: StencilOp,
    /// What operation to do if both the depth and stencil test pass.
    pub op_pass: StencilOp,
}

impl Default for StencilSide {
    /// An always-pass, non-modifying side: full masks, `Keep` everywhere.
    fn default() -> (r: StencilSide)
        ensures
            r == (StencilSide {
                fun: Comparison::Always,
                mask_read: 0xFF,
                mask_write: 0xFF,
                op_fail: StencilOp::Keep,
                op_depth_fail: StencilOp::Keep,
                op_pass: StencilOp::Keep,
            }),
    {
        StencilSide {
            fun: Comparison::Always,
            mask_read: 0xFF,
            mask_write: 0xFF,
            op_fail: StencilOp::Keep,
            op_depth_fail: StencilOp::Keep,
            op_pass: StencilOp::Keep,
        }
    }
}

/// Complete stencil state, specifying how to handle the front and back side
/// of a face.
#[derive(Clone, Copy, Debug, PartialEq, Eq, Structural, PartialOrd, Ord, Hash)]
pub struct Stencil {
    /// State applied to front-facing primitives.
    pub front: StencilSide,
    /// State applied to back-facing primitives.
    pub back: StencilSide,
}

impl Stencil {
    /// Create a new symmetric stencil state with a given function: both the
    /// front and the back side receive identical parameters, and the given
    /// mask is used both for reading and for writing.
    pub fn new(fun: Comparison, mask: target::Stencil, ops: (StencilOp, StencilOp, StencilOp))
        -> (r: Stencil)
        ensures
            r.front == (StencilSide {
                fun: fun,
                mask_read: mask,
                mask_write: mask,
                op_fail: ops.0,
                op_depth_fail: ops.1,
                op_pass: ops.2,
            }),
            r.back == r.front,
    {
        let side = StencilSide {
            fun: fun,
            mask_read: mask,
            mask_write: mask,
            op_fail: ops.0,
            op_depth_fail: ops.1,
            op_pass: ops.2,
        };
        Stencil { front: side, back: side }
    }
}

impl Default for Stencil {
    /// Both sides default: an always-pass, non-modifying test.
    fn default() -> (r: Stencil)
        ensures
            r.front == (StencilSide {
                fun: Comparison::Always,
                mask_read: 0xFF,
                mask_write: 0xFF,
                op_fail: StencilOp::Keep,
                op_depth_fail: StencilOp::Keep,
                op_pass: StencilOp::Keep,
            }),
            r.back == r.front,
    {
        Stencil { front: StencilSide::default(), back: StencilSide::default() }
    }
}

/// Depth test state.
#[derive(Clone, Copy, Debug, PartialEq, Eq, Structural, PartialOrd, Ord, Hash)]
pub struct Depth {
    /// Comparison function to use.
    pub fun: Comparison,
    /// Specify whether to write to the depth buffer or not.
    pub write: bool,
}

impl Default for Depth {
    /// An always-pass test that never writes the depth buffer.
    fn default() -> (r: Depth)
        ensures
            r == (Depth { fun: Comparison::Always, write: false }),
    {
        Depth { fun: Comparison::Always, write: false }
    }
}

/// The combination rule applied to the weighted source and destination
/// values of a blend channel.
#[derive(Clone, Copy, Debug, PartialEq, Eq, Structural, PartialOrd, Ord, Hash)]
pub enum Equation {
    /// Adds source and destination.  Source and destination are multiplied
    /// by blending parameters before addition.
    Add,
    /// Subtracts destination from source.  Source and destination are
    /// multiplied by blending parameters before subtraction.
    Sub,
    /// Subtracts source from destination.  Source and destination are
    /// multiplied by blending parameters before subtraction.
    RevSub,
    /// Component-wise minimum value of source and destination.  Blending
    /// parameters are ignored.
    Min,
    /// Component-wise maximum value of source and destination.  Blending
    /// parameters are ignored.
    Max,
}

/// A symbolic operand that a blend factor is derived from.
#[derive(Clone, Copy, Debug, PartialEq, Eq, Structural, PartialOrd, Ord, Hash)]
pub enum BlendValue {
    /// The color output of the fragment.
    SourceColor,
    /// The alpha output of the fragment.
    SourceAlpha,
    /// The color already in the render target.
    DestColor,
    /// The alpha already in the render target.
    DestAlpha,
    /// The constant blend color of the reference values.
    ConstColor,
    /// The constant blend alpha of the reference values.
    ConstAlpha,
}

/// A blend weight: a literal, or derived from a [`BlendValue`] with or
/// without inversion.
#[derive(Clone, Copy, Debug, PartialEq, Eq, Structural, PartialOrd, Ord, Hash)]
pub enum Factor {
    /// The constant weight zero.
    Zero,
    /// The constant weight one.
    One,
    /// The source alpha, clamped so that source and destination weights sum
    /// to at most one.
    SourceAlphaSaturated,
    /// The named operand itself.
    ZeroPlus(BlendValue),
    /// One minus the named operand.
    OneMinus(BlendValue),
}

/// One independent blend pipeline, applied to either the color or the alpha
/// channel of a target.
#[derive(Clone, Copy, Debug, PartialEq, Eq, Structural, PartialOrd, Ord, Hash)]
pub struct BlendChannel {
    /// How the weighted source and destination values are combined.
    pub equation: Equation,
    /// The weight applied to the incoming fragment value.
    pub source: Factor,
    /// The weight applied to the value already in the render target.
    pub destination: Factor,
}

impl Default for BlendChannel {
    /// Pass the source through: `source * 1 + destination * 0`.
    fn default() -> (r: BlendChannel)
        ensures
            r == (BlendChannel {
                equation: Equation::Add,
                source: Factor::One,
                destination: Factor::Zero,
            }),
    {
        BlendChannel { equation: Equation::Add, source: Factor::One, destination: Factor::Zero }
    }
}

/// The full two-channel blend function of one color target.
#[derive(Clone, Copy, Debug, PartialEq, Eq, Structural, PartialOrd, Hash)]
pub struct Blend {
    /// The blend pipeline of the color components.
    pub color: BlendChannel,
    /// The blend pipeline of the alpha component.
    pub alpha: BlendChannel,
}

impl Blend {
    /// Create a new blend state with a given equation: the color and the
    /// alpha channel share the same equation and factors.
    pub fn new(eq: Equation, src: Factor, dst: Factor) -> (r: Blend)
        ensures
            r.color == (BlendChannel { equation: eq, source: src, destination: dst }),
            r.alpha == r.color,
    {
        let chan = BlendChannel { equation: eq, source: src, destination: dst };
        Blend { color: chan, alpha: chan }
    }
}

impl Default for Blend {
    /// Both channels default: pass the source through.
    fn default() -> (r: Blend)
        ensures
            r.color == (BlendChannel {
                equation: Equation::Add,
                source: Factor::One,
                destination: Factor::Zero,
            }),
            r.alpha == r.color,
    {
        Blend { color: BlendChannel::default(), alpha: BlendChannel::default() }
    }
}

/// Bit of [`ColorMask`] that enables writing the red component.
pub const COLOR_MASK_RED: u8 = 0x1;
/// Bit of [`ColorMask`] that enables writing the green component.
pub const COLOR_MASK_GREEN: u8 = 0x2;
/// Bit of [`ColorMask`] that enables writing the blue component.
pub const COLOR_MASK_BLUE: u8 = 0x4;
/// Bit of [`ColorMask`] that enables writing the alpha component.
pub const COLOR_MASK_ALPHA: u8 = 0x8;
/// All four component bits of [`ColorMask`].
pub const COLOR_MASK_ALL: u8 = 0xF;

/// Which color components may be written to a render target.
#[derive(Clone, Copy, Debug, PartialEq, Eq, Structural, PartialOrd, Ord, Hash)]
pub struct ColorMask {
    /// The raw flag bits; only the bits of `COLOR_MASK_ALL` are meaningful.
    pub bits: u8,
}

impl ColorMask {
    /// The full flag set: every component is written.
    pub fn all() -> (r: ColorMask)
        ensures
            r.bits == COLOR_MASK_ALL,
    {
        ColorMask { bits: COLOR_MASK_ALL }
    }

    /// The empty flag set: no component is written.
    pub fn empty() -> (r: ColorMask)
        ensures
            r.bits == 0,
    {
        ColorMask { bits: 0 }
    }

    /// The union of two flag sets.
    pub fn union(self, other: ColorMask) -> (r: ColorMask)
        ensures
            r.bits == self.bits | other.bits,
    {
        ColorMask { bits: self.bits | other.bits }
    }

    /// The intersection of two flag sets.
    pub fn intersect(self, other: ColorMask) -> (r: ColorMask)
        ensures
            r.bits == self.bits & other.bits,
    {
        ColorMask { bits: self.bits & other.bits }
    }

    /// Whether every component of `other` is also enabled in `self`.
    pub fn contains(self, other: ColorMask) -> (r: bool)
        ensures
            r == (self.bits & other.bits == other.bits),
    {
        self.bits & other.bits == other.bits
    }
}

/// The state of an active color render target.
#[derive(Clone, Copy, Debug, PartialEq, Eq, PartialOrd, Hash)]
pub struct Color {
    /// Color mask to use.
    pub mask: ColorMask,
    /// Optional blending.
    pub blend: Option<Blend>,
}

impl Default for Color {
    /// Write every component, without blending.
    fn default() -> (r: Color)
        ensures
            r.mask.bits == COLOR_MASK_ALL,
            r.blend is None,
    {
        Color { mask: ColorMask::all(), blend: None }
    }
}

/// The complete set of the rasterizer reference values.  Switching these
/// does not roll the hardware context, so some native APIs allow setting
/// them without re-validating the full pipeline state.
#[derive(Clone, Copy, Debug, PartialEq, Eq, PartialOrd, Hash)]
pub struct RefValues {
    /// Stencil front and back reference values.
    pub stencil: (target::Stencil, target::Stencil),
    /// Constant blend color.
    pub blend: target::ColorValue,
}

impl Default for RefValues {
    /// Zero references: stencil `(0, 0)` and an all-zero blend color.
    fn default() -> (r: RefValues)
        ensures
            r.stencil == (0u8, 0u8),
            r.blend == (target::ColorValue { red: 0, green: 0, blue: 0, alpha: 0 }),
    {
        RefValues {
            stencil: (0, 0),
            blend: target::ColorValue { red: 0, green: 0, blue: 0, alpha: 0 },
        }
    }
}

} // verus!
