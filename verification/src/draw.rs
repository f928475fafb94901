//! The draw-state aggregate: the complete fixed-function configuration of a
//! draw call, and the derivation of the set of render-target planes that a
//! configuration touches.

use vstd::prelude::*;

use crate::state::{
    Blend, Comparison, CullFace, Depth, FrontFace, MultiSample, RasterMethod, Rasterizer,
    RefValues, Stencil, StencilOp, StencilSide,
};
use crate::target;
use crate::target::{
    ColorValue, Mask, Rect, MASK_ALL, MASK_COLOR0, MASK_COLOR1, MASK_COLOR2, MASK_COLOR3,
    MASK_DEPTH, MASK_STENCIL,
};

verus! {

broadcast use vstd::array::group_array_axioms;

/// The number of color targets a draw state can blend independently.
pub const MAX_COLOR_TARGETS: usize = 4;

/// The complete set of fixed-function state applied to a draw call.
///
/// The presence of `stencil`, `depth` or `blend[i]` is the sole signal of
/// whether that stage is enabled: `None` means "disabled", not "default".
/// A draw state is a plain value; builders return a modified copy, so a
/// state can serve as a template for several draw calls.
#[derive(Clone, Copy, Debug, PartialEq, Eq, PartialOrd, Hash)]
pub struct DrawState {
    /// How primitives are rasterized.
    pub rasterizer: Rasterizer,
    /// The scissor rectangle, if scissor testing is enabled.
    pub scissor: Option<Rect>,
    /// The stencil test, if enabled.
    pub stencil: Option<Stencil>,
    /// The depth test, if enabled.
    pub depth: Option<Depth>,
    /// The blend function of each color target, if blending is enabled
    /// there.
    pub blend: [Option<Blend>; MAX_COLOR_TARGETS],
    /// The dynamically settable reference values.
    pub ref_values: RefValues,
}

impl DrawState {
    /// The mask of planes this state touches: the union of the stencil
    /// plane if the stencil test is enabled, the depth plane if the depth
    /// test is enabled, and each color plane whose blend slot is filled.
    pub open spec fn spec_target_mask(self) -> Mask {
        Mask {
            bits: (if self.stencil is Some {
                MASK_STENCIL
            } else {
                0
            }) | (if self.depth is Some {
                MASK_DEPTH
            } else {
                0
            }) | (if self.blend[0] is Some {
                MASK_COLOR0
            } else {
                0
            }) | (if self.blend[1] is Some {
                MASK_COLOR1
            } else {
                0
            }) | (if self.blend[2] is Some {
                MASK_COLOR2
            } else {
                0
            }) | (if self.blend[3] is Some {
                MASK_COLOR3
            } else {
                0
            }),
        }
    }

    /// The state after enabling a depth test; every other field is kept.
    pub open spec fn spec_depth(self, fun: Comparison, write: bool) -> DrawState {
        DrawState { depth: Some(Depth { fun: fun, write: write }), ..self }
    }

    /// The state after enabling a scissor rectangle; every other field is
    /// kept.
    pub open spec fn spec_scissor(self, x: u16, y: u16, w: u16, h: u16) -> DrawState {
        DrawState { scissor: Some(Rect { x: x, y: y, w: w, h: h }), ..self }
    }

    /// The side that the symmetric stencil builder installs: the given
    /// function, full read and write masks, and `Keep` for every operation.
    pub open spec fn spec_stencil_side(fun: Comparison) -> StencilSide {
        StencilSide {
            fun: fun,
            mask_read: 0xFF,
            mask_write: 0xFF,
            op_fail: StencilOp::Keep,
            op_depth_fail: StencilOp::Keep,
            op_pass: StencilOp::Keep,
        }
    }

    /// The state after enabling a symmetric stencil test and writing the
    /// reference value into both reference slots; every other field is
    /// kept.
    pub open spec fn spec_stencil(self, fun: Comparison, value: target::Stencil) -> DrawState {
        DrawState {
            stencil: Some(
                Stencil {
                    front: Self::spec_stencil_side(fun),
                    back: Self::spec_stencil_side(fun),
                },
            ),
            ref_values: RefValues { stencil: (value, value), ..self.ref_values },
            ..self
        }
    }

    /// The state after enabling multi-sampling; every other field is kept.
    pub open spec fn spec_multi_sample(self) -> DrawState {
        DrawState {
            rasterizer: Rasterizer { samples: Some(MultiSample), ..self.rasterizer },
            ..self
        }
    }

    /// Create a default state: fill rasterization with back-face culling,
    /// no scissor, no stencil test, no depth test, no blending on any
    /// target, and zero reference values.  Every fixed-function gate is
    /// disabled, so the state touches no render-target plane at all.
    pub fn new() -> (r: DrawState)
        ensures
            r.rasterizer == (Rasterizer {
                front_face: FrontFace::CounterClockwise,
                cull_face: CullFace::Back,
                method: RasterMethod::Fill,
                offset: None,
                samples: None,
            }),
            r.scissor is None,
            r.stencil is None,
            r.depth is None,
            forall|i: int| 0 <= i < 4 ==> r.blend[i] is None,
            r.ref_values.stencil == (0u8, 0u8),
            r.ref_values.blend == (ColorValue { red: 0, green: 0, blue: 0, alpha: 0 }),
    {
        DrawState {
            rasterizer: Rasterizer::new_fill().with_cull_back(),
            scissor: None,
            stencil: None,
            depth: None,
            blend: [None; 4],
            ref_values: RefValues {
                stencil: (0, 0),
                blend: ColorValue { red: 0, green: 0, blue: 0, alpha: 0 },
            },
        }
    }

    /// Return the mask of render-target planes this state touches: the
    /// union of the stencil plane if the stencil test is enabled, the
    /// depth plane if the depth test is enabled, and the color plane of
    /// each filled blend slot — and nothing else.
    pub fn get_target_mask(&self) -> (m: Mask)
        ensures
            m == self.spec_target_mask(),
    {
        let s: u8 = if self.stencil.is_some() {
            MASK_STENCIL
        } else {
            0
        };
        let d: u8 = if self.depth.is_some() {
            MASK_DEPTH
        } else {
            0
        };
        let c0: u8 = if self.blend[0].is_some() {
            MASK_COLOR0
        } else {
            0
        };
        let c1: u8 = if self.blend[1].is_some() {
            MASK_COLOR1
        } else {
            0
        };
        let c2: u8 = if self.blend[2].is_some() {
            MASK_COLOR2
        } else {
            0
        };
        let c3: u8 = if self.blend[3].is_some() {
            MASK_COLOR3
        } else {
            0
        };
        Mask { bits: s | d | c0 | c1 | c2 | c3 }
    }

    /// Enable a symmetric stencil test with full read and write masks and
    /// `Keep` for every operation, and write `value` into both the front
    /// and the back reference slot; every other field is kept.
    pub fn stencil(self, fun: Comparison, value: target::Stencil) -> (r: DrawState)
        ensures
            r == self.spec_stencil(fun, value),
            r.stencil matches Some(s) && s.front == s.back,
            r.ref_values.stencil == (value, value),
    {
        let side = StencilSide {
            fun: fun,
            mask_read: 0xFF,
            mask_write: 0xFF,
            op_fail: StencilOp::Keep,
            op_depth_fail: StencilOp::Keep,
            op_pass: StencilOp::Keep,
        };
        let mut r = self;
        r.stencil = Some(Stencil { front: side, back: side });
        r.ref_values.stencil = (value, value);
        r
    }

    /// Enable a depth test with the given comparison function and write
    /// switch; every other field is kept.
    pub fn depth(self, fun: Comparison, write: bool) -> (r: DrawState)
        ensures
            r == self.spec_depth(fun, write),
    {
        let mut r = self;
        r.depth = Some(Depth { fun: fun, write: write });
        r
    }

    /// Enable a scissor rectangle; every other field is kept.
    pub fn scissor(self, x: u16, y: u16, w: u16, h: u16) -> (r: DrawState)
        ensures
            r == self.spec_scissor(x, y, w, h),
    {
        let mut r = self;
        r.scissor = Some(Rect { x: x, y: y, w: w, h: h });
        r
    }

    /// Enable multi-sampled rasterization; every other field is kept.
    pub fn multi_sample(self) -> (r: DrawState)
        ensures
            r == self.spec_multi_sample(),
    {
        let mut r = self;
        r.rasterizer.samples = Some(MultiSample);
        r
    }

    /// Install a blend function into the first color-target slot; the
    /// other slots and every other field are kept.
    pub fn blend(self, b: Blend) -> (r: DrawState)
        ensures
            r.blend[0] == Some(b),
            r.blend[1] == self.blend[1],
            r.blend[2] == self.blend[2],
            r.blend[3] == self.blend[3],
            r.rasterizer == self.rasterizer,
            r.scissor == self.scissor,
            r.stencil == self.stencil,
            r.depth == self.depth,
            r.ref_values == self.ref_values,
    {
        let mut r = self;
        r.blend[0] = Some(b);
        r
    }
}

/// The target mask contains exactly the planes of the enabled stages:
/// each plane's bit is set if and only if its stage is enabled, and no bit
/// outside the planes is ever set.
pub proof fn lemma_target_mask_exact(ds: DrawState)
    ensures
        ds.spec_target_mask().bits & MASK_STENCIL == (if ds.stencil is Some {
            MASK_STENCIL
        } else {
            0u8
        }),
        ds.spec_target_mask().bits & MASK_DEPTH == (if ds.depth is Some {
            MASK_DEPTH
        } else {
            0u8
        }),
        ds.spec_target_mask().bits & MASK_COLOR0 == (if ds.blend[0] is Some {
            MASK_COLOR0
        } else {
            0u8
        }),
        ds.spec_target_mask().bits & MASK_COLOR1 == (if ds.blend[1] is Some {
            MASK_COLOR1
        } else {
            0u8
        }),
        ds.spec_target_mask().bits & MASK_COLOR2 == (if ds.blend[2] is Some {
            MASK_COLOR2
        } else {
            0u8
        }),
        ds.spec_target_mask().bits & MASK_COLOR3 == (if ds.blend[3] is Some {
            MASK_COLOR3
        } else {
            0u8
        }),
        ds.spec_target_mask().bits & !MASK_ALL == 0,
{
    let s: u8 = if ds.stencil is Some { MASK_STENCIL } else { 0 };
    let d: u8 = if ds.depth is Some { MASK_DEPTH } else { 0 };
    let c0: u8 = if ds.blend[0] is Some { MASK_COLOR0 } else { 0 };
    let c1: u8 = if ds.blend[1] is Some { MASK_COLOR1 } else { 0 };
    let c2: u8 = if ds.blend[2] is Some { MASK_COLOR2 } else { 0 };
    let c3: u8 = if ds.blend[3] is Some { MASK_COLOR3 } else { 0 };
    assert(ds.spec_target_mask().bits == s | d | c0 | c1 | c2 | c3);
    assert((s | d | c0 | c1 | c2 | c3) & 0x20u8 == s && (s | d | c0 | c1 | c2 | c3) & 0x10u8 == d
        && (s | d | c0 | c1 | c2 | c3) & 0x01u8 == c0 && (s | d | c0 | c1 | c2 | c3) & 0x02u8 == c1
        && (s | d | c0 | c1 | c2 | c3) & 0x04u8 == c2 && (s | d | c0 | c1 | c2 | c3) & 0x08u8 == c3
        && (s | d | c0 | c1 | c2 | c3) & !0x3Fu8 == 0) by (bit_vector)
        requires
            s == 0x20u8 || s == 0u8,
            d == 0x10u8 || d == 0u8,
            c0 == 0x01u8 || c0 == 0u8,
            c1 == 0x02u8 || c1 == 0u8,
            c2 == 0x04u8 || c2 == 0u8,
            c3 == 0x08u8 || c3 == 0u8,
    ;
}

/// Builders of independent fields commute: enabling the depth test, the
/// scissor rectangle and the symmetric stencil test in any order yields
/// the same final draw state.
pub proof fn lemma_builders_commute(
    ds: DrawState,
    f: Comparison,
    w: bool,
    x: u16,
    y: u16,
    sw: u16,
    sh: u16,
    f2: Comparison,
    v: target::Stencil,
)
    ensures
        ds.spec_depth(f, w).spec_scissor(x, y, sw, sh) == ds.spec_scissor(
            x,
            y,
            sw,
            sh,
        ).spec_depth(f, w),
        ds.spec_depth(f, w).spec_stencil(f2, v) == ds.spec_stencil(f2, v).spec_depth(f, w),
        ds.spec_scissor(x, y, sw, sh).spec_stencil(f2, v) == ds.spec_stencil(
            f2,
            v,
        ).spec_scissor(x, y, sw, sh),
{
}

} // verus!
