use draw_state::state::{
    Blend, BlendChannel, BlendValue, Color, ColorMask, Comparison, CullFace, Depth, Equation,
    Factor, FrontFace, MultiSample, Offset, RasterMethod, Rasterizer, RefValues, Stencil,
    StencilOp, StencilSide, COLOR_MASK_ALL, COLOR_MASK_BLUE, COLOR_MASK_GREEN, COLOR_MASK_RED,
};
use draw_state::target::{ColorValue, Mirror, Rect, MIRROR_X, MIRROR_Y};

#[test]
fn new_fill_is_inert() {
    let r = Rasterizer::new_fill();
    assert_eq!(r.front_face, FrontFace::CounterClockwise);
    assert_eq!(r.cull_face, CullFace::Nothing);
    assert_eq!(r.method, RasterMethod::Fill);
    assert_eq!(r.offset, None);
    assert_eq!(r.samples, None);
}

#[test]
fn with_cull_back_keeps_other_fields() {
    let r = Rasterizer::new_fill().with_cull_back();
    assert_eq!(r.cull_face, CullFace::Back);
    assert_eq!(r.front_face, FrontFace::CounterClockwise);
    assert_eq!(r.method, RasterMethod::Fill);
    assert_eq!(r.offset, None);
    assert_eq!(r.samples, None);
}

#[test]
fn with_offset_sets_only_offset() {
    let r = Rasterizer::new_fill().with_cull_back().with_offset(2, -3);
    assert_eq!(r.offset, Some(Offset(2, -3)));
    assert_eq!(r.cull_face, CullFace::Back);
    assert_eq!(r.method, RasterMethod::Fill);
    assert_eq!(r.samples, None);
}

#[test]
fn stencil_side_default_is_noop() {
    let s = StencilSide::default();
    assert_eq!(s.fun, Comparison::Always);
    assert_eq!(s.mask_read, 0xFF);
    assert_eq!(s.mask_write, 0xFF);
    assert_eq!(s.op_fail, StencilOp::Keep);
    assert_eq!(s.op_depth_fail, StencilOp::Keep);
    assert_eq!(s.op_pass, StencilOp::Keep);
}

#[test]
fn stencil_default_is_symmetric_noop() {
    let s = Stencil::default();
    assert_eq!(s.front, StencilSide::default());
    assert_eq!(s.back, s.front);
}

#[test]
fn stencil_new_is_symmetric() {
    let s = Stencil::new(
        Comparison::NotEqual,
        0x0F,
        (StencilOp::Keep, StencilOp::Zero, StencilOp::Replace),
    );
    assert_eq!(s.front, s.back);
    assert_eq!(s.front.fun, Comparison::NotEqual);
    assert_eq!(s.front.mask_read, 0x0F);
    assert_eq!(s.front.mask_write, 0x0F);
    assert_eq!(s.front.op_fail, StencilOp::Keep);
    assert_eq!(s.front.op_depth_fail, StencilOp::Zero);
    assert_eq!(s.front.op_pass, StencilOp::Replace);
}

#[test]
fn depth_default_is_pass_no_write() {
    let d = Depth::default();
    assert_eq!(d.fun, Comparison::Always);
    assert!(!d.write);
}

#[test]
fn blend_channel_default_passes_source() {
    let c = BlendChannel::default();
    assert_eq!(c.equation, Equation::Add);
    assert_eq!(c.source, Factor::One);
    assert_eq!(c.destination, Factor::Zero);
}

#[test]
fn blend_new_is_symmetric() {
    let b = Blend::new(
        Equation::RevSub,
        Factor::SourceAlphaSaturated,
        Factor::OneMinus(BlendValue::DestAlpha),
    );
    assert_eq!(b.color, b.alpha);
    assert_eq!(b.color.equation, Equation::RevSub);
    assert_eq!(b.color.source, Factor::SourceAlphaSaturated);
    assert_eq!(b.color.destination, Factor::OneMinus(BlendValue::DestAlpha));
}

#[test]
fn blend_default_is_both_channels_default() {
    let b = Blend::default();
    assert_eq!(b.color, BlendChannel::default());
    assert_eq!(b.alpha, BlendChannel::default());
}

#[test]
fn color_mask_all_and_empty() {
    assert_eq!(ColorMask::all().bits, COLOR_MASK_ALL);
    assert_eq!(ColorMask::all().bits, 0xF);
    assert_eq!(ColorMask::empty().bits, 0);
}

#[test]
fn color_mask_set_operations() {
    let rg = ColorMask { bits: COLOR_MASK_RED | COLOR_MASK_GREEN };
    let gb = ColorMask { bits: COLOR_MASK_GREEN | COLOR_MASK_BLUE };
    assert_eq!(rg.union(gb).bits, 0x7);
    assert_eq!(rg.intersect(gb).bits, COLOR_MASK_GREEN);
    assert!(ColorMask::all().contains(rg));
    assert!(!rg.contains(gb));
}

#[test]
fn color_default_writes_everything_without_blend() {
    let c = Color::default();
    assert_eq!(c.mask, ColorMask::all());
    assert_eq!(c.blend, None);
}

#[test]
fn ref_values_default_is_zero() {
    let r = RefValues::default();
    assert_eq!(r.stencil, (0, 0));
    assert_eq!(r.blend, ColorValue { red: 0, green: 0, blue: 0, alpha: 0 });
}

#[test]
fn rect_holds_its_corners() {
    let r = Rect { x: 1, y: 2, w: 3, h: 4 };
    assert_eq!((r.x, r.y, r.w, r.h), (1, 2, 3, 4));
    assert_eq!(r, Rect { x: 1, y: 2, w: 3, h: 4 });
}

#[test]
fn mirror_set_operations() {
    let x = Mirror { bits: MIRROR_X };
    let y = Mirror { bits: MIRROR_Y };
    assert_eq!(Mirror::empty().bits, 0);
    assert_eq!(x.union(y).bits, 0x3);
    assert_eq!(x.intersect(y).bits, 0);
    assert!(x.union(y).contains(x));
    assert!(!x.contains(y));
}

#[test]
fn multi_sample_is_a_unit_marker() {
    assert_eq!(MultiSample, MultiSample);
}
