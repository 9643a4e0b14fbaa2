use common::gfx::{
    ClearMode, DrawMode, CLEAR_ALL_BITS, CLEAR_COLOR_BIT, CLEAR_DEPTH_BIT, CLEAR_STENCIL_BIT,
};

#[test]
fn draw_mode_gl_values() {
    assert_eq!(DrawMode::Points.into_gl(), 0x0000);
    assert_eq!(DrawMode::Lines.into_gl(), 0x0001);
    assert_eq!(DrawMode::LineStrip.into_gl(), 0x0003);
    assert_eq!(DrawMode::Triangles.into_gl(), 0x0004);
}

#[test]
fn clear_mode_gl_mask() {
    assert_eq!(ClearMode { bits: 0 }.into_gl(), 0);
    assert_eq!(ClearMode { bits: CLEAR_COLOR_BIT }.into_gl(), 0x4000);
    assert_eq!(ClearMode { bits: CLEAR_DEPTH_BIT }.into_gl(), 0x0100);
    assert_eq!(ClearMode { bits: CLEAR_STENCIL_BIT }.into_gl(), 0x0400);
    assert_eq!(ClearMode { bits: CLEAR_COLOR_BIT | CLEAR_STENCIL_BIT }.into_gl(), 0x4400);
    assert_eq!(ClearMode { bits: CLEAR_ALL_BITS }.into_gl(), 0x4500);
}

#[test]
fn clear_mode_contains() {
    let all = ClearMode { bits: CLEAR_ALL_BITS };
    let color = ClearMode { bits: CLEAR_COLOR_BIT };
    assert!(all.contains(color));
    assert!(!color.contains(all));
    assert!(color.contains(ClearMode { bits: 0 }));
}
