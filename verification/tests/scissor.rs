use imgui_gl_renderer::frame::{ClipRect, ScissorRect};

fn clip(x0: i32, y0: i32, x1: i32, y1: i32) -> ClipRect {
    ClipRect { x0, y0, x1, y1 }
}

#[test]
fn scissor_flips_the_vertical_axis() {
    let rect = clip(10, 20, 110, 70).to_scissor(600);
    assert_eq!(rect, ScissorRect { x: 10, y: 530, width: 100, height: 50 });
}

#[test]
fn scissor_of_the_whole_viewport() {
    let rect = clip(0, 0, 800, 600).to_scissor(600);
    assert_eq!(rect, ScissorRect { x: 0, y: 0, width: 800, height: 600 });
}

#[test]
fn scissor_of_a_rect_at_the_bottom_edge() {
    let rect = clip(5, 590, 15, 600).to_scissor(600);
    assert_eq!(rect, ScissorRect { x: 5, y: 0, width: 10, height: 10 });
}

#[test]
fn scissor_below_the_viewport_is_negative() {
    let rect = clip(0, 0, 10, 700).to_scissor(600);
    assert_eq!(rect, ScissorRect { x: 0, y: -100, width: 10, height: 700 });
}

#[test]
fn scissor_keeps_an_inverted_rect_as_it_is() {
    let rect = clip(50, 40, 30, 10).to_scissor(100);
    assert_eq!(rect, ScissorRect { x: 50, y: 90, width: -20, height: -30 });
}

#[test]
fn scissor_saturates_at_the_top() {
    let rect = clip(i32::MIN, i32::MIN, i32::MAX, i32::MAX).to_scissor(u32::MAX);
    assert_eq!(rect.x, i32::MIN);
    assert_eq!(rect.y, i32::MAX);
    assert_eq!(rect.width, i32::MAX);
    assert_eq!(rect.height, i32::MAX);
}

#[test]
fn scissor_saturates_at_the_bottom() {
    let rect = clip(i32::MAX, i32::MAX, i32::MIN, i32::MIN).to_scissor(0);
    assert_eq!(rect.x, i32::MAX);
    assert_eq!(rect.y, i32::MAX);
    assert_eq!(rect.width, i32::MIN);
    assert_eq!(rect.height, i32::MIN);
}

#[test]
fn scissor_with_a_large_viewport() {
    let rect = clip(0, 0, 1, -5).to_scissor(u32::MAX);
    assert_eq!(rect.y, i32::MAX);
    let rect = clip(0, 0, 1, i32::MAX).to_scissor(u32::MAX);
    assert_eq!(rect.y, i32::MAX);
    let rect = clip(0, 0, 1, i32::MAX).to_scissor(i32::MAX as u32 + 7);
    assert_eq!(rect.y, 7);
}
