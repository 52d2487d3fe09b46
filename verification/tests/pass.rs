use imgui_gl_renderer::call::{BufferTarget, Capability, GlCall};
use imgui_gl_renderer::pass::{GlError, Pass};
use imgui_gl_renderer::renderer::Renderer;

fn plan() -> Vec<GlCall> {
    vec![
        GlCall::BindBuffer { target: BufferTarget::Array, buffer: 1 },
        GlCall::UseProgram { program: 2 },
        GlCall::Enable { capability: Capability::Blend },
        GlCall::DrawElements { count: 3, offset: 0 },
    ]
}

/// Carries a pass out against an API that reports `code` after call `at`.
fn carry(pass: &mut Pass, at: usize, code: u32) -> Vec<GlCall> {
    let mut made = Vec::new();
    while let Some(call) = pass.pending() {
        assert_eq!(pass.outcome(), None);
        let reported = if made.len() == at { code } else { 0 };
        made.push(call);
        pass.advance(reported);
        assert!(made.len() < 100);
    }
    made
}

#[test]
fn pass_without_an_error_makes_its_plan() {
    let mut pass = Pass::new(plan());
    let made = carry(&mut pass, usize::MAX, 0);
    assert_eq!(made, plan());
    assert_eq!(pass.outcome(), Some(Ok(())));
}

#[test]
fn pass_restores_after_an_error() {
    let mut pass = Pass::new(plan());
    let made = carry(&mut pass, 1, 1282);
    let mut expected = plan()[..2].to_vec();
    expected.extend(Renderer::restore());
    assert_eq!(made, expected);
    let error = GlError { call: GlCall::UseProgram { program: 2 }, code: 1282 };
    assert_eq!(pass.outcome(), Some(Err(error)));
}

#[test]
fn pass_restores_after_an_error_at_its_last_call() {
    let mut pass = Pass::new(plan());
    let made = carry(&mut pass, 3, 1285);
    let mut expected = plan();
    expected.extend(Renderer::restore());
    assert_eq!(made, expected);
    let error = GlError { call: GlCall::DrawElements { count: 3, offset: 0 }, code: 1285 };
    assert_eq!(pass.outcome(), Some(Err(error)));
}

#[test]
fn pass_keeps_the_first_error() {
    let mut pass = Pass::new(plan());
    assert_eq!(pass.pending(), Some(plan()[0]));
    pass.advance(1280);
    assert_eq!(pass.outcome(), None);
    let restore = Renderer::restore();
    for back in restore.iter() {
        assert_eq!(pass.pending(), Some(*back));
        pass.advance(1281);
    }
    assert_eq!(pass.pending(), None);
    assert_eq!(pass.outcome(), Some(Err(GlError { call: plan()[0], code: 1280 })));
}

#[test]
fn pass_through_an_empty_plan_is_through() {
    let mut pass = Pass::new(Vec::new());
    assert_eq!(pass.pending(), None);
    assert_eq!(pass.outcome(), Some(Ok(())));
    pass.advance(1280);
    assert_eq!(pass.pending(), None);
    assert_eq!(pass.outcome(), Some(Ok(())));
}

#[test]
fn pass_that_is_through_stays_as_it_is() {
    let mut pass = Pass::new(plan());
    carry(&mut pass, usize::MAX, 0);
    pass.advance(1280);
    assert_eq!(pass.pending(), None);
    assert_eq!(pass.outcome(), Some(Ok(())));
}
