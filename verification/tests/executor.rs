use imgui_gl_renderer::call::GlCall;
use imgui_gl_renderer::executor::{commands_in_bounds, issue};
use imgui_gl_renderer::frame::{ClipRect, DrawCommand};

fn command(element_count: u32) -> DrawCommand {
    DrawCommand { clip_rect: ClipRect { x0: 0, y0: 0, x1: 100, y1: 100 }, element_count }
}

#[test]
fn issue_of_no_command_is_empty() {
    assert_eq!(issue(&Vec::new(), 600), Vec::new());
}

#[test]
fn issue_makes_two_calls_for_each_command() {
    let commands = vec![
        DrawCommand { clip_rect: ClipRect { x0: 10, y0: 20, x1: 110, y1: 70 }, element_count: 6 },
        DrawCommand { clip_rect: ClipRect { x0: 0, y0: 0, x1: 800, y1: 600 }, element_count: 12 },
        DrawCommand { clip_rect: ClipRect { x0: 1, y0: 2, x1: 3, y1: 4 }, element_count: 3 },
    ];
    let calls = issue(&commands, 600);
    assert_eq!(
        calls,
        vec![
            GlCall::Scissor { x: 10, y: 530, width: 100, height: 50 },
            GlCall::DrawElements { count: 6, offset: 0 },
            GlCall::Scissor { x: 0, y: 0, width: 800, height: 600 },
            GlCall::DrawElements { count: 12, offset: 12 },
            GlCall::Scissor { x: 1, y: 596, width: 2, height: 2 },
            GlCall::DrawElements { count: 3, offset: 36 },
        ]
    );
}

#[test]
fn issue_offsets_are_running_sums() {
    let counts: Vec<u32> = vec![6, 0, 30, 3, 999, 1];
    let commands: Vec<DrawCommand> = counts.iter().map(|c| command(*c)).collect();
    let calls = issue(&commands, 100);
    assert_eq!(calls.len(), 2 * counts.len());
    let mut before: usize = 0;
    for (i, count) in counts.iter().enumerate() {
        assert_eq!(calls[2 * i], GlCall::Scissor { x: 0, y: 0, width: 100, height: 100 });
        assert_eq!(calls[2 * i + 1], GlCall::DrawElements { count: *count, offset: 2 * before });
        before += *count as usize;
    }
}

#[test]
fn issue_draws_once_per_command() {
    let commands: Vec<DrawCommand> = (0..50).map(|_| command(3)).collect();
    let calls = issue(&commands, 100);
    let draws = calls.iter().filter(|c| matches!(c, GlCall::DrawElements { .. })).count();
    assert_eq!(draws, 50);
}

#[test]
fn issue_fills_the_index_buffer_to_its_last_byte() {
    let commands = vec![command(262143), command(1)];
    let calls = issue(&commands, 100);
    assert_eq!(calls[1], GlCall::DrawElements { count: 262143, offset: 0 });
    assert_eq!(calls[3], GlCall::DrawElements { count: 1, offset: 524286 });
}

#[test]
fn commands_in_bounds_up_to_the_capacity() {
    assert!(commands_in_bounds(&Vec::new()));
    assert!(commands_in_bounds(&vec![command(262144)]));
    assert!(commands_in_bounds(&vec![command(262143), command(1)]));
    assert!(commands_in_bounds(&vec![command(0), command(0)]));
}

#[test]
fn commands_out_of_bounds_beyond_the_capacity() {
    assert!(!commands_in_bounds(&vec![command(262145)]));
    assert!(!commands_in_bounds(&vec![command(262144), command(1)]));
    assert!(!commands_in_bounds(&vec![command(u32::MAX)]));
    assert!(!commands_in_bounds(&vec![command(u32::MAX), command(u32::MAX), command(2)]));
    assert!(!commands_in_bounds(&vec![command(1), command(262144), command(0)]));
}
