use vstd::prelude::*;
use crate::call::GlCall;
use crate::frame::{scissor_of, DrawCommand};
use crate::mesh::{BUFFER_CAPACITY, INDEX_SIZE};

verus! {

/// Number of indices that the first `i` commands consume together.
pub open spec fn elements_before(commands: Seq<DrawCommand>, i: int) -> int
    decreases i,
{
    if i <= 0 {
        0
    } else {
        elements_before(commands, i - 1) + commands[i - 1].element_count
    }
}

/// Number of indices that all commands consume together.
pub open spec fn total_elements(commands: Seq<DrawCommand>) -> int {
    elements_before(commands, commands.len() as int)
}

/// Whether the commands stay inside the index buffer: the indices they
/// consume together take no more bytes than the buffer has.
pub open spec fn commands_fit(commands: Seq<DrawCommand>) -> bool {
    total_elements(commands) * INDEX_SIZE <= BUFFER_CAPACITY
}

/// The call that sets the scissor rectangle of command `i`.
pub open spec fn scissor_call(commands: Seq<DrawCommand>, viewport_height: u32, i: int) -> GlCall {
    let rect = scissor_of(commands[i].clip_rect, viewport_height);
    GlCall::Scissor { x: rect.x, y: rect.y, width: rect.width, height: rect.height }
}

/// The draw call of command `i`: it consumes the command's own indices,
/// which start where those of the commands before it end.
pub open spec fn draw_call(commands: Seq<DrawCommand>, i: int) -> GlCall {
    GlCall::DrawElements {
        count: commands[i].element_count,
        offset: (elements_before(commands, i) * INDEX_SIZE) as usize,
    }
}

/// The calls that draw the commands of one frame, in the order of the
/// commands: for each command its scissor rectangle is set, then its indices
/// are drawn.
pub open spec fn issued(commands: Seq<DrawCommand>, viewport_height: u32) -> Seq<GlCall> {
    Seq::new(
        2 * commands.len(),
        |k: int|
            if k % 2 == 0 {
                scissor_call(commands, viewport_height, k / 2)
            } else {
                draw_call(commands, k / 2)
            },
    )
}

/// No prefix of the commands consumes a negative number of indices.
pub proof fn elements_before_is_natural(commands: Seq<DrawCommand>, i: int)
    ensures
        0 <= elements_before(commands, i),
    decreases i,
{
    if i > 0 {
        elements_before_is_natural(commands, i - 1);
    }
}

/// A longer prefix of the commands consumes no fewer indices than a shorter
/// one, and at least as many more as the first command behind the shorter
/// one consumes.
pub proof fn elements_before_grows(commands: Seq<DrawCommand>, i: int, j: int)
    requires
        0 <= i <= j <= commands.len(),
    ensures
        0 <= elements_before(commands, i) <= elements_before(commands, j),
        i < j ==> elements_before(commands, i) + commands[i].element_count <= elements_before(
            commands,
            j,
        ),
    decreases j - i,
{
    elements_before_is_natural(commands, i);
    if i < j {
        elements_before_grows(commands, i, j - 1);
    }
}

/// Where the commands stay inside the index buffer, so does each draw call:
/// the indices that it consumes end no later than the buffer, and the next
/// command's begin where they end.
pub proof fn draws_stay_in_buffer(commands: Seq<DrawCommand>, i: int)
    requires
        commands_fit(commands),
        0 <= i < commands.len(),
    ensures
        0 <= elements_before(commands, i) * INDEX_SIZE,
        elements_before(commands, i) * INDEX_SIZE + commands[i].element_count * INDEX_SIZE
            <= BUFFER_CAPACITY,
        elements_before(commands, i + 1) * INDEX_SIZE == elements_before(commands, i) * INDEX_SIZE
            + commands[i].element_count * INDEX_SIZE,
        draw_call(commands, i)->DrawElements_offset == elements_before(commands, i) * INDEX_SIZE,
{
    elements_before_grows(commands, i, commands.len() as int);
}

/// Tells whether the commands stay inside the index buffer.
pub fn commands_in_bounds(commands: &Vec<DrawCommand>) -> (fit: bool)
    ensures
        fit == commands_fit(commands@),
{
    let limit: usize = BUFFER_CAPACITY / INDEX_SIZE;
    let mut sum: usize = 0;
    let mut i: usize = 0;
    while i < commands.len()
        invariant
            i <= commands.len(),
            limit == BUFFER_CAPACITY / INDEX_SIZE,
            sum == elements_before(commands@, i as int),
            sum <= limit,
        decreases commands.len() - i,
    {
        let count: u32 = commands[i].element_count;
        if count as usize > limit - sum {
            proof {
                elements_before_grows(commands@, i as int, commands@.len() as int);
            }
            return false;
        }
        sum = sum + count as usize;
        i = i + 1;
    }
    true
}

/// Plans the draw calls of one frame's commands for a viewport
/// `viewport_height` pixels high. Nothing is reordered, merged or left out.
///
/// The result has two calls for each command, the command's scissor
/// rectangle and then its draw call, which consumes the command's own number
/// of indices from the byte at which the indices of the commands before it
/// end.
pub fn issue(commands: &Vec<DrawCommand>, viewport_height: u32) -> (calls: Vec<GlCall>)
    requires
        commands_fit(commands@),
    ensures
        calls@ == issued(commands@, viewport_height),
        calls@.len() == 2 * commands@.len(),
        forall|i: int|
            0 <= i < commands@.len() ==> #[trigger] calls@[2 * i] == scissor_call(
                commands@,
                viewport_height,
                i,
            ),
        forall|i: int|
            0 <= i < commands@.len() ==> #[trigger] calls@[2 * i + 1] == draw_call(commands@, i),
{
    let mut calls: Vec<GlCall> = Vec::new();
    let mut offset: usize = 0;
    let mut i: usize = 0;
    while i < commands.len()
        invariant
            i <= commands.len(),
            commands_fit(commands@),
            offset == elements_before(commands@, i as int) * INDEX_SIZE,
            calls@ == issued(commands@.take(i as int), viewport_height),
        decreases commands.len() - i,
    {
        let command = commands[i];
        let rect = command.clip_rect.to_scissor(viewport_height);
        proof {
            elements_before_grows(commands@, i as int, commands@.len() as int);
            issued_take_next(commands@, viewport_height, i as int);
        }
        calls.push(GlCall::Scissor { x: rect.x, y: rect.y, width: rect.width, height: rect.height });
        calls.push(GlCall::DrawElements { count: command.element_count, offset });
        offset = offset + command.element_count as usize * INDEX_SIZE;
        i = i + 1;
    }
    proof {
        assert(commands@.take(i as int) =~= commands@);
        assert forall|i: int| 0 <= i < commands@.len() implies #[trigger] calls@[2 * i]
            == scissor_call(commands@, viewport_height, i) by {
            assert((2 * i) % 2 == 0 && (2 * i) / 2 == i) by (nonlinear_arith);
        }
        assert forall|i: int| 0 <= i < commands@.len() implies #[trigger] calls@[2 * i + 1]
            == draw_call(commands@, i) by {
            assert((2 * i + 1) % 2 == 1 && (2 * i + 1) / 2 == i) by (nonlinear_arith);
        }
    }
    calls
}

/// The commands before a command of a prefix are those before it in the
/// whole sequence.
proof fn elements_before_take(commands: Seq<DrawCommand>, n: int, i: int)
    requires
        0 <= i <= n <= commands.len(),
    ensures
        elements_before(commands.take(n), i) == elements_before(commands, i),
    decreases i,
{
    if i > 0 {
        elements_before_take(commands, n, i - 1);
    }
}

/// The calls of the first `i + 1` commands are those of the first `i`,
/// followed by the two calls of command `i`.
proof fn issued_take_next(commands: Seq<DrawCommand>, viewport_height: u32, i: int)
    requires
        0 <= i < commands.len(),
    ensures
        issued(commands.take(i + 1), viewport_height) == issued(
            commands.take(i),
            viewport_height,
        ).push(scissor_call(commands, viewport_height, i)).push(draw_call(commands, i)),
{
    let longer = issued(commands.take(i + 1), viewport_height);
    let shorter = issued(commands.take(i), viewport_height);
    let built = shorter.push(scissor_call(commands, viewport_height, i)).push(
        draw_call(commands, i),
    );
    assert(longer.len() == built.len());
    assert forall|k: int| 0 <= k < longer.len() implies longer[k] == built[k] by {
        let c = k / 2;
        assert(0 <= c <= i);
        elements_before_take(commands, i + 1, c);
        if c < i {
            elements_before_take(commands, i, c);
        }
    }
    assert(longer =~= built);
}

} // verus!
