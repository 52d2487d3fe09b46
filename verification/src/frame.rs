use vstd::prelude::*;

verus! {

/// A clip rectangle in pixel space, whose origin is the top left corner of
/// the viewport: `(x0, y0)` is its top left corner and `(x1, y1)` its bottom
/// right one.
#[derive(Clone, Copy, Debug, PartialEq, Eq)]
pub struct ClipRect {
    pub x0: i32,
    pub y0: i32,
    pub x1: i32,
    pub y1: i32,
}

/// A scissor rectangle as the graphics API takes it: `(x, y)` is its bottom
/// left corner, counted from the bottom left corner of the viewport.
#[derive(Clone, Copy, Debug, PartialEq, Eq)]
pub struct ScissorRect {
    pub x: i32,
    pub y: i32,
    pub width: i32,
    pub height: i32,
}

/// One draw command of a frame: the next `element_count` indices of the
/// frame's index buffer are drawn as triangles, clipped to `clip_rect`.
#[derive(Clone, Copy, Debug, PartialEq, Eq)]
pub struct DrawCommand {
    pub clip_rect: ClipRect,
    pub element_count: u32,
}

/// The size of the viewport in pixels.
#[derive(Clone, Copy, Debug, PartialEq, Eq)]
pub struct Viewport {
    pub width: u32,
    pub height: u32,
}

/// What the renderer reads of one draw list: how many vertices and indices
/// its two buffers hold, and its commands in the order in which they are
/// drawn. The vertices and indices themselves stay with the caller, who
/// hands them to the graphics API when an upload is called for.
#[derive(Debug, PartialEq, Eq)]
pub struct DrawList {
    pub vertex_count: usize,
    pub index_count: usize,
    pub commands: Vec<DrawCommand>,
}

/// The number nearest to `v` that an `i32` holds.
pub open spec fn clamp_i32(v: int) -> i32 {
    if v < i32::MIN {
        i32::MIN
    } else if v > i32::MAX {
        i32::MAX
    } else {
        v as i32
    }
}

/// The scissor rectangle that covers the clip rectangle `clip` in a viewport
/// `viewport_height` pixels high. The vertical axis is flipped: the
/// rectangle's lower edge lies `viewport_height - clip.y1` above the bottom.
/// A coordinate that an `i32` cannot hold is replaced by the nearest one.
pub open spec fn scissor_of(clip: ClipRect, viewport_height: u32) -> ScissorRect {
    ScissorRect {
        x: clip.x0,
        y: clamp_i32(viewport_height - clip.y1),
        width: clamp_i32(clip.x1 - clip.x0),
        height: clamp_i32(clip.y1 - clip.y0),
    }
}

fn clamp(v: i64) -> (r: i32)
    ensures
        r == clamp_i32(v as int),
{
    if v < i32::MIN as i64 {
        i32::MIN
    } else if v > i32::MAX as i64 {
        i32::MAX
    } else {
        v as i32
    }
}

impl ClipRect {
    /// Converts this clip rectangle to the scissor rectangle of a viewport
    /// `viewport_height` pixels high.
    pub fn to_scissor(&self, viewport_height: u32) -> (rect: ScissorRect)
        ensures
            rect == scissor_of(*self, viewport_height),
    {
        ScissorRect {
            x: self.x0,
            y: clamp(viewport_height as i64 - self.y1 as i64),
            width: clamp(self.x1 as i64 - self.x0 as i64),
            height: clamp(self.y1 as i64 - self.y0 as i64),
        }
    }
}

/// Where no coordinate overflows, a scissor rectangle is as wide and as high
/// as its clip rectangle, starts at the same column, and its upper edge lies
/// as far below the top of the viewport as the clip rectangle's.
pub proof fn scissor_keeps_extent(clip: ClipRect, viewport_height: u32)
    requires
        0 <= clip.x1 - clip.x0 <= i32::MAX,
        0 <= clip.y0 <= clip.y1,
        clip.y1 <= viewport_height <= i32::MAX,
    ensures
        scissor_of(clip, viewport_height).x == clip.x0,
        scissor_of(clip, viewport_height).width == clip.x1 - clip.x0,
        scissor_of(clip, viewport_height).height == clip.y1 - clip.y0,
        scissor_of(clip, viewport_height).y >= 0,
        viewport_height - (scissor_of(clip, viewport_height).y + scissor_of(
            clip,
            viewport_height,
        ).height) == clip.y0,
{
}

} // verus!
