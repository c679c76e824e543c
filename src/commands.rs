use vstd::prelude::*;

use crate::error::SetupError;
use crate::swapchain::Extent2D;

verus! {

/// A clear value given as four raw 32-bit channels.
#[derive(Clone, Copy, Debug, PartialEq, Eq, Structural)]
pub struct ClearColor {
    pub r: u32,
    pub g: u32,
    pub b: u32,
    pub a: u32,
}

/// One command recorded into a frame's command buffer.
#[derive(Clone, Copy, Debug, PartialEq, Eq, Structural)]
pub enum FrameCommand {
    /// Begin the render pass on a framebuffer, over the whole target, clearing it first.
    BeginRenderPass { framebuffer: usize, render_area: Extent2D, clear_color: ClearColor },
    /// Bind the graphics pipeline.
    BindPipeline,
    /// Draw vertices produced inside the vertex stage.
    Draw { vertex_count: u32, instance_count: u32, first_vertex: u32, first_instance: u32 },
    EndRenderPass,
}

pub open spec fn opaque_black() -> ClearColor {
    ClearColor { r: 0, g: 0, b: 0, a: 1 }
}

/// The fixed command sequence of one frame drawn into framebuffer `framebuffer`.
pub open spec fn spec_frame_commands(framebuffer: usize, extent: Extent2D) -> Seq<FrameCommand> {
    seq![
        FrameCommand::BeginRenderPass {
            framebuffer,
            render_area: extent,
            clear_color: opaque_black(),
        },
        FrameCommand::BindPipeline,
        FrameCommand::Draw { vertex_count: 3, instance_count: 1, first_vertex: 0, first_instance: 0 },
        FrameCommand::EndRenderPass,
    ]
}

/// The commands that draw the triangle into the framebuffer of the acquired image: clear to
/// opaque black, bind the pipeline, draw three vertices once.
pub fn frame_commands(image_index: u32, framebuffer_count: usize, extent: Extent2D) -> (r:
    Result<Vec<FrameCommand>, SetupError>)
    ensures
        (image_index as int) < framebuffer_count ==> r is Ok && r->Ok_0@ == spec_frame_commands(
            image_index as usize,
            extent,
        ),
        (image_index as int) >= framebuffer_count ==> r == Err::<Vec<FrameCommand>, SetupError>(
            SetupError::ImageIndexOutOfRange,
        ),
{
    if image_index as usize >= framebuffer_count {
        return Err(SetupError::ImageIndexOutOfRange);
    }
    let framebuffer = image_index as usize;
    let mut commands: Vec<FrameCommand> = Vec::new();
    commands.push(
        FrameCommand::BeginRenderPass {
            framebuffer,
            render_area: extent,
            clear_color: ClearColor { r: 0, g: 0, b: 0, a: 1 },
        },
    );
    commands.push(FrameCommand::BindPipeline);
    commands.push(
        FrameCommand::Draw { vertex_count: 3, instance_count: 1, first_vertex: 0, first_instance: 0 },
    );
    commands.push(FrameCommand::EndRenderPass);
    assert(commands@ =~= spec_frame_commands(framebuffer, extent));
    Ok(commands)
}

/// The frames in flight, handed out in turn.
pub struct CommandPool<F> {
    frame_idx: usize,
    frames: Vec<F>,
}

impl<F> CommandPool<F> {
    pub closed spec fn next_index(&self) -> int {
        self.frame_idx as int
    }

    pub closed spec fn frames(&self) -> Seq<F> {
        self.frames@
    }

    pub open spec fn wf(&self) -> bool {
        0 <= self.next_index() < self.frames().len()
    }

    /// A pool over the given frames, starting with the first.
    pub fn new(frames: Vec<F>) -> (r: Self)
        requires
            frames@.len() > 0,
        ensures
            r.wf(),
            r.frames() == frames@,
            r.next_index() == 0,
    {
        CommandPool { frame_idx: 0, frames }
    }

    /// Hands out the next frame, cycling through them.
    pub fn get_next_frame(&mut self) -> (r: &F)
        requires
            old(self).wf(),
        ensures
            final(self).wf(),
            final(self).frames() == old(self).frames(),
            *r == old(self).frames()[old(self).next_index()],
            final(self).next_index() == (old(self).next_index() + 1) % (old(self).frames().len() as int),
    {
        let i = self.frame_idx;
        let n = self.frames.len();
        self.frame_idx = (i + 1) % n;
        &self.frames[i]
    }
}

} // verus!
