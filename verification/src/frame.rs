//! One frame: acquiring an image of the surface, the render pass that draws
//! the quad into it, and presenting it.

use vstd::prelude::*;
use crate::geometry::QUAD_VERTEX_COUNT;

verus! {

/// Where the frame loop stands.
#[derive(Clone, Copy, Debug, PartialEq, Eq, Structural)]
pub enum FrameState {
    /// No image of the surface is held.
    Idle,
    /// An image was acquired and waits to be presented.
    Acquired,
}

/// What the surface answered to the frame loop.
#[derive(Clone, Copy, Debug, PartialEq, Eq, Structural)]
pub enum FrameEvent {
    AcquireSucceeded,
    AcquireFailed,
    PresentSucceeded,
    PresentFailed,
}

/// Why a frame was not shown.
#[derive(Clone, Copy, Debug, PartialEq, Eq, Structural)]
pub enum RenderError {
    /// The surface gave no image, for instance because it is lost or
    /// outdated.
    SurfaceAcquireFailed,
    /// The image was drawn but could not be presented.
    PresentFailed,
}

/// A colour of eight bits a channel.
#[derive(Clone, Copy, Debug, PartialEq, Eq, Structural)]
pub struct Color {
    pub r: u8,
    pub g: u8,
    pub b: u8,
    pub a: u8,
}

/// One command of a render pass.
#[derive(Clone, Copy, Debug, PartialEq, Eq, Structural)]
pub enum PassCommand {
    SetPipeline,
    SetBindGroup { index: u32 },
    SetVertexBuffer { slot: u32 },
    Draw { first_vertex: u32, vertex_count: u32, first_instance: u32, instance_count: u32 },
}

/// What is recorded and submitted for one frame: a single render pass into
/// the acquired image that clears it, keeps what it draws, and runs
/// `commands`.
#[derive(Clone, Debug)]
pub struct FramePlan {
    pub clear: Color,
    pub store: bool,
    /// Whether the pass resolves its samples into a second target.
    pub resolve: bool,
    /// Whether the pass has a depth and stencil attachment.
    pub depth_stencil: bool,
    pub commands: Vec<PassCommand>,
}

/// The background of every frame: opaque black.
pub open spec fn background() -> Color {
    Color { r: 0, g: 0, b: 0, a: 255 }
}

/// The commands that draw the sprite: the pipeline, the sprite's bind group
/// in slot 0, the quad's vertices in slot 0, and one instance of four
/// vertices.
pub open spec fn sprite_pass() -> Seq<PassCommand> {
    seq![
        PassCommand::SetPipeline,
        PassCommand::SetBindGroup { index: 0 },
        PassCommand::SetVertexBuffer { slot: 0 },
        PassCommand::Draw {
            first_vertex: 0,
            vertex_count: QUAD_VERTEX_COUNT,
            first_instance: 0,
            instance_count: 1,
        },
    ]
}

impl FramePlan {
    /// Whether this is the plan of a sprite's frame.
    pub open spec fn is_sprite_frame(self) -> bool {
        &&& self.clear == background()
        &&& self.store
        &&& !self.resolve
        &&& !self.depth_stencil
        &&& self.commands@ == sprite_pass()
    }
}

impl FrameState {
    /// The state after the surface's answer. An answer that the state does
    /// not wait for changes nothing.
    pub open spec fn after(self, event: FrameEvent) -> FrameState {
        match (self, event) {
            (FrameState::Idle, FrameEvent::AcquireSucceeded) => FrameState::Acquired,
            (FrameState::Acquired, FrameEvent::PresentSucceeded) => FrameState::Idle,
            (FrameState::Acquired, FrameEvent::PresentFailed) => FrameState::Idle,
            _ => self,
        }
    }

    /// What the frame loop reports on the surface's answer: the error of a
    /// failure that the state waited for, or nothing.
    pub open spec fn report(self, event: FrameEvent) -> Option<RenderError> {
        match (self, event) {
            (FrameState::Idle, FrameEvent::AcquireFailed) => Some(RenderError::SurfaceAcquireFailed),
            (FrameState::Acquired, FrameEvent::PresentFailed) => Some(RenderError::PresentFailed),
            _ => None,
        }
    }

    /// Takes the surface's answer: moves to the next state and returns what
    /// is to be reported.
    pub fn advance(&mut self, event: FrameEvent) -> (r: Option<RenderError>)
        ensures
            *final(self) == old(self).after(event),
            r == old(self).report(event),
    {
        match (*self, event) {
            (FrameState::Idle, FrameEvent::AcquireSucceeded) => {
                *self = FrameState::Acquired;
                None
            },
            (FrameState::Idle, FrameEvent::AcquireFailed) => Some(RenderError::SurfaceAcquireFailed),
            (FrameState::Acquired, FrameEvent::PresentSucceeded) => {
                *self = FrameState::Idle;
                None
            },
            (FrameState::Acquired, FrameEvent::PresentFailed) => {
                *self = FrameState::Idle;
                Some(RenderError::PresentFailed)
            },
            _ => None,
        }
    }
}

/// The plan of a sprite's frame.
pub fn frame_plan() -> (r: FramePlan)
    ensures
        r.is_sprite_frame(),
{
    let commands = vec![
        PassCommand::SetPipeline,
        PassCommand::SetBindGroup { index: 0 },
        PassCommand::SetVertexBuffer { slot: 0 },
        PassCommand::Draw {
            first_vertex: 0,
            vertex_count: QUAD_VERTEX_COUNT,
            first_instance: 0,
            instance_count: 1,
        },
    ];
    assert(commands@ =~= sprite_pass());
    FramePlan {
        clear: Color { r: 0, g: 0, b: 0, a: 255 },
        store: true,
        resolve: false,
        depth_stencil: false,
        commands,
    }
}

/// A frame that was acquired ends idle, whether presenting it succeeds or
/// fails, and a failed acquisition leaves the loop idle.
pub proof fn lemma_frame_returns_to_idle(acquire: FrameEvent, present: FrameEvent)
    requires
        acquire == FrameEvent::AcquireSucceeded || acquire == FrameEvent::AcquireFailed,
        present == FrameEvent::PresentSucceeded || present == FrameEvent::PresentFailed,
    ensures
        FrameState::Idle.after(FrameEvent::AcquireFailed) == FrameState::Idle,
        FrameState::Idle.after(FrameEvent::AcquireSucceeded) == FrameState::Acquired,
        FrameState::Acquired.after(present) == FrameState::Idle,
        FrameState::Idle.after(acquire).after(present) == FrameState::Idle,
{
}

} // verus!
