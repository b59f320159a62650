//! The renderer: the surface's configuration and the state of the frame
//! loop, with the operations that a host program drives.

use vstd::prelude::*;
use crate::frame::{frame_plan, FrameEvent, FramePlan, FrameState, RenderError};
use crate::pipeline::texture_layout;
use crate::surface::{initialize, init_outcome, BackendReport, InitError, Size, SurfaceConfig};
use crate::texture::{
    decoded_rgba8, is_load_outcome, load_sprite, satisfies, LoadError, SpriteResource,
};

verus! {

/// The state of the renderer.
#[derive(Clone, Copy, Debug)]
pub struct Render {
    config: SurfaceConfig,
    frame: FrameState,
}

impl Render {
    /// The configuration of the surface.
    pub closed spec fn config(self) -> SurfaceConfig {
        self.config
    }

    /// The state of the frame loop.
    pub closed spec fn frame(self) -> FrameState {
        self.frame
    }

    /// The invariant of the renderer: its surface has a non-zero size.
    pub open spec fn wf(self) -> bool {
        self.config().wf()
    }

    /// Sets the renderer up for a window of the given size, from what the
    /// backend reported: the surface's initial configuration and an idle
    /// frame loop, or the reason why the surface cannot be set up. The
    /// window has to be drawable only where the report has the surface
    /// configured; a failure is reported whatever the size.
    pub fn new(size: Size, report: BackendReport) -> (r: Result<Render, InitError>)
        requires
            report.configures() ==> size.is_drawable(),
        ensures
            r is Ok <==> report.configures(),
            (match init_outcome(size, report) {
                Ok(config) => r is Ok && r->Ok_0.config() == config && r->Ok_0.frame()
                    == FrameState::Idle && r->Ok_0.wf(),
                Err(e) => r == Err::<Render, InitError>(e),
            }),
    {
        match initialize(size, report) {
            Ok(config) => Ok(Render { config, frame: FrameState::Idle }),
            Err(e) => Err(e),
        }
    }

    pub fn surface_config(&self) -> (r: SurfaceConfig)
        ensures
            r == self.config(),
    {
        self.config
    }

    pub fn frame_state(&self) -> (r: FrameState)
        ensures
            r == self.frame(),
    {
        self.frame
    }

    /// Takes a request to resize the surface. A size with a zero dimension
    /// is ignored; any other becomes the configured size. Returns whether
    /// the surface has to be reconfigured with the new configuration.
    pub fn resize(&mut self, new_size: Size) -> (reconfigure: bool)
        ensures
            final(self).config() == old(self).config().resized(new_size),
            final(self).frame() == old(self).frame(),
            reconfigure == new_size.is_drawable(),
            new_size.is_drawable() ==> final(self).config().size() == new_size,
            !new_size.is_drawable() ==> *final(self) == *old(self),
            old(self).wf() ==> final(self).wf(),
    {
        self.config.resize(new_size)
    }

    /// Begins a frame with the outcome of acquiring the surface's next
    /// image. With an image the loop holds it and the frame's plan is
    /// returned; without one the loop stays idle and the failure is
    /// reported.
    pub fn render(&mut self, acquired: bool) -> (r: Result<FramePlan, RenderError>)
        requires
            old(self).frame() == FrameState::Idle,
        ensures
            final(self).config() == old(self).config(),
            acquired ==> r is Ok && r->Ok_0.is_sprite_frame() && final(self).frame()
                == FrameState::Acquired,
            !acquired ==> r == Err::<FramePlan, RenderError>(RenderError::SurfaceAcquireFailed)
                && final(self).frame() == FrameState::Idle,
            final(self).frame() == old(self).frame().after(
                if acquired {
                    FrameEvent::AcquireSucceeded
                } else {
                    FrameEvent::AcquireFailed
                },
            ),
    {
        let event = if acquired {
            FrameEvent::AcquireSucceeded
        } else {
            FrameEvent::AcquireFailed
        };
        match self.frame.advance(event) {
            Some(e) => Err(e),
            None => Ok(frame_plan()),
        }
    }

    /// Ends a frame with the outcome of presenting the acquired image. The
    /// loop is idle afterwards; a failure is reported.
    pub fn present(&mut self, presented: bool) -> (r: Result<(), RenderError>)
        requires
            old(self).frame() == FrameState::Acquired,
        ensures
            final(self).config() == old(self).config(),
            final(self).frame() == FrameState::Idle,
            presented ==> r == Ok::<(), RenderError>(()),
            !presented ==> r == Err::<(), RenderError>(RenderError::PresentFailed),
    {
        let event = if presented {
            FrameEvent::PresentSucceeded
        } else {
            FrameEvent::PresentFailed
        };
        match self.frame.advance(event) {
            Some(e) => Err(e),
            None => Ok(()),
        }
    }

    /// Loads a sprite from the content of the image file at `image_path`,
    /// or from `None` where the file could not be read. The renderer itself
    /// is not changed, whatever the outcome.
    pub fn load_texture(&self, image_path: &str, content: Option<Vec<u8>>) -> (r: Result<
        SpriteResource,
        LoadError,
    >)
        ensures
            is_load_outcome(
                r,
                match content {
                    None => None,
                    Some(bytes) => decoded_rgba8(image_path@, bytes@),
                },
            ),
            r is Ok ==> satisfies(r->Ok_0.bind_group@, texture_layout()),
    {
        load_sprite(image_path, content)
    }
}

/// Start-up for a window, one frame, and two resizes to the same size in a
/// row: the frame leaves the loop idle whether presenting succeeds or fails,
/// and the second resize gives the configuration that the first gave, which
/// has a non-zero size.
pub proof fn lemma_resize_round_trip(window: Size, size: Size, present: FrameEvent)
    requires
        window.is_drawable(),
        present == FrameEvent::PresentSucceeded || present == FrameEvent::PresentFailed,
    ensures
        FrameState::Idle.after(FrameEvent::AcquireSucceeded).after(present) == FrameState::Idle,
        SurfaceConfig::initial(window).resized(size).resized(size) == SurfaceConfig::initial(
            window,
        ).resized(size),
        SurfaceConfig::initial(window).resized(size).wf(),
        size.is_drawable() ==> SurfaceConfig::initial(window).resized(size).size() == size,
        !size.is_drawable() ==> SurfaceConfig::initial(window).resized(size).size() == window,
{
}

} // verus!
