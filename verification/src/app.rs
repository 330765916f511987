use vstd::prelude::*;

use crate::cube::{named, Cube};
use crate::keys::{Key, KeyEvent, NamedKey};
use crate::world::WorldRenderer;

verus! {

/// The window events the application reacts to.
pub enum WindowEvent {
    CloseRequested,
    RedrawRequested,
    Resized { width: u32, height: u32 },
    KeyboardInput(KeyEvent),
    /// Any other event; it changes nothing.
    Other,
}

/// What the window loop does after an event.
#[derive(PartialEq, Eq, Structural, Debug, Clone, Copy)]
pub enum AppAction {
    /// Nothing more.
    Continue,
    /// Leave the event loop.
    Exit,
    /// Ask for the next redraw, then render a frame.
    Redraw,
    /// Configure the surface again with the new size.
    Reconfigure,
}

/// How the surface answered the request for the next frame's texture.
#[derive(PartialEq, Eq, Structural, Debug, Clone, Copy)]
pub enum SurfaceStatus {
    Success,
    Suboptimal,
    Timeout,
    Occluded,
    Outdated,
    Lost,
    Validation,
}

/// What a frame does with the texture it got.
#[derive(PartialEq, Eq, Structural, Debug, Clone, Copy)]
pub enum FrameAction {
    /// Draw into the texture.
    Draw,
    /// Report that the surface is suboptimal, then draw into the texture.
    DrawSuboptimal,
    /// Draw nothing this frame.
    Skip,
}

/// The state of the running application that its decisions read: the
/// surface size and the world.
#[derive(PartialEq, Eq, Structural, Debug, Clone, Copy)]
pub struct App {
    pub width: u32,
    pub height: u32,
    pub world: WorldRenderer,
}

/// Whether the frame logic knows what to do with this status.
pub open spec fn frame_status_handled(status: SurfaceStatus) -> bool {
    status == SurfaceStatus::Success || status == SurfaceStatus::Suboptimal || status
        == SurfaceStatus::Occluded
}

/// What a frame does with the texture it got: draw on success, draw and
/// report when suboptimal, and skip the frame when the window is occluded.
pub fn frame_action(status: SurfaceStatus) -> (a: FrameAction)
    requires
        frame_status_handled(status),
    ensures
        status == SurfaceStatus::Success ==> a == FrameAction::Draw,
        status == SurfaceStatus::Suboptimal ==> a == FrameAction::DrawSuboptimal,
        status == SurfaceStatus::Occluded ==> a == FrameAction::Skip,
{
    match status {
        SurfaceStatus::Success => FrameAction::Draw,
        SurfaceStatus::Suboptimal => FrameAction::DrawSuboptimal,
        _ => FrameAction::Skip,
    }
}

impl App {
    /// A running application with a surface of the given size and a world
    /// whose cube is at rest.
    pub fn new(width: u32, height: u32) -> (app: App)
        ensures
            app.width == width,
            app.height == height,
            app.world.cube == Cube::spec_initial(),
    {
        App { width, height, world: WorldRenderer::new() }
    }

    /// Reacts to a window event. Closing the window exits; a redraw request
    /// redraws; a resize records the new size and reconfigures the surface;
    /// a key steers the cube, and the Escape key also exits. Nothing else
    /// changes the application.
    pub fn window_event(&mut self, event: &WindowEvent) -> (action: AppAction)
        ensures
            match event {
                WindowEvent::CloseRequested => action == AppAction::Exit && *final(self) == *old(
                    self,
                ),
                WindowEvent::RedrawRequested => action == AppAction::Redraw && *final(self)
                    == *old(self),
                WindowEvent::Resized { width, height } => action == AppAction::Reconfigure
                    && *final(self) == (App { width: *width, height: *height, ..*old(self) }),
                WindowEvent::KeyboardInput(e) => {
                    &&& action == (if e.logical_key@ == named(NamedKey::Escape) {
                        AppAction::Exit
                    } else {
                        AppAction::Continue
                    })
                    &&& final(self).width == old(self).width
                    &&& final(self).height == old(self).height
                    &&& final(self).world.cube == old(self).world.cube.after_input(e@)
                },
                WindowEvent::Other => action == AppAction::Continue && *final(self) == *old(self),
            },
            old(self).world.cube.wf() ==> final(self).world.cube.wf(),
    {
        match event {
            WindowEvent::CloseRequested => AppAction::Exit,
            WindowEvent::RedrawRequested => AppAction::Redraw,
            WindowEvent::Resized { width, height } => {
                self.width = *width;
                self.height = *height;
                AppAction::Reconfigure
            },
            WindowEvent::KeyboardInput(e) => {
                let exit = e.logical_key.same_as(&Key::Named(NamedKey::Escape));
                self.world.handle_input(e);
                if exit {
                    AppAction::Exit
                } else {
                    AppAction::Continue
                }
            },
            WindowEvent::Other => AppAction::Continue,
        }
    }
}

} // verus!
