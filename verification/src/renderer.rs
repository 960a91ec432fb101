//! Bookkeeping of the renderer's GPU state: the size-dependent resource
//! graph and its atomic rebuild on resize, the dispatch-extent rule, and
//! the classification of surface-acquisition failures.
//!
//! The device objects themselves (surface, textures, pipelines, bind
//! groups) live outside the library; what is kept here is the state that
//! must stay consistent across frames: every size-dependent object agrees
//! with the surface's extent before a frame is rendered, and the encoded
//! scene buffers are created once and never touched by a resize.

use vstd::prelude::*;
use crate::fps_counter::FpsCounter;
use crate::layout::SceneBuffers;

verus! {

/// Why acquiring the next presentable surface image failed.
#[derive(Clone, Copy, Debug, PartialEq, Eq, Structural)]
pub enum SurfaceError {
    /// The surface's resources were lost and must be rebuilt.
    Lost,
    /// The surface no longer matches the window and needs reconfiguring;
    /// resolved by the next frame.
    Outdated,
    /// The device is out of memory.
    OutOfMemory,
    /// Acquiring the next image timed out.
    Timeout,
}

/// What the frame orchestrator does about a failed acquisition.
#[derive(Clone, Copy, Debug, PartialEq, Eq, Structural)]
pub enum FrameAction {
    /// Reconfigure the surface and color target at the current size and
    /// retry on the next frame.
    RebuildSurface,
    /// Unrecoverable: terminate the process.
    Terminate,
    /// Log, skip this frame, and retry on the next redraw.
    SkipFrame,
}

/// Lost resources are rebuilt, out-of-memory is fatal, every other
/// condition is transient and skips the frame.
pub open spec fn spec_classify_surface_error(e: SurfaceError) -> FrameAction {
    match e {
        SurfaceError::Lost => FrameAction::RebuildSurface,
        SurfaceError::OutOfMemory => FrameAction::Terminate,
        SurfaceError::Outdated => FrameAction::SkipFrame,
        SurfaceError::Timeout => FrameAction::SkipFrame,
    }
}

pub fn classify_surface_error(e: SurfaceError) -> (a: FrameAction)
    ensures
        a == spec_classify_surface_error(e),
{
    match e {
        SurfaceError::Lost => FrameAction::RebuildSurface,
        SurfaceError::OutOfMemory => FrameAction::Terminate,
        SurfaceError::Outdated => FrameAction::SkipFrame,
        SurfaceError::Timeout => FrameAction::SkipFrame,
    }
}

/// The intermediate color target the compute pass writes and the blit
/// pass samples, sized to the viewport.
#[derive(Clone, Copy, Debug, PartialEq, Eq, Structural)]
pub struct ColorTarget {
    pub width: u32,
    pub height: u32,
}

/// A bind group that references the color target's view: it records the
/// extent of the target it was built against, and is only consistent
/// while that extent matches the live target.
#[derive(Clone, Copy, Debug, PartialEq, Eq, Structural)]
pub struct TargetBinding {
    pub width: u32,
    pub height: u32,
}

/// The renderer's host-side state: the surface's configured extent, the
/// size-dependent resource set, the scene buffers (size-independent,
/// written once), and the frame-time counter.
pub struct Renderer {
    pub surface_width: u32,
    pub surface_height: u32,
    pub color_target: ColorTarget,
    /// The compute pass's write-target binding.
    pub ray_tracing_binding: TargetBinding,
    /// The blit pass's sampler + sampled-view binding.
    pub screen_binding: TargetBinding,
    pub scene: SceneBuffers,
    pub fps_counter: FpsCounter,
}

impl Renderer {
    /// Consistency of the size-dependent resource graph: the color target
    /// is sized to the surface, and both bind groups were built against
    /// the live color target. No frame may be rendered unless this holds.
    pub open spec fn wf(&self) -> bool {
        &&& self.color_target.width == self.surface_width
        &&& self.color_target.height == self.surface_height
        &&& self.ray_tracing_binding == (TargetBinding {
            width: self.color_target.width,
            height: self.color_target.height,
        })
        &&& self.screen_binding == (TargetBinding {
            width: self.color_target.width,
            height: self.color_target.height,
        })
        &&& self.fps_counter.wf()
    }

    /// Sets up the renderer state at the initial extent, taking ownership
    /// of the encoded scene buffers for the process lifetime.
    pub fn new(scene: SceneBuffers, width: u32, height: u32) -> (r: Self)
        ensures
            r.wf(),
            r.surface_width == width,
            r.surface_height == height,
            r.scene == scene,
            r.fps_counter@ == Seq::<u64>::empty(),
    {
        Renderer {
            surface_width: width,
            surface_height: height,
            color_target: ColorTarget { width, height },
            ray_tracing_binding: TargetBinding { width, height },
            screen_binding: TargetBinding { width, height },
            scene,
            fps_counter: FpsCounter::new(),
        }
    }

    /// What a resize leaves behind: the new extent everywhere in the
    /// size-dependent set, everything size-independent untouched.
    pub open spec fn resize_post(pre: Renderer, post: Renderer, width: u32, height: u32) -> bool {
        &&& post.surface_width == width
        &&& post.surface_height == height
        &&& post.scene == pre.scene
        &&& post.fps_counter == pre.fps_counter
        &&& post.wf()
    }

    /// Applies a resize: reconfigures the surface to the new extent and
    /// replaces — never mutates in place — every object that depends on
    /// it, so the whole size-dependent set is consistent again before the
    /// next frame. The scene buffers are not touched.
    pub fn resize(&mut self, new_width: u32, new_height: u32)
        requires
            old(self).wf(),
        ensures
            Self::resize_post(*old(self), *final(self), new_width, new_height),
    {
        self.surface_width = new_width;
        self.surface_height = new_height;
        self.color_target = ColorTarget { width: new_width, height: new_height };
        self.ray_tracing_binding = TargetBinding { width: new_width, height: new_height };
        self.screen_binding = TargetBinding { width: new_width, height: new_height };
    }

    /// The compute dispatch extent of a frame: one work unit per output
    /// pixel, derived from the same size value the surface and color
    /// target were configured with.
    pub fn dispatch_extent(&self) -> (r: (u32, u32, u32))
        requires
            self.wf(),
        ensures
            r.0 == self.surface_width && r.0 == self.color_target.width,
            r.1 == self.surface_height && r.1 == self.color_target.height,
            r.2 == 1,
    {
        (self.surface_width, self.surface_height, 1u32)
    }

    /// Records one frame's elapsed time in nanoseconds.
    pub fn update(&mut self, delta_time: u64)
        requires
            old(self).wf(),
        ensures
            final(self).wf(),
            final(self).fps_counter@ == if old(self).fps_counter@.len()
                >= crate::fps_counter::MAX_FRAME_TIMES {
                old(self).fps_counter@.drop_first().push(delta_time)
            } else {
                old(self).fps_counter@.push(delta_time)
            },
            final(self).surface_width == old(self).surface_width,
            final(self).surface_height == old(self).surface_height,
            final(self).color_target == old(self).color_target,
            final(self).ray_tracing_binding == old(self).ray_tracing_binding,
            final(self).screen_binding == old(self).screen_binding,
            final(self).scene == old(self).scene,
    {
        self.fps_counter.update(delta_time);
    }
}

/// Resize round trip: after a resize from extent A to extent B and back
/// to A, the color target's extent is A again and the scene buffers are
/// the ones created at startup, untouched by either resize.
pub proof fn lemma_resize_round_trip(
    r0: Renderer,
    r1: Renderer,
    r2: Renderer,
    a_width: u32,
    a_height: u32,
    b_width: u32,
    b_height: u32,
)
    requires
        r0.surface_width == a_width,
        r0.surface_height == a_height,
        Renderer::resize_post(r0, r1, b_width, b_height),
        Renderer::resize_post(r1, r2, a_width, a_height),
    ensures
        r2.color_target.width == a_width,
        r2.color_target.height == a_height,
        r2.scene == r0.scene,
        r2.wf(),
{
}

} // verus!
