//! The frame lifecycle of the explicit backend.
//!
//! A frame acquires a swapchain image, renders zero or more passes into the
//! current render target, records the pre-present barrier and is presented;
//! the acquired image index stays valid until presentation. Clearing the
//! depth buffer is only meaningful while an off-screen target with a depth
//! attachment is selected. The device calls themselves happen outside the
//! verified core; this state machine is what orders them and is consulted
//! before each one.

use vstd::prelude::*;

verus! {

/// Where in its life a frame stands.
#[derive(Clone, Copy, PartialEq, Eq, Structural, Debug)]
pub enum FramePhase {
    /// No frame is in flight.
    Idle,
    /// An image is acquired; passes may run.
    FrameBegun,
    /// A pass is recording.
    PassActive,
    /// The pre-present barrier is submitted; the frame awaits presentation.
    Submitted,
}

/// The explicit backend's frame state: the phase, the acquired image and
/// the selected render target.
pub struct FrameLifecycle {
    /// Where the current frame stands.
    pub phase: FramePhase,
    /// Number of swapchain images.
    pub image_count: usize,
    /// The image acquired for the current frame.
    pub image_index: usize,
    /// Passes completed since the frame began.
    pub passes_completed: usize,
    /// The depth image of the selected off-screen target, if one is
    /// selected.
    pub current_depth_target: Option<u64>,
}

impl FrameLifecycle {
    /// The acquired image always names one of the swapchain images.
    pub open spec fn wf(self) -> bool {
        &&& self.image_count >= 1
        &&& self.image_index < self.image_count
    }

    /// A fresh lifecycle over the given swapchain images, with no frame in
    /// flight.
    pub fn new(image_count: usize) -> (f: FrameLifecycle)
        requires
            image_count >= 1,
        ensures
            f.wf(),
            f.phase == FramePhase::Idle,
            f.image_count == image_count,
            f.passes_completed == 0,
            f.current_depth_target is None,
    {
        FrameLifecycle {
            phase: FramePhase::Idle,
            image_count,
            image_index: 0,
            passes_completed: 0,
            current_depth_target: None,
        }
    }

    /// Begin a frame on the image the acquire call returned. The default
    /// render target is selected, so no depth target is bound.
    pub fn begin_frame(&mut self, acquired_image: usize)
        requires
            old(self).wf(),
            old(self).phase == FramePhase::Idle,
            acquired_image < old(self).image_count,
        ensures
            final(self).wf(),
            final(self).phase == FramePhase::FrameBegun,
            final(self).image_count == old(self).image_count,
            final(self).image_index == acquired_image,
            final(self).passes_completed == 0,
            final(self).current_depth_target is None,
    {
        self.phase = FramePhase::FrameBegun;
        self.image_index = acquired_image;
        self.passes_completed = 0;
        self.current_depth_target = None;
    }

    /// Select an off-screen render target with the given depth image.
    pub fn select_render_target(&mut self, depth_image: u64)
        requires
            old(self).wf(),
            old(self).phase == FramePhase::FrameBegun,
        ensures
            final(self).wf(),
            *final(self) == (FrameLifecycle {
                current_depth_target: Some(depth_image),
                ..*old(self)
            }),
    {
        self.current_depth_target = Some(depth_image);
    }

    /// Select the swapchain as the render target; it has no depth image of
    /// its own here.
    pub fn deselect_render_target(&mut self)
        requires
            old(self).wf(),
            old(self).phase == FramePhase::FrameBegun,
        ensures
            final(self).wf(),
            *final(self) == (FrameLifecycle { current_depth_target: None, ..*old(self) }),
    {
        self.current_depth_target = None;
    }

    /// The depth image the clear-depth submission works on: clearing is
    /// only called for while a target with a depth attachment is selected.
    pub fn clear_depth_target(&self) -> (d: u64)
        requires
            self.wf(),
            self.phase == FramePhase::FrameBegun,
            self.current_depth_target is Some,
        ensures
            Some(d) == self.current_depth_target,
    {
        match self.current_depth_target {
            Some(d) => d,
            None => 0,
        }
    }

    /// Begin a pass: per-thread command buffers are reset and the per-pass
    /// vertex-buffer cursors must be reset alongside.
    pub fn begin_pass(&mut self)
        requires
            old(self).wf(),
            old(self).phase == FramePhase::FrameBegun,
        ensures
            final(self).wf(),
            *final(self) == (FrameLifecycle { phase: FramePhase::PassActive, ..*old(self) }),
    {
        self.phase = FramePhase::PassActive;
    }

    /// End a pass: every thread's command buffer is submitted as one batch.
    pub fn end_pass(&mut self)
        requires
            old(self).wf(),
            old(self).phase == FramePhase::PassActive,
            old(self).passes_completed < usize::MAX,
        ensures
            final(self).wf(),
            *final(self) == (FrameLifecycle {
                phase: FramePhase::FrameBegun,
                passes_completed: (old(self).passes_completed + 1) as usize,
                ..*old(self)
            }),
    {
        self.phase = FramePhase::FrameBegun;
        self.passes_completed = self.passes_completed + 1;
    }

    /// End the frame: the acquired image is transitioned for presentation
    /// and the barrier submission signals the render-finished semaphore.
    pub fn end_frame(&mut self)
        requires
            old(self).wf(),
            old(self).phase == FramePhase::FrameBegun,
        ensures
            final(self).wf(),
            *final(self) == (FrameLifecycle { phase: FramePhase::Submitted, ..*old(self) }),
    {
        self.phase = FramePhase::Submitted;
    }

    /// Present the frame; the image index is no longer valid afterwards.
    pub fn present(&mut self)
        requires
            old(self).wf(),
            old(self).phase == FramePhase::Submitted,
        ensures
            final(self).wf(),
            *final(self) == (FrameLifecycle { phase: FramePhase::Idle, ..*old(self) }),
    {
        self.phase = FramePhase::Idle;
    }
}

} // verus!
