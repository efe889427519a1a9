//! The per-frame state machine of the renderer.
//!
//! Each frame runs one cycle: idle, acquiring an image, recording commands,
//! submitted, presenting, and back to idle; exactly one frame is in flight.
//! When the presentation engine reports the surface out of date, during
//! acquisition or presentation, the cycle aborts, the frame is dropped, and
//! the caller is told to recreate the swapchain. The machine also advances
//! the animation at the start of each cycle, describes the draw that the
//! frame must record, and keeps the frames-per-second measurement.
//!
//! The surrounding executable makes the actual acquire, submit and present
//! calls and reports each result back as one event.

use vstd::prelude::*;
use crate::animation::AnimationState;
use crate::animation::MAX_TICK_MS;
use crate::animation::translated;
use crate::animation::reflected_vel;
use crate::pipeline::DISC_SEGMENTS;
use crate::pipeline::disc_vertex_count;

verus! {

/// Where the renderer stands within one frame cycle.
#[derive(Clone, Copy, Debug, PartialEq, Eq, Structural)]
pub enum FramePhase {
    /// No frame in flight.
    Idle,
    /// The image-acquisition request is out.
    Acquiring,
    /// An image is acquired and commands are being recorded.
    Recording,
    /// The command buffer is handed to the queue.
    Submitted,
    /// The present request is out.
    Presenting,
}

/// What the image-acquisition call came back with.
#[derive(Clone, Copy, Debug, PartialEq, Eq, Structural)]
pub enum AcquireOutcome {
    /// An image is available, at this index of the swapchain's image list.
    Image(u32),
    /// The surface no longer matches the swapchain.
    OutOfDate,
}

/// What the present call came back with.
#[derive(Clone, Copy, Debug, PartialEq, Eq, Structural)]
pub enum PresentOutcome {
    Presented,
    /// The surface no longer matches the swapchain.
    OutOfDate,
}

/// Everything one frame's command recording needs: which framebuffer, the
/// extent that the dynamic viewport, the scissor and the projection must
/// use, the disc centre the transform must translate to (in millipixels),
/// and how many vertices the one draw covers. The clear colour is always
/// opaque black.
#[derive(Clone, Copy, Debug, PartialEq, Eq, Structural)]
pub struct DrawPlan {
    pub image_index: u32,
    pub extent_width: u32,
    pub extent_height: u32,
    pub pos_x_mpx: i64,
    pub pos_y_mpx: i64,
    pub vertex_count: u32,
}

/// What the renderer asks for after an acquisition event.
#[derive(Clone, Copy, Debug, PartialEq, Eq, Structural)]
pub enum AcquireStep {
    /// Record and submit this draw.
    Record(DrawPlan),
    /// Drop the frame and recreate the swapchain.
    Recreate,
}

/// What the renderer asks for after a present event.
#[derive(Clone, Copy, Debug, PartialEq, Eq, Structural)]
pub enum PresentStep {
    /// The frame is on screen.
    Presented,
    /// The frame is dropped; recreate the swapchain.
    Recreate,
}

/// The draw that a frame must record when the image at `image_index` was
/// acquired while the animation stood at `anim`.
pub open spec fn spec_draw_plan(anim: AnimationState, image_index: u32) -> DrawPlan {
    DrawPlan {
        image_index,
        extent_width: anim.width,
        extent_height: anim.height,
        pos_x_mpx: anim.pos_x,
        pos_y_mpx: anim.pos_y,
        vertex_count: (DISC_SEGMENTS + 2) as u32,
    }
}

/// The renderer: the animation it advances, the phase of the frame cycle,
/// how many images the current swapchain generation has, and the
/// frames-per-second bookkeeping.
pub struct Renderer {
    pub animation: AnimationState,
    pub phase: FramePhase,
    pub image_count: u32,
    /// Frames presented since the last measurement.
    pub frame_count: u32,
    /// Milliseconds since the last measurement.
    pub elapsed_ms: u64,
    /// The last measurement, in tenths of a frame per second.
    pub fps_tenths: u64,
}

impl Renderer {
    /// The animation is within its speed limit.
    pub open spec fn wf(self) -> bool {
        self.animation.wf()
    }

    /// Starts the renderer over a freshly built swapchain of `image_count`
    /// images for a window of `width` by `height` pixels: no frame in
    /// flight, the disc at the window centre with the fixed starting
    /// velocity, nothing measured yet.
    pub fn new(width: u32, height: u32, image_count: u32) -> (r: Renderer)
        ensures
            r.wf(),
            r.phase is Idle,
            r.image_count == image_count,
            r.frame_count == 0,
            r.elapsed_ms == 0,
            r.fps_tenths == 0,
            r.animation == (AnimationState {
                pos_x: (width * 500) as i64,
                pos_y: (height * 500) as i64,
                vel_x: crate::animation::START_VEL_X,
                vel_y: crate::animation::START_VEL_Y,
                width,
                height,
            }),
            r.animation.pos_in_range(),
    {
        Renderer {
            animation: AnimationState::new(width, height),
            phase: FramePhase::Idle,
            image_count,
            frame_count: 0,
            elapsed_ms: 0,
            fps_tenths: 0,
        }
    }

    /// Starts one frame cycle: advances the animation by `dt_ms`
    /// milliseconds and moves to acquiring. The caller resets the command
    /// buffer and issues the acquire call next.
    pub fn begin_tick(&mut self, dt_ms: u32)
        requires
            old(self).phase is Idle,
            old(self).wf(),
            old(self).animation.pos_in_range(),
            0 < dt_ms <= MAX_TICK_MS,
        ensures
            final(self).phase is Acquiring,
            final(self).wf(),
            final(self).animation.pos_x == translated(
                old(self).animation.pos_x as int,
                old(self).animation.vel_x as int,
                dt_ms as int,
            ),
            final(self).animation.pos_y == translated(
                old(self).animation.pos_y as int,
                old(self).animation.vel_y as int,
                dt_ms as int,
            ),
            final(self).animation.vel_x == reflected_vel(
                final(self).animation.pos_x as int,
                old(self).animation.vel_x as int,
                old(self).animation.width as int,
            ),
            final(self).animation.vel_y == reflected_vel(
                final(self).animation.pos_y as int,
                old(self).animation.vel_y as int,
                old(self).animation.height as int,
            ),
            final(self).animation.width == old(self).animation.width,
            final(self).animation.height == old(self).animation.height,
            final(self).elapsed_ms == if old(self).elapsed_ms + dt_ms <= u64::MAX {
                old(self).elapsed_ms + dt_ms
            } else {
                u64::MAX as int
            },
            final(self).image_count == old(self).image_count,
            final(self).frame_count == old(self).frame_count,
            final(self).fps_tenths == old(self).fps_tenths,
    {
        self.animation.tick(dt_ms);
        self.phase = FramePhase::Acquiring;
        if self.elapsed_ms <= u64::MAX - dt_ms as u64 {
            self.elapsed_ms = self.elapsed_ms + dt_ms as u64;
        } else {
            self.elapsed_ms = u64::MAX;
        }
    }

    /// Takes the acquisition result. An acquired image moves the cycle to
    /// recording and yields the frame's draw plan at the current animation
    /// state and extent; an out-of-date surface drops the frame — nothing is
    /// recorded, submitted or presented this tick — and asks the caller to
    /// recreate the swapchain.
    pub fn on_acquire(&mut self, outcome: AcquireOutcome) -> (r: AcquireStep)
        requires
            old(self).phase is Acquiring,
            outcome matches AcquireOutcome::Image(i) ==> i < old(self).image_count,
        ensures
            final(self).animation == old(self).animation,
            final(self).image_count == old(self).image_count,
            final(self).frame_count == old(self).frame_count,
            final(self).elapsed_ms == old(self).elapsed_ms,
            final(self).fps_tenths == old(self).fps_tenths,
            match outcome {
                AcquireOutcome::Image(i) => r == AcquireStep::Record(
                    spec_draw_plan(old(self).animation, i),
                ) && final(self).phase is Recording,
                AcquireOutcome::OutOfDate => r == AcquireStep::Recreate && final(self).phase is Idle,
            },
    {
        match outcome {
            AcquireOutcome::Image(i) => {
                self.phase = FramePhase::Recording;
                AcquireStep::Record(
                    DrawPlan {
                        image_index: i,
                        extent_width: self.animation.width,
                        extent_height: self.animation.height,
                        pos_x_mpx: self.animation.pos_x,
                        pos_y_mpx: self.animation.pos_y,
                        vertex_count: disc_vertex_count(DISC_SEGMENTS),
                    },
                )
            },
            AcquireOutcome::OutOfDate => {
                self.phase = FramePhase::Idle;
                AcquireStep::Recreate
            },
        }
    }

    /// Marks the frame's commands fully recorded and handed to the queue.
    pub fn commands_recorded(&mut self)
        requires
            old(self).phase is Recording,
        ensures
            final(self).phase is Submitted,
            final(self).animation == old(self).animation,
            final(self).image_count == old(self).image_count,
            final(self).frame_count == old(self).frame_count,
            final(self).elapsed_ms == old(self).elapsed_ms,
            final(self).fps_tenths == old(self).fps_tenths,
    {
        self.phase = FramePhase::Submitted;
    }

    /// Marks the present request issued for the submitted frame.
    pub fn begin_present(&mut self)
        requires
            old(self).phase is Submitted,
        ensures
            final(self).phase is Presenting,
            final(self).animation == old(self).animation,
            final(self).image_count == old(self).image_count,
            final(self).frame_count == old(self).frame_count,
            final(self).elapsed_ms == old(self).elapsed_ms,
            final(self).fps_tenths == old(self).fps_tenths,
    {
        self.phase = FramePhase::Presenting;
    }

    /// Takes the present result and closes the cycle. A presented frame is
    /// counted for the frames-per-second measurement; an out-of-date surface
    /// drops the frame uncounted and asks the caller to recreate the
    /// swapchain.
    pub fn on_present(&mut self, outcome: PresentOutcome) -> (r: PresentStep)
        requires
            old(self).phase is Presenting,
        ensures
            final(self).phase is Idle,
            final(self).animation == old(self).animation,
            final(self).image_count == old(self).image_count,
            final(self).elapsed_ms == old(self).elapsed_ms,
            final(self).fps_tenths == old(self).fps_tenths,
            match outcome {
                PresentOutcome::Presented => r == PresentStep::Presented && final(self).frame_count == if old(self).frame_count < u32::MAX {
                    old(self).frame_count + 1
                } else {
                    u32::MAX as int
                },
                PresentOutcome::OutOfDate => r == PresentStep::Recreate && final(self).frame_count == old(self).frame_count,
            },
    {
        self.phase = FramePhase::Idle;
        match outcome {
            PresentOutcome::Presented => {
                if self.frame_count < u32::MAX {
                    self.frame_count = self.frame_count + 1;
                }
                PresentStep::Presented
            },
            PresentOutcome::OutOfDate => PresentStep::Recreate,
        }
    }

    /// Closes the frames-per-second bookkeeping for this frame: once at
    /// least one second has passed since the last measurement, computes the
    /// rate in tenths of a frame per second and starts a new measurement
    /// window, handing the value back for display.
    pub fn measure_fps(&mut self) -> (r: Option<u64>)
        requires
            old(self).phase is Idle,
        ensures
            final(self).phase is Idle,
            final(self).animation == old(self).animation,
            final(self).image_count == old(self).image_count,
            if old(self).elapsed_ms >= 1000 {
                r == Some((old(self).frame_count * 10000 / old(self).elapsed_ms as int) as u64) && final(self).fps_tenths == old(self).frame_count * 10000 / old(self).elapsed_ms as int && final(self).frame_count == 0 && final(self).elapsed_ms == 0
            } else {
                r is None && final(self).fps_tenths == old(self).fps_tenths && final(self).frame_count == old(self).frame_count && final(self).elapsed_ms == old(
                    self,
                ).elapsed_ms
            },
    {
        if self.elapsed_ms >= 1000 {
            let tenths: u64 = self.frame_count as u64 * 10000 / self.elapsed_ms;
            self.fps_tenths = tenths;
            self.frame_count = 0;
            self.elapsed_ms = 0;
            Some(tenths)
        } else {
            None
        }
    }

    /// Records that the swapchain was rebuilt at a new extent with
    /// `image_count` images: the animation bounces in the new rectangle from
    /// now on — its position and velocity are untouched — and every draw
    /// plan of a later frame uses the new extent.
    pub fn swapchain_rebuilt(&mut self, width: u32, height: u32, image_count: u32)
        requires
            old(self).phase is Idle,
        ensures
            final(self).phase is Idle,
            final(self).wf() == old(self).wf(),
            final(self).animation.width == width,
            final(self).animation.height == height,
            final(self).animation.pos_x == old(self).animation.pos_x,
            final(self).animation.pos_y == old(self).animation.pos_y,
            final(self).animation.vel_x == old(self).animation.vel_x,
            final(self).animation.vel_y == old(self).animation.vel_y,
            final(self).image_count == image_count,
            final(self).frame_count == old(self).frame_count,
            final(self).elapsed_ms == old(self).elapsed_ms,
            final(self).fps_tenths == old(self).fps_tenths,
    {
        self.animation.set_bounds(width, height);
        self.image_count = image_count;
    }
}

/// A window event, as far as the renderer cares about it.
#[derive(Clone, Copy, Debug, PartialEq, Eq, Structural)]
pub enum WindowSignal {
    CloseRequested,
    RedrawRequested,
    /// The window is now this many pixels wide and high.
    Resized(u32, u32),
    /// Anything else.
    Other,
}

/// What the application must do with a window event.
#[derive(Clone, Copy, Debug, PartialEq, Eq, Structural)]
pub enum EngineDirective {
    /// Leave the event loop.
    Exit,
    /// Run one frame cycle, then request the next redraw.
    RenderFrame,
    /// Recreate the swapchain at this extent, then request a redraw.
    RecreateSwapchain(u32, u32),
    /// Nothing to do.
    Ignore,
}

/// Decides what a window event demands: a close request ends the loop, a
/// redraw request runs one frame cycle, a resize recreates the swapchain at
/// the new extent and asks for a redraw, and any other event is ignored.
pub fn dispatch_signal(signal: WindowSignal) -> (r: EngineDirective)
    ensures
        r == (match signal {
            WindowSignal::CloseRequested => EngineDirective::Exit,
            WindowSignal::RedrawRequested => EngineDirective::RenderFrame,
            WindowSignal::Resized(w, h) => EngineDirective::RecreateSwapchain(w, h),
            WindowSignal::Other => EngineDirective::Ignore,
        }),
{
    match signal {
        WindowSignal::CloseRequested => EngineDirective::Exit,
        WindowSignal::RedrawRequested => EngineDirective::RenderFrame,
        WindowSignal::Resized(w, h) => EngineDirective::RecreateSwapchain(w, h),
        WindowSignal::Other => EngineDirective::Ignore,
    }
}

} // verus!
