use vstd::prelude::*;
use crate::compute::{ComputeState, image_spec};
use crate::gpu::{GpuState, PresentMode, SurfaceConfig, FRAME_LATENCY};
use crate::render::{PresentedFrame, RenderState};

verus! {

/// Initial logical window size.
pub const WIDTH: u32 = 512;

/// Initial logical window size.
pub const HEIGHT: u32 = 512;

/// The one recoverable error, escalated to fatal when recovery fails:
/// the surface refused to hand out a presentable frame twice in a row.
#[derive(Clone, Copy, Debug, PartialEq, Eq, Structural)]
pub enum FrameError {
    AcquireFailed,
}

/// The events the frame loop consumes.
#[derive(Clone, Copy, Debug, PartialEq, Eq, Structural)]
pub enum AppEvent {
    RedrawRequested,
    Resized { width: u32, height: u32 },
    CloseRequested,
    Other,
}

/// What the host must do after an event is handled.
pub enum AppAction {
    /// A frame was drawn; hand it to the surface.
    Presented(PresentedFrame),
    /// Frame acquisition failed twice; abort with a diagnostic.
    Fatal(FrameError),
    /// The surface was reconfigured; ask the window for a redraw.
    RequestRedraw,
    /// Terminate the process with this exit code.
    Exit(i32),
    /// Nothing to do.
    Ignored,
}

/// The frame loop: the whole pipeline's state, driven one event at a time.
pub struct App {
    pub gpu_state: GpuState,
    pub compute_state: ComputeState,
    pub render_state: RenderState,
    pub frames_presented: u64,
    pub closed: bool,
}

impl App {
    pub open spec fn inv(self) -> bool {
        &&& self.gpu_state.inv()
        &&& self.compute_state.inv()
        &&& self.render_state.inv()
    }

    /// Counter headroom for one more frame and one more reconfiguration.
    pub open spec fn counters_ok(self) -> bool {
        &&& self.gpu_state.configure_count < u64::MAX
        &&& self.render_state.frames_rendered < u64::MAX
        &&& self.frames_presented < u64::MAX
    }

    /// Builds the whole pipeline for an initial width x height window: the
    /// device context with a configured surface, the off-screen image at
    /// exactly those dimensions, and the render stage over it.
    pub fn new(width: u32, height: u32) -> (app: Self)
        requires
            0 < width,
            0 < height,
        ensures
            app.inv(),
            !app.closed,
            app.frames_presented == 0,
            app.gpu_state.surface_config == (SurfaceConfig {
                width,
                height,
                present_mode: PresentMode::Fifo,
                frame_latency: FRAME_LATENCY,
            }),
            app.gpu_state.configure_count == 1,
            app.compute_state.width == width,
            app.compute_state.height == height,
            !app.compute_state.dispatched(),
            app.render_state.frames_rendered == 0,
    {
        App {
            gpu_state: GpuState::new(width, height),
            compute_state: ComputeState::new(width, height),
            render_state: RenderState::new(),
            frames_presented: 0,
            closed: false,
        }
    }

    /// One redraw: dispatch the compute pass over the whole image and submit
    /// it; acquire a presentable frame — when the first attempt fails,
    /// reconfigure the surface and retry exactly once, and when that fails
    /// too give up with a fatal error; then draw the image onto the frame
    /// and present it.  The two flags are the outcomes of the up-to-two
    /// acquisition attempts; the second is consulted only after a failed
    /// first attempt.
    pub fn render_frame(
        &mut self,
        first_acquire_ok: bool,
        second_acquire_ok: bool,
    ) -> (r: Result<PresentedFrame, FrameError>)
        requires
            old(self).inv(),
            old(self).counters_ok(),
            !old(self).closed,
        ensures
            final(self).inv(),
            final(self).closed == old(self).closed,
            // the compute pass always runs first and repaints the whole image
            final(self).compute_state.width == old(self).compute_state.width,
            final(self).compute_state.height == old(self).compute_state.height,
            final(self).compute_state.image()
                == image_spec(old(self).compute_state.width, old(self).compute_state.height),
            // recovery never alters the stored configuration
            final(self).gpu_state.surface_config == old(self).gpu_state.surface_config,
            // the surface is reconfigured exactly once, and only on a failed first attempt
            first_acquire_ok
                ==> final(self).gpu_state.configure_count == old(self).gpu_state.configure_count,
            !first_acquire_ok
                ==> final(self).gpu_state.configure_count
                    == old(self).gpu_state.configure_count + 1,
            // success is owed unless both attempts fail
            (first_acquire_ok || second_acquire_ok)
                ==> (r matches Ok(f)
                    && f.width == old(self).gpu_state.surface_config.width
                    && f.height == old(self).gpu_state.surface_config.height
                    && f.source@
                        == image_spec(old(self).compute_state.width, old(self).compute_state.height)),
            (!first_acquire_ok && !second_acquire_ok)
                ==> r == Result::<PresentedFrame, FrameError>::Err(FrameError::AcquireFailed),
            // a presented frame is counted; a fatal frame is not
            r is Ok
                ==> final(self).frames_presented == old(self).frames_presented + 1
                    && final(self).render_state.frames_rendered
                        == old(self).render_state.frames_rendered + 1,
            r is Err
                ==> final(self).frames_presented == old(self).frames_presented
                    && final(self).render_state.frames_rendered
                        == old(self).render_state.frames_rendered,
    {
        let w = self.compute_state.width;
        let h = self.compute_state.height;
        let _grid = self.compute_state.dispatch(w, h);
        let acquired = if first_acquire_ok {
            true
        } else {
            self.gpu_state.reconfigure_surface();
            second_acquire_ok
        };
        if !acquired {
            return Err(FrameError::AcquireFailed);
        }
        let target_w = self.gpu_state.surface_config.width;
        let target_h = self.gpu_state.surface_config.height;
        let frame = self.render_state.render(&self.compute_state, target_w, target_h);
        self.frames_presented = self.frames_presented + 1;
        Ok(frame)
    }

    /// A window resize: reconfigure the surface with the new dimensions and
    /// ask for a redraw.  The off-screen image keeps its construction-time
    /// dimensions; the render stage will stretch it onto the new surface.
    pub fn handle_resize(&mut self, width: u32, height: u32) -> (redraw: bool)
        requires
            old(self).inv(),
            old(self).gpu_state.configure_count < u64::MAX,
        ensures
            final(self).inv(),
            final(self).gpu_state.surface_config == (SurfaceConfig {
                width,
                height,
                present_mode: old(self).gpu_state.surface_config.present_mode,
                frame_latency: old(self).gpu_state.surface_config.frame_latency,
            }),
            final(self).gpu_state.configure_count == old(self).gpu_state.configure_count + 1,
            final(self).compute_state == old(self).compute_state,
            final(self).render_state == old(self).render_state,
            final(self).frames_presented == old(self).frames_presented,
            final(self).closed == old(self).closed,
            redraw,
    {
        self.gpu_state.resize(width, height);
        true
    }

    /// A close request: the process terminates with exit code 0, and nothing
    /// is submitted to the queue any more.
    pub fn handle_close(&mut self) -> (code: i32)
        ensures
            final(self).closed,
            code == 0,
            final(self).gpu_state == old(self).gpu_state,
            final(self).compute_state == old(self).compute_state,
            final(self).render_state == old(self).render_state,
            final(self).frames_presented == old(self).frames_presented,
    {
        self.closed = true;
        0
    }

    /// The frame loop's transition function: one event in, the action the
    /// host must perform out.  The acquisition flags report the outcomes of
    /// the up-to-two frame-acquisition attempts and matter only for a
    /// redraw event.
    pub fn handle_event(
        &mut self,
        event: AppEvent,
        first_acquire_ok: bool,
        second_acquire_ok: bool,
    ) -> (action: AppAction)
        requires
            old(self).inv(),
            old(self).counters_ok(),
            !old(self).closed,
        ensures
            final(self).inv(),
            event matches AppEvent::CloseRequested
                ==> action == AppAction::Exit(0i32)
                    && final(self).closed
                    && final(self).frames_presented == old(self).frames_presented
                    && final(self).gpu_state == old(self).gpu_state
                    && final(self).compute_state == old(self).compute_state,
            event matches AppEvent::Resized { width, height }
                ==> action == AppAction::RequestRedraw
                    && final(self).gpu_state.surface_config == (SurfaceConfig {
                        width,
                        height,
                        present_mode: old(self).gpu_state.surface_config.present_mode,
                        frame_latency: old(self).gpu_state.surface_config.frame_latency,
                    })
                    && final(self).compute_state == old(self).compute_state
                    && !final(self).closed,
            event matches AppEvent::RedrawRequested
                ==> !final(self).closed
                    && final(self).compute_state.image()
                        == image_spec(old(self).compute_state.width, old(self).compute_state.height),
            event matches AppEvent::RedrawRequested
                ==> ((first_acquire_ok || second_acquire_ok)
                    ==> (action matches AppAction::Presented(f)
                        && f.width == old(self).gpu_state.surface_config.width
                        && f.height == old(self).gpu_state.surface_config.height
                        && f.source@
                            == image_spec(
                                old(self).compute_state.width,
                                old(self).compute_state.height,
                            )
                        && final(self).frames_presented == old(self).frames_presented + 1)),
            event matches AppEvent::RedrawRequested
                ==> ((!first_acquire_ok && !second_acquire_ok)
                    ==> (action matches AppAction::Fatal(e)
                        && e == FrameError::AcquireFailed
                        && final(self).frames_presented == old(self).frames_presented)),
            event matches AppEvent::Other
                ==> (action matches AppAction::Ignored && *final(self) == *old(self)),
    {
        match event {
            AppEvent::RedrawRequested => {
                match self.render_frame(first_acquire_ok, second_acquire_ok) {
                    Ok(frame) => AppAction::Presented(frame),
                    Err(e) => AppAction::Fatal(e),
                }
            },
            AppEvent::Resized { width, height } => {
                let redraw = self.handle_resize(width, height);
                if redraw {
                    AppAction::RequestRedraw
                } else {
                    AppAction::Ignored
                }
            },
            AppEvent::CloseRequested => {
                let code = self.handle_close();
                AppAction::Exit(code)
            },
            AppEvent::Other => AppAction::Ignored,
        }
    }
}

} // verus!
