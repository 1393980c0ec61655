use vstd::prelude::*;

verus! {

/// Double-buffered presentation: at most two frames in flight.
pub const FRAME_LATENCY: u32 = 2;

/// The presentation mode the surface is configured with.
#[derive(Clone, Copy, Debug, PartialEq, Eq, Structural)]
pub enum PresentMode {
    Fifo,
}

/// The surface configuration: the part of the device context that changes
/// over the program's life (on resize and on surface-loss recovery).
#[derive(Clone, Copy, Debug, PartialEq, Eq, Structural)]
pub struct SurfaceConfig {
    pub width: u32,
    pub height: u32,
    pub present_mode: PresentMode,
    pub frame_latency: u32,
}

/// The device/surface context: owns the device, queue and presentable
/// surface, and keeps the surface configured.  `configure_count` counts how
/// often the configuration has been applied to the surface.
pub struct GpuState {
    pub surface_config: SurfaceConfig,
    pub configure_count: u64,
}

impl GpuState {
    /// The surface has been configured at least once, and always in
    /// double-buffered FIFO mode.
    pub open spec fn inv(self) -> bool {
        &&& 1 <= self.configure_count
        &&& self.surface_config.present_mode == PresentMode::Fifo
        &&& self.surface_config.frame_latency == FRAME_LATENCY
    }

    /// Negotiates a device and queue able to present to the window, then
    /// configures the surface: the requested size, FIFO presentation,
    /// two frames of latency.  If no compatible adapter exists the host
    /// aborts instead of constructing this state.
    pub fn new(width: u32, height: u32) -> (s: Self)
        ensures
            s.surface_config == (SurfaceConfig {
                width,
                height,
                present_mode: PresentMode::Fifo,
                frame_latency: FRAME_LATENCY,
            }),
            s.configure_count == 1,
            s.inv(),
    {
        GpuState {
            surface_config: SurfaceConfig {
                width,
                height,
                present_mode: PresentMode::Fifo,
                frame_latency: FRAME_LATENCY,
            },
            configure_count: 1,
        }
    }

    /// Stores the new dimensions and reconfigures the surface with them;
    /// everything else about the configuration is kept.
    pub fn resize(&mut self, width: u32, height: u32)
        requires
            old(self).inv(),
            old(self).configure_count < u64::MAX,
        ensures
            final(self).surface_config == (SurfaceConfig {
                width,
                height,
                present_mode: old(self).surface_config.present_mode,
                frame_latency: old(self).surface_config.frame_latency,
            }),
            final(self).configure_count == old(self).configure_count + 1,
            final(self).inv(),
    {
        self.surface_config.width = width;
        self.surface_config.height = height;
        self.configure_count = self.configure_count + 1;
    }

    /// Re-applies the last known configuration unchanged; used to recover
    /// when frame acquisition fails because the surface became invalid.
    pub fn reconfigure_surface(&mut self)
        requires
            old(self).inv(),
            old(self).configure_count < u64::MAX,
        ensures
            final(self).surface_config == old(self).surface_config,
            final(self).configure_count == old(self).configure_count + 1,
            final(self).inv(),
    {
        self.configure_count = self.configure_count + 1;
    }
}

/// Picks the presentation pixel format: the first format the surface
/// supports, or nothing when the surface offers none (a fatal condition
/// for the host).
pub fn select_format(formats: &Vec<u32>) -> (r: Option<u32>)
    ensures
        formats@.len() > 0 ==> r == Some(formats@[0]),
        formats@.len() == 0 ==> r is None,
{
    if formats.len() > 0 {
        Some(formats[0])
    } else {
        None
    }
}

} // verus!
