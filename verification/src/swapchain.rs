//! The presentation surface: extent, image set, and ordered recreation.
//!
//! Recreation is non-destructive-in-place: the replacement surface is built
//! while the old one is still valid (referencing the old handle for a seamless
//! transition), the orchestrator's view is swapped to the new state, and only
//! then — after a second device-idle barrier — are the old handle and views
//! destroyed.  The trace records the steps in exactly that order.

use vstd::prelude::*;

use crate::trace::TraceEvent;

verus! {

/// Extent of the presentation surface, in pixels.
#[derive(Clone, Copy, Debug, PartialEq, Eq, Structural)]
pub struct Extent2D {
    pub width: u32,
    pub height: u32,
}

impl Extent2D {
    pub fn new(width: u32, height: u32) -> (r: Extent2D)
        ensures
            r == (Extent2D { width, height }),
    {
        Extent2D { width, height }
    }
}

/// Pixel format of the presentable images.
#[derive(Clone, Copy, Debug, PartialEq, Eq, Structural)]
pub enum ColorFormat {
    /// 8-bit-per-channel BGRA with sRGB encoding; the preferred default.
    B8g8r8a8Srgb,
    /// 8-bit-per-channel BGRA, linear.
    B8g8r8a8Unorm,
}

/// Presentation pacing mode.
#[derive(Clone, Copy, Debug, PartialEq, Eq, Structural)]
pub enum PresentMode {
    /// Vsync-locked queue; the default.
    Fifo,
    /// Triple-buffered replacement of queued images.
    Mailbox,
    /// Unthrottled presentation.
    Immediate,
}

/// The current presentation surface: its images exist as indices
/// `0 .. image_count`.  `generation` counts surface replacements.
pub struct Swapchain {
    pub extent: Extent2D,
    pub format: ColorFormat,
    pub present_mode: PresentMode,
    pub min_image_count: usize,
    pub image_count: usize,
    pub generation: u64,
}

impl Swapchain {
    pub open spec fn wf(&self) -> bool {
        &&& self.extent.width > 0
        &&& self.extent.height > 0
        &&& self.min_image_count >= 1
        &&& self.image_count >= self.min_image_count
    }

    /// Build the initial surface and record it in the trace.
    ///
    /// `image_count` is the number of images the presentation system actually
    /// provided, which is at least the requested minimum.
    pub fn new(
        extent: Extent2D,
        format: ColorFormat,
        present_mode: PresentMode,
        min_image_count: usize,
        image_count: usize,
        trace: &mut Vec<TraceEvent>,
    ) -> (r: Swapchain)
        requires
            extent.width > 0,
            extent.height > 0,
            min_image_count >= 1,
            image_count >= min_image_count,
        ensures
            r.wf(),
            r == (Swapchain {
                extent,
                format,
                present_mode,
                min_image_count,
                image_count,
                generation: 0u64,
            }),
            final(trace)@ == old(trace)@.push(TraceEvent::SurfaceBuilt {
                width: extent.width,
                height: extent.height,
                generation: 0u64,
            }),
    {
        trace.push(TraceEvent::SurfaceBuilt {
            width: extent.width,
            height: extent.height,
            generation: 0u64,
        });
        Swapchain { extent, format, present_mode, min_image_count, image_count, generation: 0u64 }
    }

    /// Replace the surface for a new extent, in the required order: idle the
    /// device, build the replacement against the old handle, swap the visible
    /// state, idle again, and only then retire the old handle and views.
    pub fn recreate(&mut self, extent: Extent2D, trace: &mut Vec<TraceEvent>)
        requires
            old(self).wf(),
            extent.width > 0,
            extent.height > 0,
            old(self).generation < u64::MAX,
        ensures
            final(self).wf(),
            *final(self) == (Swapchain {
                extent,
                generation: (old(self).generation + 1) as u64,
                ..*old(self)
            }),
            final(trace)@ == old(trace)@ + seq![
                TraceEvent::DeviceIdled,
                TraceEvent::SurfaceBuilt {
                    width: extent.width,
                    height: extent.height,
                    generation: (old(self).generation + 1) as u64,
                },
                TraceEvent::SurfaceSwapped { generation: (old(self).generation + 1) as u64 },
                TraceEvent::DeviceIdled,
                TraceEvent::SurfaceRetired { generation: old(self).generation },
            ],
    {
        let old_generation = self.generation;
        let new_generation = old_generation + 1;
        trace.push(TraceEvent::DeviceIdled);
        trace.push(TraceEvent::SurfaceBuilt {
            width: extent.width,
            height: extent.height,
            generation: new_generation,
        });
        self.extent = extent;
        self.generation = new_generation;
        trace.push(TraceEvent::SurfaceSwapped { generation: new_generation });
        trace.push(TraceEvent::DeviceIdled);
        trace.push(TraceEvent::SurfaceRetired { generation: old_generation });
        proof {
            assert(trace@ =~= old(trace)@ + seq![
                TraceEvent::DeviceIdled,
                TraceEvent::SurfaceBuilt {
                    width: extent.width,
                    height: extent.height,
                    generation: (old(self).generation + 1) as u64,
                },
                TraceEvent::SurfaceSwapped { generation: (old(self).generation + 1) as u64 },
                TraceEvent::DeviceIdled,
                TraceEvent::SurfaceRetired { generation: old(self).generation },
            ]);
        }
    }
}

} // verus!
