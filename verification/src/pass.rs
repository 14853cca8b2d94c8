//! The static render-target description and its per-image binding: a
//! render pass with a single clear-then-store color attachment, and one
//! framebuffer per swapchain image.

use vstd::prelude::*;

use crate::handle::HandleSlot;
use crate::types::Extent2d;
use crate::types::Format;

verus! {

/// What happens to an attachment's contents when a pass begins.
#[derive(Clone, Copy, Debug, PartialEq, Eq, Structural)]
pub enum LoadOp {
    Clear,
    Load,
    DontCare,
}

/// What happens to an attachment's contents when a pass ends.
#[derive(Clone, Copy, Debug, PartialEq, Eq, Structural)]
pub enum StoreOp {
    Store,
    DontCare,
}

/// Usage of one attachment over a pass.
#[derive(Clone, Copy, Debug, PartialEq, Eq, Structural)]
pub struct AttachmentDesc {
    pub format: Format,
    pub load_op: LoadOp,
    pub store_op: StoreOp,
}

/// The one attachment shape this engine renders to: cleared on entry,
/// stored on exit.
pub open spec fn clear_store_attachment(format: Format) -> AttachmentDesc {
    AttachmentDesc { format, load_op: LoadOp::Clear, store_op: StoreOp::Store }
}

/// A render pass with a single color attachment, created once and reused
/// by every framebuffer and frame.
#[derive(Debug)]
pub struct RenderPass {
    pub render_pass: HandleSlot,
    pub color_attachment: AttachmentDesc,
}

impl RenderPass {
    /// A live render pass owns its handle.
    pub open spec fn wf(self) -> bool {
        self.render_pass.is_held()
    }

    /// Wraps a created render pass whose single color attachment clears
    /// on entry and stores on exit.
    pub fn new(render_pass_handle: u64, color_format: Format) -> (rp: RenderPass)
        ensures
            rp.wf(),
            rp.render_pass.raw() == render_pass_handle,
            rp.color_attachment == clear_store_attachment(color_format),
    {
        RenderPass {
            render_pass: HandleSlot::new(render_pass_handle),
            color_attachment: clear_store_attachment_exec(color_format),
        }
    }

    /// Native handle of the pass.
    pub fn get_render_pass_raw(&self) -> (h: u64)
        requires
            self.wf(),
        ensures
            h == self.render_pass.raw(),
    {
        self.render_pass.peek()
    }

    /// Surrenders the handle for destruction.
    pub fn release(&mut self) -> (h: u64)
        requires
            old(self).wf(),
        ensures
            !final(self).render_pass.is_held(),
            h == old(self).render_pass.raw(),
    {
        self.render_pass.take()
    }
}

/// Executable counterpart of [`clear_store_attachment`].
fn clear_store_attachment_exec(format: Format) -> (a: AttachmentDesc)
    ensures
        a == clear_store_attachment(format),
{
    AttachmentDesc { format, load_op: LoadOp::Clear, store_op: StoreOp::Store }
}

/// One render target: a swapchain image view bound to the render pass's
/// attachment layout at a fixed extent.
#[derive(Debug)]
pub struct Framebuffer {
    pub framebuffer: HandleSlot,
    /// The swapchain image this framebuffer presents into.
    pub image: u64,
    pub extent: Extent2d,
}

impl Framebuffer {
    /// A live framebuffer owns its handle.
    pub open spec fn wf(self) -> bool {
        self.framebuffer.is_held()
    }

    /// Wraps a created framebuffer for one swapchain image.
    pub fn new(framebuffer_handle: u64, image: u64, extent: Extent2d) -> (fb: Framebuffer)
        ensures
            fb.wf(),
            fb.framebuffer.raw() == framebuffer_handle,
            fb.image == image,
            fb.extent == extent,
    {
        Framebuffer { framebuffer: HandleSlot::new(framebuffer_handle), image, extent }
    }

    /// Native handle of the framebuffer.
    pub fn get_framebuffer_raw(&self) -> (h: u64)
        requires
            self.wf(),
        ensures
            h == self.framebuffer.raw(),
    {
        self.framebuffer.peek()
    }

    /// Surrenders the handle for destruction.
    pub fn release(&mut self) -> (h: u64)
        requires
            old(self).wf(),
        ensures
            !final(self).framebuffer.is_held(),
            h == old(self).framebuffer.raw(),
    {
        self.framebuffer.take()
    }
}

} // verus!
