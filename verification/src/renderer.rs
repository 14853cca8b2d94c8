//! The orchestrator: owns one of each engine component in dependency
//! order, drives the per-frame acquire/record/submit/present cycle, and
//! tears everything down in strict reverse-of-creation order with every
//! native handle released exactly once.

use vstd::prelude::*;
use vstd::pervasive::unreached;

use crate::cmd::CmdBuffer;
use crate::cmd::CmdBufferState;
use crate::cmd::CmdPool;
use crate::cmd::CmdState;
use crate::cmd::spec_clear_pass;
use crate::device::Device;
use crate::device::DeviceCreationError;
use crate::device::Limits;
use crate::device::MemoryProperties;
use crate::device::lemma_selected_families_support;
use crate::device::spec_select_queue_families;
use crate::instance::Instance;
use crate::instance::InstanceCreationError;
use crate::instance::InstanceExtension;
use crate::instance::InstanceSupport;
use crate::instance::spec_check_instance_support;
use crate::is_selected_adapter;
use crate::pass::Framebuffer;
use crate::pass::RenderPass;
use crate::pass::clear_store_attachment;
use crate::queue::Queue;
use crate::queue::QueueCapability;
use crate::spec_select_color_format;
use crate::spec_select_present_mode;
use crate::swapchain::Swapchain;
use crate::swapchain::SwapchainCreationError;
use crate::swapchain::spec_clamped_extent;
use crate::types::Adapter;
use crate::types::Extent2d;
use crate::types::Feature;
use crate::types::Format;
use crate::types::PresentMode;
use crate::types::QueueFamilyInfo;
use crate::types::SurfaceCaps;
use crate::types::caps_wf;
use crate::types::spec_clear_color;

verus! {

/// Lifecycle of the renderer as a whole.
#[derive(Clone, Copy, Debug, PartialEq, Eq, Structural)]
pub enum RendererState {
    /// Between frames: ready to begin one.
    Ready,
    /// A frame has been recorded for the given swapchain image and
    /// awaits submission.
    FrameRecorded { image_index: u32 },
    /// Every handle has been surrendered.
    TornDown,
}

/// Why the renderer could not be constructed.
#[derive(Clone, Copy, Debug, PartialEq, Eq, Structural)]
pub enum RendererError {
    /// Instance admission failed.
    Instance(InstanceCreationError),
    /// The driver enumerated no adapter at all.
    NoAdapters,
    /// No queue configuration satisfies the device requirements.
    Device(DeviceCreationError),
    /// The swapchain could not be wrapped.
    Swapchain(SwapchainCreationError),
}

/// Why a frame operation was refused.
#[derive(Clone, Copy, Debug, PartialEq, Eq, Structural)]
pub enum FrameError {
    /// The acquire reported the swapchain out of date or suboptimal;
    /// the caller must resize/recreate before proceeding.
    SwapchainInvalidated,
    /// The acquire returned an image index the swapchain does not have.
    ImageIndexOutOfRange,
    /// The previous frame's submission has not signaled its fence yet.
    FrameInFlight,
    /// `end_frame` without a recorded frame.
    NoFrameRecorded,
}

/// What an image acquire reported.
#[derive(Clone, Copy, Debug, PartialEq, Eq, Structural)]
pub enum AcquireOutcome {
    /// An image is available.
    Success { image_index: u32 },
    /// An image is available but the swapchain no longer matches the
    /// surface; recreate before further frames.
    Suboptimal { image_index: u32 },
    /// No image can be acquired until the swapchain is recreated.
    OutOfDate,
}

/// The handles one frame's submission and presentation need: submit the
/// buffer on the queue with the fence, then present the acquired image.
#[derive(Clone, Copy, Debug, PartialEq, Eq, Structural)]
pub struct SubmitPresentRequest {
    pub queue: u64,
    pub cmd_buffer: u64,
    pub fence: u64,
    pub swapchain: u64,
    pub image_index: u32,
    /// Queue family the presentation request targets.
    pub present_family: u32,
}

/// What a resize hands back for destruction: the superseded swapchain
/// handle and the old framebuffer handles, already ordered newest-first
/// for release.
#[derive(Debug)]
pub struct ResizeOut {
    pub old_swapchain: u64,
    pub old_framebuffers: Vec<u64>,
}

/// Why a resize was refused.
#[derive(Clone, Copy, Debug, PartialEq, Eq, Structural)]
pub enum ResizeError {
    /// The previous frame's work is still in flight; wait on the frame
    /// fence first.
    FrameInFlight,
    /// The replacement swapchain could not be wrapped.
    Swapchain(SwapchainCreationError),
}

/// One native-handle release the platform layer must perform during
/// teardown, in the order returned.
#[derive(Clone, Copy, Debug, PartialEq, Eq, Structural)]
pub enum ReleaseAction {
    DestroyFence(u64),
    FreeCmdBuffer { pool: u64, cmd_buffer: u64 },
    DestroyCmdPool(u64),
    DestroyFramebuffer(u64),
    DestroyRenderPass(u64),
    DestroySwapchain(u64),
    DestroyDevice(u64),
    DestroyDebugReport(u64),
    DestroyInstance(u64),
}

/// The native handle a release action surrenders.
pub open spec fn release_handle(a: ReleaseAction) -> u64 {
    match a {
        ReleaseAction::DestroyFence(h) => h,
        ReleaseAction::FreeCmdBuffer { pool, cmd_buffer } => cmd_buffer,
        ReleaseAction::DestroyCmdPool(h) => h,
        ReleaseAction::DestroyFramebuffer(h) => h,
        ReleaseAction::DestroyRenderPass(h) => h,
        ReleaseAction::DestroySwapchain(h) => h,
        ReleaseAction::DestroyDevice(h) => h,
        ReleaseAction::DestroyDebugReport(h) => h,
        ReleaseAction::DestroyInstance(h) => h,
    }
}

/// Everything the platform layer queried and created for construction:
/// driver support data, the enumerated adapters and queue families, and
/// the native handles of each created object.
pub struct RendererInit {
    pub instance_support: InstanceSupport,
    pub required_extensions: Vec<InstanceExtension>,
    pub debug: bool,
    pub instance_handle: u64,
    pub debug_report_handle: Option<u64>,
    pub adapters: Vec<Adapter>,
    pub queue_families: Vec<QueueFamilyInfo>,
    pub device_handle: u64,
    pub enabled_features: Vec<Feature>,
    pub memory_properties: MemoryProperties,
    pub limits: Limits,
    pub compute_queue_handle: u64,
    pub graphics_queue_handle: u64,
    pub transfer_queue_handle: u64,
    pub surface_caps: SurfaceCaps,
    pub surface_formats: Vec<Format>,
    pub present_modes: Vec<PresentMode>,
    pub window_extent: Extent2d,
    pub swapchain_handle: u64,
    pub swapchain_images: Vec<u64>,
    pub render_pass_handle: u64,
    pub framebuffer_handles: Vec<u64>,
    pub cmd_pool_handle: u64,
    pub cmd_buffer_handle: u64,
    pub fence_handle: u64,
}

/// The renderer: one of each component, held in dependency order.
pub struct Renderer {
    pub instance: Option<Instance>,
    pub device: Option<Device>,
    pub compute_queue: Option<Queue>,
    pub graphics_queue: Option<Queue>,
    pub transfer_queue: Option<Queue>,
    pub swapchain: Option<Swapchain>,
    pub default_render_pass: Option<RenderPass>,
    pub framebuffers: Option<Vec<Framebuffer>>,
    pub graphics_pool: Option<CmdPool>,
    pub graphics_buffer: Option<CmdBuffer>,
    pub state: RendererState,
}

/// Handles of a framebuffer list, in creation order.
pub open spec fn framebuffer_handles(fbs: Seq<Framebuffer>) -> Seq<u64> {
    fbs.map_values(|fb: Framebuffer| fb.framebuffer.raw())
}

/// Destroy actions for a framebuffer list, in list order.
pub open spec fn fb_release_actions(fbs: Seq<Framebuffer>) -> Seq<ReleaseAction> {
    fbs.map_values(|fb: Framebuffer| ReleaseAction::DestroyFramebuffer(fb.framebuffer.raw()))
}

/// Plain copy of a handle list.
fn copy_handles(v: &Vec<u64>) -> (r: Vec<u64>)
    ensures
        r@ == v@,
{
    let mut r: Vec<u64> = Vec::new();
    let mut i: usize = 0;
    while i < v.len()
        invariant
            i <= v@.len(),
            r@ == v@.take(i as int),
        decreases v@.len() - i,
    {
        r.push(v[i]);
        proof {
            assert(r@ =~= v@.take(i + 1 as int));
        }
        i += 1;
    }
    proof {
        assert(v@.take(v@.len() as int) =~= v@);
    }
    r
}

impl Renderer {
    /// Structural well-formedness of a live renderer: every component is
    /// present and well-formed, and they agree with one another — queue
    /// families come from the device's selection, the render pass clears
    /// the swapchain's format, there is exactly one framebuffer per
    /// swapchain image at the swapchain's extent, and a recorded frame
    /// targets an existing image with the clear-only pass.
    pub open spec fn live_wf(self) -> bool {
        &&& self.instance matches Some(inst)
        &&& inst.wf()
        &&& self.device matches Some(d)
        &&& d.wf()
        &&& d.families@.len() <= u32::MAX
        &&& self.compute_queue matches Some(cq)
        &&& cq.wf()
        &&& cq.capability == QueueCapability::Compute
        &&& cq.family_index == d.selection.compute_family
        &&& self.graphics_queue matches Some(gq)
        &&& gq.wf()
        &&& gq.capability == QueueCapability::Graphics
        &&& gq.family_index == d.selection.graphics_family
        &&& self.transfer_queue matches Some(tq)
        &&& tq.wf()
        &&& tq.capability == QueueCapability::Transfer
        &&& tq.family_index == d.selection.transfer_family
        &&& self.swapchain matches Some(sc)
        &&& sc.wf()
        &&& self.default_render_pass matches Some(rp)
        &&& rp.wf()
        &&& rp.color_attachment == clear_store_attachment(sc.format)
        &&& self.framebuffers matches Some(fbs)
        &&& fbs@.len() == sc.images@.len()
        &&& forall|i: int|
            0 <= i < fbs@.len() ==> (#[trigger] fbs@[i]).wf() && fbs@[i].image == sc.images@[i]
                && fbs@[i].extent == sc.extent
        &&& self.graphics_pool matches Some(p)
        &&& p.wf()
        &&& p.queue_family_index == d.selection.graphics_family
        &&& self.graphics_buffer matches Some(b)
        &&& b.wf()
        &&& b.pool == p.pool.raw()
        &&& b.pool_generation == p.generation
        &&& match self.state {
            RendererState::Ready => true,
            RendererState::FrameRecorded { image_index } => {
                &&& image_index < sc.image_count
                &&& b.state is Executable
                &&& b.pass == Some(
                    spec_clear_pass(
                        rp.render_pass.raw(),
                        fbs@[image_index as int].framebuffer.raw(),
                        sc.extent,
                    ),
                )
            },
            RendererState::TornDown => false,
        }
    }

    /// A renderer is either live and well-formed or fully torn down.
    pub open spec fn wf(self) -> bool {
        if self.state is TornDown {
            &&& self.instance is None
            &&& self.device is None
            &&& self.compute_queue is None
            &&& self.graphics_queue is None
            &&& self.transfer_queue is None
            &&& self.swapchain is None
            &&& self.default_render_pass is None
            &&& self.framebuffers is None
            &&& self.graphics_pool is None
            &&& self.graphics_buffer is None
        } else {
            self.live_wf()
        }
    }

    /// Builds every component in dependency order — instance, device,
    /// queues, swapchain, render pass, framebuffers, command pool,
    /// command buffer — from the platform layer's queried data and
    /// created handles; any admission failure aborts construction with
    /// its own error.
    pub fn new(init: RendererInit) -> (r: Result<Renderer, RendererError>)
        requires
            init.debug <==> init.debug_report_handle is Some,
            init.queue_families@.len() <= u32::MAX,
            init.swapchain_images@.len() <= u32::MAX,
            init.framebuffer_handles@.len() == init.swapchain_images@.len(),
        ensures
            match r {
                Ok(rr) => {
                    &&& spec_check_instance_support(
                        init.instance_support,
                        init.required_extensions@,
                        init.debug,
                    ) is Ok
                    &&& init.adapters@.len() > 0
                    &&& spec_select_queue_families(init.queue_families@) is Ok
                    &&& caps_wf(init.surface_caps)
                    &&& init.swapchain_images@.len() >= 1
                    &&& rr.wf()
                    &&& rr.state is Ready
                    &&& rr.instance matches Some(inst)
                    &&& inst.instance.raw() == init.instance_handle
                    &&& inst.adapters@ == init.adapters@
                    &&& rr.device matches Some(d)
                    &&& d.device.raw() == init.device_handle
                    &&& d.families@ == init.queue_families@
                    &&& exists|i: int|
                        is_selected_adapter(init.adapters@, i) && d.physical_device
                            == init.adapters@[i].handle
                    &&& rr.compute_queue matches Some(cq)
                    &&& cq.queue == init.compute_queue_handle
                    &&& rr.graphics_queue matches Some(gq)
                    &&& gq.queue == init.graphics_queue_handle
                    &&& rr.transfer_queue matches Some(tq)
                    &&& tq.queue == init.transfer_queue_handle
                    &&& rr.swapchain matches Some(sc)
                    &&& sc.swapchain.raw() == init.swapchain_handle
                    &&& sc.images@ == init.swapchain_images@
                    &&& sc.caps == init.surface_caps
                    &&& sc.format == spec_select_color_format(init.surface_formats@, None)
                    &&& sc.present_mode == spec_select_present_mode(init.present_modes@, None)
                    &&& sc.extent == spec_clamped_extent(init.surface_caps, init.window_extent)
                    &&& rr.default_render_pass matches Some(rp)
                    &&& rp.render_pass.raw() == init.render_pass_handle
                    &&& rr.framebuffers matches Some(fbs)
                    &&& fbs@.len() == init.swapchain_images@.len()
                    &&& forall|i: int|
                        0 <= i < fbs@.len() ==> (#[trigger] fbs@[i]).framebuffer.raw()
                            == init.framebuffer_handles@[i] && fbs@[i].image
                            == init.swapchain_images@[i]
                    &&& rr.graphics_pool matches Some(p)
                    &&& p.pool.raw() == init.cmd_pool_handle
                    &&& rr.graphics_buffer matches Some(b)
                    &&& b.cmd_buffer.raw() == init.cmd_buffer_handle
                    &&& b.fence.raw() == init.fence_handle
                    &&& b.state is Initial
                    &&& b.fence_signaled
                    &&& b.pass is None
                },
                Err(RendererError::Instance(e)) => spec_check_instance_support(
                    init.instance_support,
                    init.required_extensions@,
                    init.debug,
                ) == Err::<(), InstanceCreationError>(e),
                Err(RendererError::NoAdapters) => {
                    &&& spec_check_instance_support(
                        init.instance_support,
                        init.required_extensions@,
                        init.debug,
                    ) is Ok
                    &&& init.adapters@.len() == 0
                },
                Err(RendererError::Device(e)) => {
                    &&& spec_check_instance_support(
                        init.instance_support,
                        init.required_extensions@,
                        init.debug,
                    ) is Ok
                    &&& init.adapters@.len() > 0
                    &&& spec_select_queue_families(init.queue_families@) == Err::<
                        crate::device::QueueSelection,
                        DeviceCreationError,
                    >(e)
                },
                Err(RendererError::Swapchain(e)) => {
                    &&& spec_check_instance_support(
                        init.instance_support,
                        init.required_extensions@,
                        init.debug,
                    ) is Ok
                    &&& init.adapters@.len() > 0
                    &&& spec_select_queue_families(init.queue_families@) is Ok
                    &&& match e {
                        SwapchainCreationError::InvalidCapabilities => !caps_wf(init.surface_caps),
                        SwapchainCreationError::NoPresentableImages => caps_wf(init.surface_caps)
                            && init.swapchain_images@.len() == 0,
                    }
                },
            },
    {
        let RendererInit {
            instance_support,
            required_extensions,
            debug,
            instance_handle,
            debug_report_handle,
            adapters,
            queue_families,
            device_handle,
            enabled_features,
            memory_properties,
            limits,
            compute_queue_handle,
            graphics_queue_handle,
            transfer_queue_handle,
            surface_caps,
            surface_formats,
            present_modes,
            window_extent,
            swapchain_handle,
            swapchain_images,
            render_pass_handle,
            framebuffer_handles,
            cmd_pool_handle,
            cmd_buffer_handle,
            fence_handle,
        } = init;
        let instance = match Instance::new(
            &instance_support,
            &required_extensions,
            debug,
            instance_handle,
            debug_report_handle,
            adapters,
        ) {
            Ok(i) => i,
            Err(e) => {
                return Err(RendererError::Instance(e));
            },
        };
        let adapter = match instance.select_primary_physical_device() {
            Some(a) => a,
            None => {
                return Err(RendererError::NoAdapters);
            },
        };
        let device = match Device::new(
            &adapter,
            queue_families,
            device_handle,
            enabled_features,
            memory_properties,
            limits,
        ) {
            Ok(d) => d,
            Err(e) => {
                return Err(RendererError::Device(e));
            },
        };
        proof {
            lemma_selected_families_support(device.families@);
        }
        let compute_queue = Queue::new(
            compute_queue_handle,
            device.get_compute_queue_index(),
            QueueCapability::Compute,
            &device.families[device.get_compute_queue_index() as usize],
        );
        let graphics_queue = Queue::new(
            graphics_queue_handle,
            device.get_graphics_queue_index(),
            QueueCapability::Graphics,
            &device.families[device.get_graphics_queue_index() as usize],
        );
        let transfer_queue = Queue::new(
            transfer_queue_handle,
            device.get_transfer_queue_index(),
            QueueCapability::Transfer,
            &device.families[device.get_transfer_queue_index() as usize],
        );
        let swapchain = match Swapchain::new(
            surface_caps,
            &surface_formats,
            None,
            &present_modes,
            None,
            window_extent,
            swapchain_handle,
            swapchain_images,
        ) {
            Ok(s) => s,
            Err(e) => {
                return Err(RendererError::Swapchain(e));
            },
        };
        let default_render_pass = RenderPass::new(render_pass_handle, swapchain.get_surface_format());
        let extent = swapchain.get_extent();
        let mut framebuffers: Vec<Framebuffer> = Vec::new();
        let mut i: usize = 0;
        while i < framebuffer_handles.len()
            invariant
                i <= framebuffer_handles@.len(),
                framebuffer_handles@.len() == swapchain.images@.len(),
                framebuffers@.len() == i,
                forall|k: int|
                    0 <= k < i ==> (#[trigger] framebuffers@[k]).wf() && framebuffers@[k].framebuffer.raw()
                        == framebuffer_handles@[k] && framebuffers@[k].image == swapchain.images@[k]
                        && framebuffers@[k].extent == extent,
            decreases framebuffer_handles@.len() - i,
        {
            let image = *swapchain.get_images().get(i).unwrap();
            framebuffers.push(Framebuffer::new(framebuffer_handles[i], image, extent));
            i += 1;
        }
        let graphics_pool = CmdPool::new(cmd_pool_handle, &graphics_queue);
        let graphics_buffer = CmdBuffer::new(cmd_buffer_handle, fence_handle, &graphics_pool);
        Ok(
            Renderer {
                instance: Some(instance),
                device: Some(device),
                compute_queue: Some(compute_queue),
                graphics_queue: Some(graphics_queue),
                transfer_queue: Some(transfer_queue),
                swapchain: Some(swapchain),
                default_render_pass: Some(default_render_pass),
                framebuffers: Some(framebuffers),
                graphics_pool: Some(graphics_pool),
                graphics_buffer: Some(graphics_buffer),
                state: RendererState::Ready,
            },
        )
    }

    /// The renderer after a successful `begin_frame` for image `i`: the
    /// command buffer holds the clear-only pass for that image's
    /// framebuffer with its fence reset, and a frame is recorded.
    pub open spec fn spec_after_begin(self, i: u32) -> Renderer {
        Renderer {
            state: RendererState::FrameRecorded { image_index: i },
            graphics_buffer: Some(
                CmdBuffer {
                    fence_signaled: false,
                    state: CmdBufferState::Executable,
                    pass: Some(
                        spec_clear_pass(
                            self.default_render_pass->Some_0.render_pass.raw(),
                            self.framebuffers->Some_0@[i as int].framebuffer.raw(),
                            self.swapchain->Some_0.extent,
                        ),
                    ),
                    ..self.graphics_buffer->Some_0
                },
            ),
            ..self
        }
    }

    /// The renderer after a successful `end_frame`: the recorded buffer
    /// is pending on the device, its fence armed and unsignaled until
    /// the submission completes, and the renderer is ready for the next
    /// frame.
    pub open spec fn spec_after_end(self) -> Renderer {
        Renderer {
            state: RendererState::Ready,
            graphics_buffer: Some(
                CmdBuffer { state: CmdBufferState::Pending, ..self.graphics_buffer->Some_0 },
            ),
            ..self
        }
    }

    /// Begins a frame for the acquired image: fetches that image's
    /// framebuffer and records the command buffer against the current
    /// render pass and extent. Refused when the acquire demands a
    /// swapchain recreation, when the reported index does not exist, or
    /// while the previous frame's fence has not signaled.
    pub fn begin_frame(&mut self, acquired: AcquireOutcome) -> (r: Result<u32, FrameError>)
        requires
            old(self).wf(),
            old(self).state is Ready,
        ensures
            final(self).wf(),
            match r {
                Ok(i) => {
                    &&& acquired == (AcquireOutcome::Success { image_index: i })
                    &&& i < old(self).swapchain->Some_0.image_count
                    &&& old(self).graphics_buffer->Some_0.fence_signaled
                    &&& *final(self) == old(self).spec_after_begin(i)
                },
                Err(FrameError::SwapchainInvalidated) => {
                    &&& (acquired is Suboptimal || acquired is OutOfDate)
                    &&& *final(self) == *old(self)
                },
                Err(FrameError::ImageIndexOutOfRange) => {
                    &&& acquired matches AcquireOutcome::Success { image_index }
                    &&& image_index >= old(self).swapchain->Some_0.image_count
                    &&& *final(self) == *old(self)
                },
                Err(FrameError::FrameInFlight) => {
                    &&& acquired matches AcquireOutcome::Success { image_index }
                    &&& image_index < old(self).swapchain->Some_0.image_count
                    &&& !old(self).graphics_buffer->Some_0.fence_signaled
                    &&& *final(self) == *old(self)
                },
                Err(FrameError::NoFrameRecorded) => false,
            },
    {
        let image_index = match acquired {
            AcquireOutcome::Success { image_index } => image_index,
            _ => {
                return Err(FrameError::SwapchainInvalidated);
            },
        };
        let (sc_format, sc_extent, image_count) = match &self.swapchain {
            Some(sc) => (sc.get_surface_format(), sc.get_extent(), sc.image_count),
            None => unreached(),
        };
        if image_index >= image_count {
            return Err(FrameError::ImageIndexOutOfRange);
        }
        let ready = match &self.graphics_buffer {
            Some(b) => b.fence_signaled,
            None => unreached(),
        };
        if !ready {
            return Err(FrameError::FrameInFlight);
        }
        match (&mut self.graphics_buffer, &self.default_render_pass, &self.framebuffers) {
            (Some(b), Some(rp), Some(fbs)) => {
                let cmd_state = CmdState { format: sc_format, extent: sc_extent };
                match b.record_graphics(cmd_state, rp, &fbs[image_index as usize]) {
                    Ok(()) => {},
                    Err(_) => unreached(),
                }
            },
            _ => unreached(),
        }
        self.state = RendererState::FrameRecorded { image_index };
        Ok(image_index)
    }

    /// Ends the recorded frame: forwards the buffer to the graphics
    /// queue (fence-gated, non-blocking) and hands back everything the
    /// platform layer needs to submit and then present the acquired
    /// image. Refused when no frame is recorded.
    pub fn end_frame(&mut self) -> (r: Result<SubmitPresentRequest, FrameError>)
        requires
            old(self).wf(),
        ensures
            final(self).wf(),
            match r {
                Ok(req) => {
                    &&& old(self).state matches RendererState::FrameRecorded { image_index }
                    &&& *final(self) == old(self).spec_after_end()
                    &&& req == (SubmitPresentRequest {
                        queue: old(self).graphics_queue->Some_0.queue,
                        cmd_buffer: old(self).graphics_buffer->Some_0.cmd_buffer.raw(),
                        fence: old(self).graphics_buffer->Some_0.fence.raw(),
                        swapchain: old(self).swapchain->Some_0.swapchain.raw(),
                        image_index,
                        present_family: old(self).device->Some_0.selection.present_family,
                    })
                },
                Err(FrameError::NoFrameRecorded) => {
                    &&& !(old(self).state is FrameRecorded)
                    &&& *final(self) == *old(self)
                },
                Err(_) => false,
            },
    {
        let image_index = match self.state {
            RendererState::FrameRecorded { image_index } => image_index,
            _ => {
                return Err(FrameError::NoFrameRecorded);
            },
        };
        let swapchain_handle = match &self.swapchain {
            Some(sc) => sc.get_swapchain_raw(),
            None => unreached(),
        };
        let present_family = match &self.device {
            Some(d) => d.get_present_queue_index(),
            None => unreached(),
        };
        let req = match (&self.graphics_queue, &mut self.graphics_buffer) {
            (Some(q), Some(b)) => match q.submit(b) {
                Ok(req) => req,
                Err(_) => unreached(),
            },
            _ => unreached(),
        };
        self.state = RendererState::Ready;
        Ok(
            SubmitPresentRequest {
                queue: req.queue,
                cmd_buffer: req.cmd_buffer,
                fence: req.fence,
                swapchain: swapchain_handle,
                image_index,
                present_family,
            },
        )
    }

    /// Notes that a wait on the frame fence has returned: the pending
    /// submission completed and the command buffer is reusable.
    pub fn on_frame_fence_signaled(&mut self)
        requires
            old(self).wf(),
            old(self).graphics_buffer matches Some(b) && b.state is Pending,
        ensures
            final(self).wf(),
            *final(self) == (Renderer {
                graphics_buffer: Some(
                    CmdBuffer {
                        fence_signaled: true,
                        state: CmdBufferState::Initial,
                        ..old(self).graphics_buffer->Some_0
                    },
                ),
                ..*old(self)
            }),
    {
        match &mut self.graphics_buffer {
            Some(b) => b.mark_fence_signaled(),
            None => unreached(),
        }
    }

    /// Reacts to a window resize: installs the replacement swapchain the
    /// platform layer created against fresh capabilities (with the old
    /// handle as predecessor), then discards the old framebuffers and
    /// builds one per new image at the new extent. Refused while the
    /// previous frame is still in flight — the caller must wait on the
    /// frame fence first, so no pending work can reference a framebuffer
    /// being destroyed. The superseded handles come back newest-first
    /// for destruction after the new swapchain exists.
    #[verifier::loop_isolation(false)]
    pub fn on_resize(
        &mut self,
        new_caps: SurfaceCaps,
        window_extent: Extent2d,
        new_swapchain_handle: u64,
        new_images: Vec<u64>,
        new_framebuffer_handles: Vec<u64>,
    ) -> (r: Result<ResizeOut, ResizeError>)
        requires
            old(self).wf(),
            old(self).state is Ready,
            new_images@.len() <= u32::MAX,
            new_framebuffer_handles@.len() == new_images@.len(),
        ensures
            final(self).wf(),
            match r {
                Ok(out) => {
                    &&& !(old(self).graphics_buffer->Some_0.state is Pending)
                    &&& caps_wf(new_caps)
                    &&& new_images@.len() >= 1
                    &&& out.old_swapchain == old(self).swapchain->Some_0.swapchain.raw()
                    &&& out.old_framebuffers@ == framebuffer_handles(
                        old(self).framebuffers->Some_0@,
                    ).reverse()
                    &&& final(self).state is Ready
                    &&& final(self).swapchain matches Some(sc)
                    &&& sc.caps == new_caps
                    &&& sc.extent == spec_clamped_extent(new_caps, window_extent)
                    &&& sc.image_count == new_images@.len()
                    &&& sc.swapchain.raw() == new_swapchain_handle
                    &&& sc.images@ == new_images@
                    &&& sc.format == old(self).swapchain->Some_0.format
                    &&& sc.present_mode == old(self).swapchain->Some_0.present_mode
                    &&& final(self).framebuffers matches Some(fbs)
                    &&& fbs@.len() == new_images@.len()
                    &&& forall|i: int|
                        0 <= i < fbs@.len() ==> (#[trigger] fbs@[i]).framebuffer.raw()
                            == new_framebuffer_handles@[i] && fbs@[i].image == new_images@[i]
                            && fbs@[i].extent == sc.extent
                    &&& final(self).instance == old(self).instance
                    &&& final(self).device == old(self).device
                    &&& final(self).graphics_buffer == old(self).graphics_buffer
                    &&& final(self).graphics_pool == old(self).graphics_pool
                },
                Err(ResizeError::FrameInFlight) => {
                    &&& old(self).graphics_buffer->Some_0.state is Pending
                    &&& *final(self) == *old(self)
                },
                Err(ResizeError::Swapchain(e)) => {
                    &&& !(old(self).graphics_buffer->Some_0.state is Pending)
                    &&& match e {
                        SwapchainCreationError::InvalidCapabilities => !caps_wf(new_caps),
                        SwapchainCreationError::NoPresentableImages => caps_wf(new_caps)
                            && new_images@.len() == 0,
                    }
                    &&& *final(self) == *old(self)
                },
            },
    {
        let pending = match &self.graphics_buffer {
            Some(b) => match b.state {
                CmdBufferState::Pending => true,
                _ => false,
            },
            None => unreached(),
        };
        if pending {
            return Err(ResizeError::FrameInFlight);
        }
        let images_copy = copy_handles(&new_images);
        let old_handle = match &mut self.swapchain {
            Some(sc) => match sc.recreate(new_caps, window_extent, new_swapchain_handle, new_images) {
                Ok(h) => h,
                Err(e) => {
                    return Err(ResizeError::Swapchain(e));
                },
            },
            None => unreached(),
        };
        let new_extent = match &self.swapchain {
            Some(sc) => sc.get_extent(),
            None => unreached(),
        };
        let mut old_fb_handles: Vec<u64> = Vec::new();
        match &self.framebuffers {
            Some(fbs) => {
                let n = fbs.len();
                let mut i: usize = n;
                while i > 0
                    invariant
                        i <= n,
                        n == fbs@.len(),
                        old_fb_handles@.len() == n - i,
                        forall|k: int|
                            0 <= k < n - i ==> old_fb_handles@[k] == framebuffer_handles(fbs@)[n - 1
                                - k],
                    decreases i,
                {
                    i -= 1;
                    old_fb_handles.push(fbs[i].get_framebuffer_raw());
                }
                proof {
                    assert(old_fb_handles@ =~= framebuffer_handles(fbs@).reverse());
                }
            },
            None => unreached(),
        }
        let mut new_fbs: Vec<Framebuffer> = Vec::new();
        let mut i: usize = 0;
        while i < new_framebuffer_handles.len()
            invariant
                i <= new_framebuffer_handles@.len(),
                new_framebuffer_handles@.len() == images_copy@.len(),
                new_fbs@.len() == i,
                forall|k: int|
                    0 <= k < i ==> (#[trigger] new_fbs@[k]).wf() && new_fbs@[k].framebuffer.raw()
                        == new_framebuffer_handles@[k] && new_fbs@[k].image == images_copy@[k]
                        && new_fbs@[k].extent == new_extent,
            decreases new_framebuffer_handles@.len() - i,
        {
            new_fbs.push(Framebuffer::new(new_framebuffer_handles[i], images_copy[i], new_extent));
            i += 1;
        }
        self.framebuffers = Some(new_fbs);
        Ok(ResizeOut { old_swapchain: old_handle, old_framebuffers: old_fb_handles })
    }

    /// The releases a live renderer's teardown performs, in order:
    /// fence, command buffer, command pool, framebuffers newest-first,
    /// render pass, swapchain, device (only now — every sibling that
    /// issues device-level destroys has been released), diagnostic
    /// hook, and the instance last.
    pub open spec fn spec_release_plan(self) -> Seq<ReleaseAction> {
        let b = self.graphics_buffer->Some_0;
        let p = self.graphics_pool->Some_0;
        let fbs = self.framebuffers->Some_0@;
        let rp = self.default_render_pass->Some_0;
        let sc = self.swapchain->Some_0;
        let d = self.device->Some_0;
        let inst = self.instance->Some_0;
        seq![
            ReleaseAction::DestroyFence(b.fence.raw()),
            ReleaseAction::FreeCmdBuffer { pool: p.pool.raw(), cmd_buffer: b.cmd_buffer.raw() },
            ReleaseAction::DestroyCmdPool(p.pool.raw()),
        ] + fb_release_actions(fbs).reverse() + seq![
            ReleaseAction::DestroyRenderPass(rp.render_pass.raw()),
            ReleaseAction::DestroySwapchain(sc.swapchain.raw()),
            ReleaseAction::DestroyDevice(d.device.raw()),
        ] + (match inst.debug_report {
            Some(s) => seq![ReleaseAction::DestroyDebugReport(s.raw())],
            None => Seq::empty(),
        }) + seq![ReleaseAction::DestroyInstance(inst.instance.raw())]
    }

    /// Every native handle a live renderer owns, in the order it was
    /// created: instance, diagnostic hook, device, swapchain, render
    /// pass, framebuffers, command pool, command buffer, fence. (Queue
    /// handles are owned by the device and are never destroyed
    /// separately.)
    pub open spec fn creation_handles(self) -> Seq<u64> {
        let b = self.graphics_buffer->Some_0;
        let p = self.graphics_pool->Some_0;
        let fbs = self.framebuffers->Some_0@;
        let rp = self.default_render_pass->Some_0;
        let sc = self.swapchain->Some_0;
        let d = self.device->Some_0;
        let inst = self.instance->Some_0;
        seq![inst.instance.raw()] + (match inst.debug_report {
            Some(s) => seq![s.raw()],
            None => Seq::empty(),
        }) + seq![d.device.raw(), sc.swapchain.raw(), rp.render_pass.raw()] + framebuffer_handles(
            fbs,
        ) + seq![p.pool.raw(), b.cmd_buffer.raw(), b.fence.raw()]
    }

    /// Tears the renderer down: surrenders every owned handle exactly
    /// once and returns the device handle to wait idle on, followed by
    /// the releases to perform in order. A second call observes `None`
    /// instead of releasing anything twice.
    #[verifier::loop_isolation(false)]
    pub fn teardown(&mut self) -> (r: Option<(u64, Vec<ReleaseAction>)>)
        requires
            old(self).wf(),
        ensures
            final(self).wf(),
            match r {
                Some(t) => {
                    &&& !(old(self).state is TornDown)
                    &&& t.0 == old(self).device->Some_0.device.raw()
                    &&& t.1@ == old(self).spec_release_plan()
                    &&& final(self).state is TornDown
                },
                None => {
                    &&& old(self).state is TornDown
                    &&& *final(self) == *old(self)
                },
            },
    {
        match self.state {
            RendererState::TornDown => {
                return None;
            },
            _ => {},
        }
        let mut actions: Vec<ReleaseAction> = Vec::new();
        let (fence_h, buf_h) = match &self.graphics_buffer {
            Some(b) => (b.get_fence_raw(), b.get_cmd_buffer_raw()),
            None => unreached(),
        };
        let pool_h = match &self.graphics_pool {
            Some(p) => p.get_cmd_pool_raw(),
            None => unreached(),
        };
        actions.push(ReleaseAction::DestroyFence(fence_h));
        actions.push(ReleaseAction::FreeCmdBuffer { pool: pool_h, cmd_buffer: buf_h });
        actions.push(ReleaseAction::DestroyCmdPool(pool_h));
        match &self.framebuffers {
            Some(fbs) => {
                let n = fbs.len();
                let mut i: usize = n;
                while i > 0
                    invariant
                        i <= n,
                        n == fbs@.len(),
                        actions@.len() == 3 + n - i,
                        actions@[0] == ReleaseAction::DestroyFence(fence_h),
                        actions@[1] == (ReleaseAction::FreeCmdBuffer {
                            pool: pool_h,
                            cmd_buffer: buf_h,
                        }),
                        actions@[2] == ReleaseAction::DestroyCmdPool(pool_h),
                        forall|k: int|
                            0 <= k < n - i ==> actions@[3 + k] == fb_release_actions(fbs@).reverse()[k],
                    decreases i,
                {
                    i -= 1;
                    actions.push(ReleaseAction::DestroyFramebuffer(fbs[i].get_framebuffer_raw()));
                }
            },
            None => unreached(),
        }
        let rp_h = match &self.default_render_pass {
            Some(rp) => rp.get_render_pass_raw(),
            None => unreached(),
        };
        let sc_h = match &self.swapchain {
            Some(sc) => sc.get_swapchain_raw(),
            None => unreached(),
        };
        let dev_h = match &self.device {
            Some(d) => d.device.peek(),
            None => unreached(),
        };
        actions.push(ReleaseAction::DestroyRenderPass(rp_h));
        actions.push(ReleaseAction::DestroySwapchain(sc_h));
        actions.push(ReleaseAction::DestroyDevice(dev_h));
        match &self.instance {
            Some(inst) => {
                match &inst.debug_report {
                    Some(s) => actions.push(ReleaseAction::DestroyDebugReport(s.peek())),
                    None => {},
                }
                actions.push(ReleaseAction::DestroyInstance(inst.instance.peek()));
            },
            None => unreached(),
        }
        proof {
            assert(actions@ =~= old(self).spec_release_plan());
        }
        *self = Renderer {
            instance: None,
            device: None,
            compute_queue: None,
            graphics_queue: None,
            transfer_queue: None,
            swapchain: None,
            default_render_pass: None,
            framebuffers: None,
            graphics_pool: None,
            graphics_buffer: None,
            state: RendererState::TornDown,
        };
        Some((dev_h, actions))
    }

    /// Native handle of the current swapchain, as the driver needs it
    /// for the predecessor link when a replacement is created.
    pub fn get_swapchain_raw(&self) -> (h: u64)
        requires
            self.wf(),
            !(self.state is TornDown),
        ensures
            h == self.swapchain->Some_0.swapchain.raw(),
    {
        match &self.swapchain {
            Some(sc) => sc.get_swapchain_raw(),
            None => unreached(),
        }
    }

    /// Native handle of the frame fence the platform layer waits on.
    pub fn get_frame_fence_raw(&self) -> (h: u64)
        requires
            self.wf(),
            !(self.state is TornDown),
        ensures
            h == self.graphics_buffer->Some_0.fence.raw(),
    {
        match &self.graphics_buffer {
            Some(b) => b.get_fence_raw(),
            None => unreached(),
        }
    }
}

/// Teardown releases the renderer's native handles in strict reverse of
/// creation order — the handles surrendered by the release plan, read in
/// order, are exactly the creation-ordered handles reversed. In
/// particular the device is released only after the queue, swapchain,
/// framebuffer and command-pool owners, and the instance comes last; and
/// when the created handles are pairwise distinct, no handle is released
/// twice.
pub proof fn lemma_teardown_reverse_of_creation(r: Renderer)
    requires
        r.wf(),
        !(r.state is TornDown),
    ensures
        r.spec_release_plan().map_values(|a: ReleaseAction| release_handle(a))
            =~= r.creation_handles().reverse(),
        r.creation_handles().no_duplicates() ==> r.spec_release_plan().map_values(
            |a: ReleaseAction| release_handle(a),
        ).no_duplicates(),
        r.spec_release_plan().last() == ReleaseAction::DestroyInstance(
            r.instance->Some_0.instance.raw(),
        ),
        r.spec_release_plan()[5 + r.framebuffers->Some_0@.len() as int]
            == ReleaseAction::DestroyDevice(r.device->Some_0.device.raw()),
        forall|k: int|
            0 <= k < 5 + r.framebuffers->Some_0@.len() as int ==> !(
            #[trigger] r.spec_release_plan()[k] is DestroyDevice),
{
    let released = r.spec_release_plan().map_values(|a: ReleaseAction| release_handle(a));
    let created = r.creation_handles();
    let fbs = r.framebuffers->Some_0@;
    let n = fbs.len() as int;
    assert forall|k: int| 0 <= k < n implies fb_release_actions(fbs).reverse()[k]
        == ReleaseAction::DestroyFramebuffer(framebuffer_handles(fbs)[n - 1 - k]) by {
        assert(fb_release_actions(fbs).reverse()[k] == fb_release_actions(fbs)[n - 1 - k]);
    }
    match r.instance->Some_0.debug_report {
        Some(s) => {
            assert(released.len() == created.len());
            assert forall|k: int| 0 <= k < released.len() implies released[k]
                == created.reverse()[k] by {
                assert(created.reverse()[k] == created[created.len() - 1 - k]);
            }
        },
        None => {
            assert(released.len() == created.len());
            assert forall|k: int| 0 <= k < released.len() implies released[k]
                == created.reverse()[k] by {
                assert(created.reverse()[k] == created[created.len() - 1 - k]);
            }
        },
    }
    if created.no_duplicates() {
        assert forall|i: int, j: int|
            0 <= i < released.len() && 0 <= j < released.len() && i != j implies released[i]
            != released[j] by {
            assert(released[i] == created[created.len() - 1 - i]);
            assert(released[j] == created[created.len() - 1 - j]);
        }
        assert(released.no_duplicates());
    }
}

/// A `begin_frame` immediately followed by `end_frame`, with no draw
/// commands issued in between, leaves the command buffer pending with
/// its fence unsignaled until the submission completes, and what it
/// recorded is the single pass over the acquired image's framebuffer
/// that clears the target to the fixed cornflower-blue color.
pub proof fn lemma_empty_frame_clears_to_fixed_color(r: Renderer, i: u32)
    requires
        r.wf(),
        r.state is Ready,
        r.graphics_buffer->Some_0.fence_signaled,
        i < r.swapchain->Some_0.image_count,
    ensures
        ({
            let done = r.spec_after_begin(i).spec_after_end();
            &&& done.graphics_buffer matches Some(b)
            &&& b.state is Pending
            &&& !b.fence_signaled
            &&& b.pass matches Some(p)
            &&& p.draw_count == 0
            &&& p.clear == spec_clear_color()
            &&& p.clear.red_milli == 390 && p.clear.green_milli == 580 && p.clear.blue_milli
                == 930 && p.clear.alpha_milli == 1000
            &&& p.render_pass == r.default_render_pass->Some_0.render_pass.raw()
            &&& p.framebuffer == r.framebuffers->Some_0@[i as int].framebuffer.raw()
            &&& p.extent == r.swapchain->Some_0.extent
        }),
{
}

} // verus!
