use halogen::cmd::CmdBufferState;
use halogen::device::DeviceCreationError;
use halogen::device::Limits;
use halogen::device::MemoryProperties;
use halogen::instance::get_required_instance_extensions;
use halogen::instance::InstanceCreationError;
use halogen::instance::InstanceSupport;
use halogen::instance::InstanceExtension;
use halogen::instance::Platform;
use halogen::renderer::AcquireOutcome;
use halogen::renderer::FrameError;
use halogen::renderer::ReleaseAction;
use halogen::renderer::Renderer;
use halogen::renderer::RendererError;
use halogen::renderer::RendererInit;
use halogen::renderer::RendererState;
use halogen::renderer::ResizeError;
use halogen::swapchain::SwapchainCreationError;
use halogen::types::Adapter;
use halogen::types::DeviceType;
use halogen::types::Extent2d;
use halogen::types::Format;
use halogen::types::PresentMode;
use halogen::types::QueueFamilyInfo;
use halogen::types::SurfaceCaps;

const INSTANCE_H: u64 = 1;
const DEBUG_H: u64 = 2;
const DEVICE_H: u64 = 3;
const COMPUTE_Q_H: u64 = 4;
const GRAPHICS_Q_H: u64 = 5;
const TRANSFER_Q_H: u64 = 6;
const SWAPCHAIN_H: u64 = 7;
const RENDER_PASS_H: u64 = 8;
const POOL_H: u64 = 9;
const CMD_BUF_H: u64 = 10;
const FENCE_H: u64 = 11;
const IMAGE0_H: u64 = 20;
const IMAGE1_H: u64 = 21;
const FB0_H: u64 = 30;
const FB1_H: u64 = 31;

fn working_init() -> RendererInit {
    RendererInit {
        instance_support: InstanceSupport {
            driver_present: true,
            available_extensions: vec![
                InstanceExtension::Surface,
                InstanceExtension::XlibSurface,
                InstanceExtension::DebugReport,
            ],
            validation_layer_present: true,
        },
        required_extensions: get_required_instance_extensions(Platform::Xlib, true),
        debug: true,
        instance_handle: INSTANCE_H,
        debug_report_handle: Some(DEBUG_H),
        adapters: vec![Adapter {
            handle: 2000,
            device_type: DeviceType::IntegratedGpu,
            supported_feature_count: 1,
        }],
        queue_families: vec![QueueFamilyInfo {
            supports_graphics: true,
            supports_compute: true,
            supports_transfer: true,
            supports_present: true,
            queue_count: 4,
        }],
        device_handle: DEVICE_H,
        enabled_features: vec![],
        memory_properties: MemoryProperties { memory_type_count: 4, memory_heap_count: 2 },
        limits: Limits {
            max_image_dimension_2d: 4096,
            max_framebuffer_width: 4096,
            max_framebuffer_height: 4096,
        },
        compute_queue_handle: COMPUTE_Q_H,
        graphics_queue_handle: GRAPHICS_Q_H,
        transfer_queue_handle: TRANSFER_Q_H,
        surface_caps: SurfaceCaps {
            min_image_count: 2,
            max_image_count: 4,
            current_extent: Extent2d { width: 1024, height: 768 },
            min_extent: Extent2d { width: 1, height: 1 },
            max_extent: Extent2d { width: 4096, height: 4096 },
        },
        surface_formats: vec![Format::Bgra8Unorm, Format::Rgba8Srgb],
        present_modes: vec![PresentMode::Fifo, PresentMode::Mailbox],
        window_extent: Extent2d { width: 1024, height: 768 },
        swapchain_handle: SWAPCHAIN_H,
        swapchain_images: vec![IMAGE0_H, IMAGE1_H],
        render_pass_handle: RENDER_PASS_H,
        framebuffer_handles: vec![FB0_H, FB1_H],
        cmd_pool_handle: POOL_H,
        cmd_buffer_handle: CMD_BUF_H,
        fence_handle: FENCE_H,
    }
}

fn working_renderer() -> Renderer {
    Renderer::new(working_init()).ok().unwrap()
}

#[test]
fn construction_builds_every_component() {
    let r = working_renderer();
    assert_eq!(r.state, RendererState::Ready);
    let sc = r.swapchain.as_ref().unwrap();
    assert_eq!(sc.format, Format::Rgba8Srgb);
    assert_eq!(sc.image_count, 2);
    let fbs = r.framebuffers.as_ref().unwrap();
    assert_eq!(fbs.len(), 2);
    assert_eq!(fbs[0].image, IMAGE0_H);
    assert_eq!(fbs[1].image, IMAGE1_H);
    let b = r.graphics_buffer.as_ref().unwrap();
    assert_eq!(b.state, CmdBufferState::Initial);
    assert!(b.fence_signaled);
    assert_eq!(r.device.as_ref().unwrap().physical_device, 2000);
}

#[test]
fn construction_fails_without_driver() {
    let mut init = working_init();
    init.instance_support.driver_present = false;
    assert!(matches!(
        Renderer::new(init),
        Err(RendererError::Instance(InstanceCreationError::MissingDriver))
    ));
}

#[test]
fn construction_fails_without_adapters() {
    let mut init = working_init();
    init.adapters = vec![];
    assert!(matches!(Renderer::new(init), Err(RendererError::NoAdapters)));
}

#[test]
fn construction_fails_without_surface_queue() {
    let mut init = working_init();
    init.queue_families[0].supports_present = false;
    assert!(matches!(
        Renderer::new(init),
        Err(RendererError::Device(DeviceCreationError::MissingSurfaceSupport))
    ));
}

#[test]
fn construction_fails_without_images() {
    let mut init = working_init();
    init.swapchain_images = vec![];
    init.framebuffer_handles = vec![];
    assert!(matches!(
        Renderer::new(init),
        Err(RendererError::Swapchain(SwapchainCreationError::NoPresentableImages))
    ));
}

#[test]
fn empty_frame_records_clear_and_submits() {
    let mut r = working_renderer();
    let i = r.begin_frame(AcquireOutcome::Success { image_index: 1 }).ok().unwrap();
    assert_eq!(i, 1);
    assert_eq!(r.state, RendererState::FrameRecorded { image_index: 1 });
    {
        let b = r.graphics_buffer.as_ref().unwrap();
        assert_eq!(b.state, CmdBufferState::Executable);
        let pass = b.pass.as_ref().unwrap();
        assert_eq!(pass.framebuffer, FB1_H);
        assert_eq!(pass.render_pass, RENDER_PASS_H);
        assert_eq!(pass.draw_count, 0);
        assert_eq!(
            (pass.clear.red_milli, pass.clear.green_milli, pass.clear.blue_milli, pass.clear.alpha_milli),
            (390, 580, 930, 1000)
        );
    }
    let req = r.end_frame().ok().unwrap();
    assert_eq!(req.queue, GRAPHICS_Q_H);
    assert_eq!(req.cmd_buffer, CMD_BUF_H);
    assert_eq!(req.fence, FENCE_H);
    assert_eq!(req.swapchain, SWAPCHAIN_H);
    assert_eq!(req.image_index, 1);
    assert_eq!(r.state, RendererState::Ready);
    let b = r.graphics_buffer.as_ref().unwrap();
    assert_eq!(b.state, CmdBufferState::Pending);
    assert!(!b.fence_signaled);
}

#[test]
fn second_frame_blocked_until_fence_signals() {
    let mut r = working_renderer();
    r.begin_frame(AcquireOutcome::Success { image_index: 0 }).ok().unwrap();
    r.end_frame().ok().unwrap();
    assert_eq!(
        r.begin_frame(AcquireOutcome::Success { image_index: 1 }),
        Err(FrameError::FrameInFlight)
    );
    r.on_frame_fence_signaled();
    assert_eq!(r.begin_frame(AcquireOutcome::Success { image_index: 1 }), Ok(1));
}

#[test]
fn acquire_invalidation_demands_recreate() {
    let mut r = working_renderer();
    assert_eq!(
        r.begin_frame(AcquireOutcome::OutOfDate),
        Err(FrameError::SwapchainInvalidated)
    );
    assert_eq!(
        r.begin_frame(AcquireOutcome::Suboptimal { image_index: 0 }),
        Err(FrameError::SwapchainInvalidated)
    );
    assert_eq!(
        r.begin_frame(AcquireOutcome::Success { image_index: 9 }),
        Err(FrameError::ImageIndexOutOfRange)
    );
    assert_eq!(r.end_frame(), Err(FrameError::NoFrameRecorded));
}

#[test]
fn resize_rebuilds_framebuffers_to_new_extent_and_count() {
    let mut r = working_renderer();
    let new_caps = SurfaceCaps {
        min_image_count: 2,
        max_image_count: 4,
        current_extent: Extent2d { width: 640, height: 480 },
        min_extent: Extent2d { width: 1, height: 1 },
        max_extent: Extent2d { width: 4096, height: 4096 },
    };
    let out = r
        .on_resize(
            new_caps,
            Extent2d { width: 640, height: 480 },
            70,
            vec![120, 121, 122],
            vec![130, 131, 132],
        )
        .ok()
        .unwrap();
    assert_eq!(out.old_swapchain, SWAPCHAIN_H);
    assert_eq!(out.old_framebuffers, vec![FB1_H, FB0_H]);
    let sc = r.swapchain.as_ref().unwrap();
    assert_eq!(sc.image_count, 3);
    assert_eq!(sc.format, Format::Rgba8Srgb);
    let fbs = r.framebuffers.as_ref().unwrap();
    assert_eq!(fbs.len(), 3);
    for fb in fbs.iter() {
        assert_eq!(fb.extent, Extent2d { width: 640, height: 480 });
    }
    assert_eq!(fbs[0].image, 120);
    assert_eq!(fbs[2].image, 122);
}

#[test]
fn resize_waits_for_in_flight_frame() {
    let mut r = working_renderer();
    r.begin_frame(AcquireOutcome::Success { image_index: 0 }).ok().unwrap();
    r.end_frame().ok().unwrap();
    let new_caps = r.swapchain.as_ref().unwrap().caps;
    let refused = r.on_resize(
        new_caps,
        Extent2d { width: 1024, height: 768 },
        70,
        vec![120, 121],
        vec![130, 131],
    );
    assert!(matches!(refused, Err(ResizeError::FrameInFlight)));
    r.on_frame_fence_signaled();
    let out = r.on_resize(
        new_caps,
        Extent2d { width: 1024, height: 768 },
        70,
        vec![120, 121],
        vec![130, 131],
    );
    assert!(out.is_ok());
}

#[test]
fn teardown_releases_in_reverse_creation_order() {
    let mut r = working_renderer();
    let (wait_device, actions) = r.teardown().unwrap();
    assert_eq!(wait_device, DEVICE_H);
    assert_eq!(
        actions,
        vec![
            ReleaseAction::DestroyFence(FENCE_H),
            ReleaseAction::FreeCmdBuffer { pool: POOL_H, cmd_buffer: CMD_BUF_H },
            ReleaseAction::DestroyCmdPool(POOL_H),
            ReleaseAction::DestroyFramebuffer(FB1_H),
            ReleaseAction::DestroyFramebuffer(FB0_H),
            ReleaseAction::DestroyRenderPass(RENDER_PASS_H),
            ReleaseAction::DestroySwapchain(SWAPCHAIN_H),
            ReleaseAction::DestroyDevice(DEVICE_H),
            ReleaseAction::DestroyDebugReport(DEBUG_H),
            ReleaseAction::DestroyInstance(INSTANCE_H),
        ]
    );
    assert_eq!(r.state, RendererState::TornDown);
}

#[test]
fn teardown_twice_releases_nothing_again() {
    let mut r = working_renderer();
    assert!(r.teardown().is_some());
    assert!(r.teardown().is_none());
    assert!(r.instance.is_none());
    assert!(r.device.is_none());
    assert!(r.graphics_buffer.is_none());
}

#[test]
fn release_build_skips_debug_hook() {
    let mut init = working_init();
    init.debug = false;
    init.debug_report_handle = None;
    init.required_extensions = get_required_instance_extensions(Platform::Xlib, false);
    let mut r = Renderer::new(init).ok().unwrap();
    let (_, actions) = r.teardown().unwrap();
    assert!(!actions.iter().any(|a| matches!(a, ReleaseAction::DestroyDebugReport(_))));
    assert_eq!(actions.last(), Some(&ReleaseAction::DestroyInstance(INSTANCE_H)));
}
