use halogen::cmd::CmdBuffer;
use halogen::cmd::CmdBufferState;
use halogen::cmd::CmdPool;
use halogen::cmd::CmdState;
use halogen::cmd::RecordError;
use halogen::pass::Framebuffer;
use halogen::pass::LoadOp;
use halogen::pass::RenderPass;
use halogen::pass::StoreOp;
use halogen::queue::Queue;
use halogen::queue::QueueCapability;
use halogen::queue::SubmitError;
use halogen::swapchain::plan_swapchain;
use halogen::swapchain::Swapchain;
use halogen::swapchain::SwapchainCreationError;
use halogen::types::Extent2d;
use halogen::types::Format;
use halogen::types::PresentMode;
use halogen::types::QueueFamilyInfo;
use halogen::types::SurfaceCaps;
use halogen::types::EXTENT_UNDEFINED;

fn graphics_family() -> QueueFamilyInfo {
    QueueFamilyInfo {
        supports_graphics: true,
        supports_compute: true,
        supports_transfer: true,
        supports_present: true,
        queue_count: 2,
    }
}

fn graphics_queue() -> Queue {
    Queue::new(40, 0, QueueCapability::Graphics, &graphics_family())
}

fn caps(min_count: u32, max_count: u32, current_width: u32) -> SurfaceCaps {
    SurfaceCaps {
        min_image_count: min_count,
        max_image_count: max_count,
        current_extent: Extent2d { width: current_width, height: 600 },
        min_extent: Extent2d { width: 100, height: 100 },
        max_extent: Extent2d { width: 2000, height: 2000 },
    }
}

fn recording_setup() -> (CmdPool, CmdBuffer, RenderPass, Framebuffer, CmdState) {
    let queue = graphics_queue();
    let pool = CmdPool::new(50, &queue);
    let buffer = CmdBuffer::new(51, 52, &pool);
    let render_pass = RenderPass::new(53, Format::Rgba8Srgb);
    let extent = Extent2d { width: 800, height: 600 };
    let framebuffer = Framebuffer::new(54, 60, extent);
    let state = CmdState { format: Format::Rgba8Srgb, extent };
    (pool, buffer, render_pass, framebuffer, state)
}

#[test]
fn pool_capacity_is_at_least_one_core() {
    let queue = graphics_queue();
    let pool = CmdPool::new(50, &queue);
    assert!(pool.capacity >= 1);
    assert_eq!(pool.queue_family_index, 0);
}

#[test]
fn pool_reset_bumps_generation() {
    let queue = graphics_queue();
    let mut pool = CmdPool::new(50, &queue);
    assert_eq!(pool.generation, 0);
    pool.reset();
    assert_eq!(pool.generation, 1);
}

#[test]
fn fresh_buffer_is_initial_with_signaled_fence() {
    let (_pool, buffer, _rp, _fb, _state) = recording_setup();
    assert_eq!(buffer.state, CmdBufferState::Initial);
    assert!(buffer.fence_signaled);
    assert!(buffer.pass.is_none());
}

#[test]
fn recording_writes_clear_only_pass() {
    let (_pool, mut buffer, render_pass, framebuffer, state) = recording_setup();
    assert_eq!(buffer.record_graphics(state, &render_pass, &framebuffer), Ok(()));
    assert_eq!(buffer.state, CmdBufferState::Executable);
    assert!(!buffer.fence_signaled);
    let pass = buffer.pass.unwrap();
    assert_eq!(pass.render_pass, 53);
    assert_eq!(pass.framebuffer, 54);
    assert_eq!(pass.draw_count, 0);
    assert_eq!(pass.clear.red_milli, 390);
    assert_eq!(pass.clear.green_milli, 580);
    assert_eq!(pass.clear.blue_milli, 930);
    assert_eq!(pass.clear.alpha_milli, 1000);
}

#[test]
fn render_pass_clears_then_stores() {
    let render_pass = RenderPass::new(53, Format::Bgra8Srgb);
    assert_eq!(render_pass.color_attachment.format, Format::Bgra8Srgb);
    assert_eq!(render_pass.color_attachment.load_op, LoadOp::Clear);
    assert_eq!(render_pass.color_attachment.store_op, StoreOp::Store);
}

#[test]
fn submit_arms_fence_and_marks_pending() {
    let (_pool, mut buffer, render_pass, framebuffer, state) = recording_setup();
    let queue = graphics_queue();
    buffer.record_graphics(state, &render_pass, &framebuffer).unwrap();
    let req = queue.submit(&mut buffer).ok().unwrap();
    assert_eq!(req.queue, 40);
    assert_eq!(req.cmd_buffer, 51);
    assert_eq!(req.fence, 52);
    assert_eq!(buffer.state, CmdBufferState::Pending);
    assert!(!buffer.fence_signaled);
}

#[test]
fn submit_without_recording_is_refused() {
    let (_pool, mut buffer, _rp, _fb, _state) = recording_setup();
    let queue = graphics_queue();
    assert_eq!(queue.submit(&mut buffer), Err(SubmitError::NothingRecorded));
    assert_eq!(buffer.state, CmdBufferState::Initial);
}

#[test]
fn rerecording_before_fence_signals_is_refused() {
    let (_pool, mut buffer, render_pass, framebuffer, state) = recording_setup();
    let queue = graphics_queue();
    buffer.record_graphics(state, &render_pass, &framebuffer).unwrap();
    queue.submit(&mut buffer).ok().unwrap();
    assert_eq!(
        buffer.record_graphics(state, &render_pass, &framebuffer),
        Err(RecordError::PriorSubmissionPending)
    );
    assert_eq!(buffer.state, CmdBufferState::Pending);
}

#[test]
fn fence_signal_recycles_buffer_for_reuse() {
    let (_pool, mut buffer, render_pass, framebuffer, state) = recording_setup();
    let queue = graphics_queue();
    buffer.record_graphics(state, &render_pass, &framebuffer).unwrap();
    queue.submit(&mut buffer).ok().unwrap();
    buffer.mark_fence_signaled();
    assert_eq!(buffer.state, CmdBufferState::Initial);
    assert!(buffer.fence_signaled);
    assert_eq!(buffer.record_graphics(state, &render_pass, &framebuffer), Ok(()));
}

#[test]
fn buffer_release_hands_back_fence_then_buffer() {
    let (_pool, mut buffer, _rp, _fb, _state) = recording_setup();
    let (fence, cmd_buffer) = buffer.release();
    assert_eq!(fence, 52);
    assert_eq!(cmd_buffer, 51);
    assert_eq!(buffer.fence.handle, None);
    assert_eq!(buffer.cmd_buffer.handle, None);
}

#[test]
fn plan_clamps_image_count_to_bounds() {
    let formats = vec![Format::Bgra8Unorm];
    let modes = vec![PresentMode::Fifo];
    let window = Extent2d { width: 800, height: 600 };
    let c = plan_swapchain(&caps(3, 8, 800), &formats, None, &modes, None, 2, window);
    assert_eq!(c.image_count, 3);
    let c = plan_swapchain(&caps(1, 2, 800), &formats, None, &modes, None, 5, window);
    assert_eq!(c.image_count, 2);
    let c = plan_swapchain(&caps(1, 0, 800), &formats, None, &modes, None, 5, window);
    assert_eq!(c.image_count, 5);
}

#[test]
fn plan_uses_mandated_extent_or_clamps_window() {
    let formats = vec![Format::Bgra8Unorm];
    let modes = vec![PresentMode::Fifo];
    let window = Extent2d { width: 5000, height: 50 };
    let c = plan_swapchain(&caps(1, 0, 800), &formats, None, &modes, None, 2, window);
    assert_eq!(c.extent, Extent2d { width: 800, height: 600 });
    let c = plan_swapchain(&caps(1, 0, EXTENT_UNDEFINED), &formats, None, &modes, None, 2, window);
    assert_eq!(c.extent, Extent2d { width: 2000, height: 100 });
}

#[test]
fn swapchain_wraps_images_and_chosen_format() {
    let formats = vec![Format::Bgra8Unorm, Format::Rgba8Srgb];
    let modes = vec![PresentMode::Fifo, PresentMode::Mailbox];
    let window = Extent2d { width: 800, height: 600 };
    let sc = Swapchain::new(caps(2, 4, 800), &formats, None, &modes, None, window, 70, vec![
        80, 81, 82,
    ])
    .ok()
    .unwrap();
    assert_eq!(sc.format, Format::Rgba8Srgb);
    assert_eq!(sc.image_count, 3);
    assert_eq!(sc.get_images(), &vec![80, 81, 82]);
    assert_eq!(sc.get_extent(), Extent2d { width: 800, height: 600 });
}

#[test]
fn swapchain_refuses_empty_image_set() {
    let formats = vec![Format::Bgra8Unorm];
    let modes = vec![PresentMode::Fifo];
    let window = Extent2d { width: 800, height: 600 };
    let r = Swapchain::new(caps(2, 4, 800), &formats, None, &modes, None, window, 70, vec![]);
    assert!(matches!(r, Err(SwapchainCreationError::NoPresentableImages)));
}

#[test]
fn swapchain_refuses_contradictory_capabilities() {
    let formats = vec![Format::Bgra8Unorm];
    let modes = vec![PresentMode::Fifo];
    let window = Extent2d { width: 800, height: 600 };
    let bad = SurfaceCaps { min_image_count: 0, ..caps(2, 4, 800) };
    let r = Swapchain::new(bad, &formats, None, &modes, None, window, 70, vec![80]);
    assert!(matches!(r, Err(SwapchainCreationError::InvalidCapabilities)));
}

#[test]
fn swapchain_recreate_swaps_before_surrendering_old_handle() {
    let formats = vec![Format::Bgra8Unorm, Format::Rgba8Srgb];
    let modes = vec![PresentMode::Fifo];
    let window = Extent2d { width: 800, height: 600 };
    let mut sc = Swapchain::new(caps(2, 4, 800), &formats, None, &modes, None, window, 70, vec![
        80, 81,
    ])
    .ok()
    .unwrap();
    let new_window = Extent2d { width: 1024, height: 768 };
    let old = sc.recreate(caps(2, 4, 1024), new_window, 71, vec![90, 91, 92]).ok().unwrap();
    assert_eq!(old, 70);
    assert_eq!(sc.get_swapchain_raw(), 71);
    assert_eq!(sc.image_count, 3);
    assert_eq!(sc.format, Format::Rgba8Srgb);
    assert_eq!(sc.get_extent(), Extent2d { width: 1024, height: 600 });
}
