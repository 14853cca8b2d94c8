//! Command recording: a pool sized to the host's core count and a
//! command buffer that cycles `Initial -> Recording -> Executable ->
//! Pending -> Initial`, gated by its own completion fence.

use vstd::prelude::*;

use crate::handle::HandleSlot;
use crate::pass::Framebuffer;
use crate::pass::RenderPass;
use crate::queue::Queue;
use crate::types::ClearColor;
use crate::types::Extent2d;
use crate::types::Format;
use crate::types::clear_color;
use crate::types::spec_clear_color;

verus! {

/// Render-target parameters a recording runs against.
#[derive(Clone, Copy, Debug, PartialEq, Eq, Structural)]
pub struct CmdState {
    pub format: Format,
    pub extent: Extent2d,
}

/// Lifecycle of a command buffer. `Recording` is only ever observed
/// while a recording call is in progress; at rest the buffer is in one
/// of the other three states.
#[derive(Clone, Copy, Debug, PartialEq, Eq, Structural)]
pub enum CmdBufferState {
    /// Fresh or recycled: ready to record, fence signaled.
    Initial,
    /// A recording call is rewriting the buffer.
    Recording,
    /// Recorded and ready to submit, fence reset.
    Executable,
    /// Submitted; the fence will signal when the device finishes.
    Pending,
}

/// What one recording wrote: a single render pass bound to a
/// framebuffer, cleared to the fixed color, with its draw commands
/// (none yet — a clear-only placeholder pass).
#[derive(Clone, Copy, Debug, PartialEq, Eq, Structural)]
pub struct RecordedPass {
    pub render_pass: u64,
    pub framebuffer: u64,
    pub extent: Extent2d,
    pub clear: ClearColor,
    pub draw_count: u32,
}

/// The pass every recording currently writes: clear to the fixed color,
/// no draws.
pub open spec fn spec_clear_pass(render_pass: u64, framebuffer: u64, extent: Extent2d) -> RecordedPass {
    RecordedPass {
        render_pass,
        framebuffer,
        extent,
        clear: spec_clear_color(),
        draw_count: 0,
    }
}

/// Why a recording attempt was refused.
#[derive(Clone, Copy, Debug, PartialEq, Eq, Structural)]
pub enum RecordError {
    /// The buffer's previous submission has not signaled its fence yet;
    /// re-recording now would corrupt in-flight work.
    PriorSubmissionPending,
}

/// Relies on num_cpus::get for the number of logical CPUs of the host,
/// which its documentation promises to be at least 1.
#[verifier::external_body]
fn host_core_count() -> (n: usize)
    ensures
        1 <= n,
{
    num_cpus::get()
}

/// Allocates command buffers for reuse. Buffers are handed out with an
/// individual-reset policy, so one buffer can be re-recorded while its
/// siblings stay intact; capacity anticipates one buffer per host core
/// for future parallel recording.
#[derive(Debug)]
pub struct CmdPool {
    pub pool: HandleSlot,
    /// Family index of the queue the pool records for.
    pub queue_family_index: u32,
    /// Number of buffers the pool is sized for: the host's core count.
    pub capacity: usize,
    /// Bumped by every whole-pool reset; buffers from an older
    /// generation must be re-recorded before reuse.
    pub generation: u64,
}

impl CmdPool {
    /// A live pool owns its handle and was sized to at least one buffer.
    pub open spec fn wf(self) -> bool {
        &&& self.pool.is_held()
        &&& self.capacity >= 1
    }

    /// Wraps a created pool bound to the queue's family, sized to the
    /// host's core count.
    pub fn new(pool_handle: u64, queue: &Queue) -> (p: CmdPool)
        ensures
            p.wf(),
            p.pool.raw() == pool_handle,
            p.queue_family_index == queue.family_index,
            p.generation == 0,
    {
        CmdPool {
            pool: HandleSlot::new(pool_handle),
            queue_family_index: queue.family_index,
            capacity: host_core_count(),
            generation: 0,
        }
    }

    /// Records a whole-pool reset: every buffer allocated from the pool
    /// is invalidated and must be re-recorded.
    pub fn reset(&mut self)
        requires
            old(self).wf(),
            old(self).generation < u64::MAX,
        ensures
            *final(self) == (CmdPool { generation: (old(self).generation + 1) as u64, ..*old(self) }),
            final(self).wf(),
    {
        self.generation = self.generation + 1;
    }

    /// Native handle of the pool.
    pub fn get_cmd_pool_raw(&self) -> (h: u64)
        requires
            self.wf(),
        ensures
            h == self.pool.raw(),
    {
        self.pool.peek()
    }

    /// Surrenders the handle for destruction. Buffers allocated from the
    /// pool must have been released first.
    pub fn release(&mut self) -> (h: u64)
        requires
            old(self).pool.is_held(),
        ensures
            !final(self).pool.is_held(),
            h == old(self).pool.raw(),
    {
        self.pool.take()
    }
}

/// A recorder for graphics work: one primary command buffer with its own
/// dedicated completion fence.
#[derive(Debug)]
pub struct CmdBuffer {
    pub cmd_buffer: HandleSlot,
    pub fence: HandleSlot,
    /// Whether the dedicated fence has been observed signaled. The fence
    /// is created signaled so the first recording may proceed.
    pub fence_signaled: bool,
    pub state: CmdBufferState,
    /// The contents of the last completed recording, if any.
    pub pass: Option<RecordedPass>,
    /// Handle of the pool the buffer was allocated from.
    pub pool: u64,
    /// Pool generation the buffer was last valid in.
    pub pool_generation: u64,
}

impl CmdBuffer {
    /// A live buffer owns its handles; its fence state and recorded
    /// contents agree with its lifecycle state, and recording is never
    /// observed at rest.
    pub open spec fn wf(self) -> bool {
        &&& self.cmd_buffer.is_held()
        &&& self.fence.is_held()
        &&& !(self.state is Recording)
        &&& (self.state is Initial ==> self.fence_signaled)
        &&& (self.state is Executable ==> !self.fence_signaled && self.pass is Some)
        &&& (self.state is Pending ==> !self.fence_signaled && self.pass is Some)
    }

    /// Wraps a buffer allocated from the pool, paired with a fence
    /// created in the signaled state so the first recording need not
    /// wait.
    pub fn new(cmd_buffer_handle: u64, fence_handle: u64, pool: &CmdPool) -> (b: CmdBuffer)
        requires
            pool.wf(),
        ensures
            b.wf(),
            b.cmd_buffer.raw() == cmd_buffer_handle,
            b.fence.raw() == fence_handle,
            b.fence_signaled,
            b.state is Initial,
            b.pass is None,
            b.pool == pool.pool.raw(),
            b.pool_generation == pool.generation,
    {
        CmdBuffer {
            cmd_buffer: HandleSlot::new(cmd_buffer_handle),
            fence: HandleSlot::new(fence_handle),
            fence_signaled: true,
            state: CmdBufferState::Initial,
            pass: None,
            pool: pool.get_cmd_pool_raw(),
            pool_generation: pool.generation,
        }
    }

    /// Records the clear-only graphics pass against the given render
    /// pass and framebuffer: resets the buffer and its fence, begins a
    /// one-time-submit recording, writes the pass, and leaves the buffer
    /// executable. Refused — never silently reordered — while the
    /// previous submission has not signaled the fence.
    pub fn record_graphics(
        &mut self,
        state: CmdState,
        render_pass: &RenderPass,
        framebuffer: &Framebuffer,
    ) -> (r: Result<(), RecordError>)
        requires
            old(self).wf(),
            render_pass.wf(),
            framebuffer.wf(),
            framebuffer.extent == state.extent,
        ensures
            final(self).wf(),
            match r {
                Ok(()) => old(self).fence_signaled && *final(self) == (CmdBuffer {
                    fence_signaled: false,
                    state: CmdBufferState::Executable,
                    pass: Some(
                        spec_clear_pass(
                            render_pass.render_pass.raw(),
                            framebuffer.framebuffer.raw(),
                            state.extent,
                        ),
                    ),
                    ..*old(self)
                }),
                Err(RecordError::PriorSubmissionPending) => !old(self).fence_signaled
                    && *final(self) == *old(self),
            },
    {
        if !self.fence_signaled {
            return Err(RecordError::PriorSubmissionPending);
        }
        // Previous use is complete: reset the buffer and its fence, then
        // record with a one-time-submit hint.
        self.fence_signaled = false;
        self.state = CmdBufferState::Recording;
        let pass = RecordedPass {
            render_pass: render_pass.get_render_pass_raw(),
            framebuffer: framebuffer.get_framebuffer_raw(),
            extent: state.extent,
            clear: clear_color(),
            draw_count: 0,
        };
        self.pass = Some(pass);
        self.state = CmdBufferState::Executable;
        Ok(())
    }

    /// Notes that a wait on the dedicated fence has returned: the
    /// submission completed, and the buffer cycles back to `Initial` for
    /// reuse.
    pub fn mark_fence_signaled(&mut self)
        requires
            old(self).wf(),
            old(self).state is Pending,
        ensures
            *final(self) == (CmdBuffer {
                fence_signaled: true,
                state: CmdBufferState::Initial,
                ..*old(self)
            }),
            final(self).wf(),
    {
        self.fence_signaled = true;
        self.state = CmdBufferState::Initial;
    }

    /// Native handle of the buffer.
    pub fn get_cmd_buffer_raw(&self) -> (h: u64)
        requires
            self.cmd_buffer.is_held(),
        ensures
            h == self.cmd_buffer.raw(),
    {
        self.cmd_buffer.peek()
    }

    /// Native handle of the dedicated fence.
    pub fn get_fence_raw(&self) -> (h: u64)
        requires
            self.fence.is_held(),
        ensures
            h == self.fence.raw(),
    {
        self.fence.peek()
    }

    /// Surrenders both handles for destruction: the fence first, then
    /// the buffer (freed back to its pool).
    pub fn release(&mut self) -> (r: (u64, u64))
        requires
            old(self).cmd_buffer.is_held(),
            old(self).fence.is_held(),
        ensures
            !final(self).cmd_buffer.is_held(),
            !final(self).fence.is_held(),
            r.0 == old(self).fence.raw(),
            r.1 == old(self).cmd_buffer.raw(),
    {
        let fence = self.fence.take();
        let buffer = self.cmd_buffer.take();
        (fence, buffer)
    }
}

} // verus!
