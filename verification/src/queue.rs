//! A device queue: one native queue handle tagged with its family index
//! and the capability it was drawn for. A queue only forwards ready
//! command buffers; it records nothing itself.

use vstd::prelude::*;

use crate::cmd::CmdBuffer;
use crate::cmd::CmdBufferState;
use crate::types::QueueFamilyInfo;

verus! {

/// The capability a queue was drawn from its family for.
#[derive(Clone, Copy, Debug, PartialEq, Eq, Structural)]
pub enum QueueCapability {
    Graphics,
    Compute,
    Transfer,
}

/// The family offers the given capability.
pub open spec fn family_offers(f: QueueFamilyInfo, c: QueueCapability) -> bool {
    match c {
        QueueCapability::Graphics => f.supports_graphics,
        QueueCapability::Compute => f.supports_compute,
        QueueCapability::Transfer => f.supports_transfer,
    }
}

/// Why a submission was refused.
#[derive(Clone, Copy, Debug, PartialEq, Eq, Structural)]
pub enum SubmitError {
    /// The buffer holds no executable recording to forward.
    NothingRecorded,
}

/// The handles the platform layer needs to perform one submission: the
/// queue, the recorded buffer, and the fence the device will signal on
/// completion.
#[derive(Clone, Copy, Debug, PartialEq, Eq, Structural)]
pub struct SubmitRequest {
    pub queue: u64,
    pub cmd_buffer: u64,
    pub fence: u64,
}

/// One device queue and its family index.
pub struct Queue {
    /// Native queue handle; owned by the device, so never destroyed
    /// separately.
    pub queue: u64,
    pub family_index: u32,
    pub capability: QueueCapability,
    /// The family the queue was drawn from, kept for the invariant that
    /// the family offers the queue's capability.
    pub family: Ghost<QueueFamilyInfo>,
}

impl Queue {
    /// The queue's family really offers the capability the queue is used
    /// for.
    pub open spec fn wf(self) -> bool {
        family_offers(self.family@, self.capability)
    }

    /// Wraps a queue handle fetched from the device for one family; the
    /// family must offer the capability the queue will serve.
    pub fn new(
        queue_handle: u64,
        family_index: u32,
        capability: QueueCapability,
        family: &QueueFamilyInfo,
    ) -> (q: Queue)
        requires
            family_offers(*family, capability),
        ensures
            q.wf(),
            q.queue == queue_handle,
            q.family_index == family_index,
            q.capability == capability,
            q.family@ == *family,
    {
        Queue { queue: queue_handle, family_index, capability, family: Ghost(*family) }
    }

    /// Forwards an executable buffer for asynchronous execution: the
    /// buffer becomes pending and its dedicated fence is armed to signal
    /// on completion. Does not block. The returned request carries the
    /// handles the platform layer submits with.
    pub fn submit(&self, buffer: &mut CmdBuffer) -> (r: Result<SubmitRequest, SubmitError>)
        requires
            old(buffer).wf(),
        ensures
            final(buffer).wf(),
            match r {
                Ok(req) => {
                    &&& old(buffer).state is Executable
                    &&& *final(buffer) == (CmdBuffer {
                        state: CmdBufferState::Pending,
                        ..*old(buffer)
                    })
                    &&& req == (SubmitRequest {
                        queue: self.queue,
                        cmd_buffer: old(buffer).cmd_buffer.raw(),
                        fence: old(buffer).fence.raw(),
                    })
                },
                Err(SubmitError::NothingRecorded) => {
                    &&& !(old(buffer).state is Executable)
                    &&& *final(buffer) == *old(buffer)
                },
            },
    {
        match buffer.state {
            CmdBufferState::Executable => {
                let req = SubmitRequest {
                    queue: self.queue,
                    cmd_buffer: buffer.get_cmd_buffer_raw(),
                    fence: buffer.get_fence_raw(),
                };
                buffer.state = CmdBufferState::Pending;
                Ok(req)
            },
            _ => Err(SubmitError::NothingRecorded),
        }
    }
}

} // verus!
