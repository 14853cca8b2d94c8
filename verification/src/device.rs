//! The logical device: opened against one adapter, it fixes the queue
//! families used for graphics, presentation, compute and transfer work
//! and captures the feature, memory and limit descriptors later
//! allocation decisions read.

use vstd::prelude::*;

use crate::handle::HandleSlot;
use crate::search::first_where;
use crate::search::lemma_first_where_none;
use crate::search::lemma_first_where_props;
use crate::search::lemma_first_where_some;
use crate::types::Adapter;
use crate::types::Feature;
use crate::types::QueueFamilyInfo;

verus! {

/// Why a logical device failed to be opened.
#[derive(Clone, Copy, Debug, PartialEq, Eq, Structural)]
pub enum DeviceCreationError {
    /// No queue family offers graphics work.
    MissingGraphicsQueueFamily,
    /// No queue family can present to the target surface.
    MissingSurfaceSupport,
    /// No queue family offers compute work.
    MissingComputeQueueFamily,
    /// No queue family offers transfer work.
    MissingTransferQueueFamily,
}

/// The capabilities a queue family is searched for.
#[derive(Clone, Copy, Debug, PartialEq, Eq, Structural)]
pub struct QueueCaps {
    pub graphics: bool,
    pub compute: bool,
    pub transfer: bool,
    pub present: bool,
}

/// A usable family offers at least one queue and every requested
/// capability.
pub open spec fn family_matches(f: QueueFamilyInfo, need: QueueCaps) -> bool {
    &&& f.queue_count >= 1
    &&& (need.graphics ==> f.supports_graphics)
    &&& (need.compute ==> f.supports_compute)
    &&& (need.transfer ==> f.supports_transfer)
    &&& (need.present ==> f.supports_present)
}

/// Predicate form of [`family_matches`], shared by contracts and proofs.
pub open spec fn family_pred(need: QueueCaps) -> spec_fn(QueueFamilyInfo) -> bool {
    |f: QueueFamilyInfo| family_matches(f, need)
}

/// Graphics work that can also present to the surface.
pub open spec fn need_graphics_present() -> QueueCaps {
    QueueCaps { graphics: true, compute: false, transfer: false, present: true }
}

/// Graphics work alone.
pub open spec fn need_graphics() -> QueueCaps {
    QueueCaps { graphics: true, compute: false, transfer: false, present: false }
}

/// Presentation alone.
pub open spec fn need_present() -> QueueCaps {
    QueueCaps { graphics: false, compute: false, transfer: false, present: true }
}

/// Compute work alone.
pub open spec fn need_compute() -> QueueCaps {
    QueueCaps { graphics: false, compute: true, transfer: false, present: false }
}

/// Transfer work alone.
pub open spec fn need_transfer() -> QueueCaps {
    QueueCaps { graphics: false, compute: false, transfer: true, present: false }
}

/// Executable counterpart of [`family_matches`].
fn family_supports(f: &QueueFamilyInfo, need: QueueCaps) -> (r: bool)
    ensures
        r == family_matches(*f, need),
{
    f.queue_count >= 1 && (!need.graphics || f.supports_graphics) && (!need.compute
        || f.supports_compute) && (!need.transfer || f.supports_transfer) && (!need.present
        || f.supports_present)
}

/// Index of the first family offering the requested capabilities.
#[verifier::loop_isolation(false)]
pub fn find_queue_family(families: &Vec<QueueFamilyInfo>, need: QueueCaps) -> (r: Option<usize>)
    ensures
        match r {
            Some(u) => first_where(families@, family_pred(need)) == Some(u as int),
            None => first_where(families@, family_pred(need)) is None,
        },
{
    let mut i: usize = 0;
    while i < families.len()
        invariant
            i <= families@.len(),
            forall|j: int| 0 <= j < i ==> !family_pred(need)(families@[j]),
        decreases families@.len() - i,
    {
        if family_supports(&families[i], need) {
            proof {
                assert(family_pred(need)(families@[i as int]));
                lemma_first_where_some(families@, family_pred(need), i as int);
            }
            return Some(i);
        }
        i += 1;
    }
    proof {
        lemma_first_where_none(families@, family_pred(need));
    }
    None
}

/// The queue family indices a device is opened with.
#[derive(Clone, Copy, Debug, PartialEq, Eq, Structural)]
pub struct QueueSelection {
    pub graphics_family: u32,
    pub present_family: u32,
    pub compute_family: u32,
    pub transfer_family: u32,
}

/// The queue-family selection policy. The first family that offers both
/// graphics and presentation is preferred; failing that, graphics and
/// presentation fall back to separate families (the first of each).
/// Compute and transfer each take the first family offering them. Errors
/// are ranked: graphics first, then surface support, compute, transfer.
pub open spec fn spec_select_queue_families(s: Seq<QueueFamilyInfo>) -> Result<
    QueueSelection,
    DeviceCreationError,
> {
    let combined = first_where(s, family_pred(need_graphics_present()));
    let graphics = first_where(s, family_pred(need_graphics()));
    let present = first_where(s, family_pred(need_present()));
    let compute = first_where(s, family_pred(need_compute()));
    let transfer = first_where(s, family_pred(need_transfer()));
    if graphics is None {
        Err(DeviceCreationError::MissingGraphicsQueueFamily)
    } else if present is None {
        Err(DeviceCreationError::MissingSurfaceSupport)
    } else if compute is None {
        Err(DeviceCreationError::MissingComputeQueueFamily)
    } else if transfer is None {
        Err(DeviceCreationError::MissingTransferQueueFamily)
    } else {
        let (g, p) = match combined {
            Some(i) => (i, i),
            None => (graphics->0, present->0),
        };
        Ok(
            QueueSelection {
                graphics_family: g as u32,
                present_family: p as u32,
                compute_family: compute->0 as u32,
                transfer_family: transfer->0 as u32,
            },
        )
    }
}

/// Selects the queue families for one adapter/surface pair.
pub fn select_queue_families(families: &Vec<QueueFamilyInfo>) -> (r: Result<
    QueueSelection,
    DeviceCreationError,
>)
    requires
        families@.len() <= u32::MAX,
    ensures
        r == spec_select_queue_families(families@),
{
    let graphics = find_queue_family(families, QueueCaps {
        graphics: true,
        compute: false,
        transfer: false,
        present: false,
    });
    let present = find_queue_family(families, QueueCaps {
        graphics: false,
        compute: false,
        transfer: false,
        present: true,
    });
    let compute = find_queue_family(families, QueueCaps {
        graphics: false,
        compute: true,
        transfer: false,
        present: false,
    });
    let transfer = find_queue_family(families, QueueCaps {
        graphics: false,
        compute: false,
        transfer: true,
        present: false,
    });
    let g = match graphics {
        Some(g) => g,
        None => {
            return Err(DeviceCreationError::MissingGraphicsQueueFamily);
        },
    };
    let p = match present {
        Some(p) => p,
        None => {
            return Err(DeviceCreationError::MissingSurfaceSupport);
        },
    };
    let c = match compute {
        Some(c) => c,
        None => {
            return Err(DeviceCreationError::MissingComputeQueueFamily);
        },
    };
    let t = match transfer {
        Some(t) => t,
        None => {
            return Err(DeviceCreationError::MissingTransferQueueFamily);
        },
    };
    let combined = find_queue_family(families, QueueCaps {
        graphics: true,
        compute: false,
        transfer: false,
        present: true,
    });
    proof {
        lemma_first_where_props(families@, family_pred(need_graphics()));
        lemma_first_where_props(families@, family_pred(need_present()));
        lemma_first_where_props(families@, family_pred(need_compute()));
        lemma_first_where_props(families@, family_pred(need_transfer()));
        lemma_first_where_props(families@, family_pred(need_graphics_present()));
    }
    match combined {
        Some(i) => Ok(
            QueueSelection {
                graphics_family: i as u32,
                present_family: i as u32,
                compute_family: c as u32,
                transfer_family: t as u32,
            },
        ),
        None => Ok(
            QueueSelection {
                graphics_family: g as u32,
                present_family: p as u32,
                compute_family: c as u32,
                transfer_family: t as u32,
            },
        ),
    }
}

/// What a successful selection guarantees about its indices: each is in
/// bounds and its family offers the capability it was chosen for, and
/// the presentation family really reaches the surface.
pub proof fn lemma_selected_families_support(s: Seq<QueueFamilyInfo>)
    requires
        spec_select_queue_families(s) is Ok,
        s.len() <= u32::MAX,
    ensures
        ({
            let sel = spec_select_queue_families(s)->Ok_0;
            &&& sel.graphics_family < s.len()
            &&& family_matches(s[sel.graphics_family as int], need_graphics())
            &&& sel.present_family < s.len()
            &&& family_matches(s[sel.present_family as int], need_present())
            &&& sel.compute_family < s.len()
            &&& family_matches(s[sel.compute_family as int], need_compute())
            &&& sel.transfer_family < s.len()
            &&& family_matches(s[sel.transfer_family as int], need_transfer())
        }),
{
    lemma_first_where_props(s, family_pred(need_graphics()));
    lemma_first_where_props(s, family_pred(need_present()));
    lemma_first_where_props(s, family_pred(need_compute()));
    lemma_first_where_props(s, family_pred(need_transfer()));
    lemma_first_where_props(s, family_pred(need_graphics_present()));
}

/// Memory descriptors captured from the adapter for later allocation
/// decisions.
#[derive(Clone, Copy, Debug, PartialEq, Eq, Structural)]
pub struct MemoryProperties {
    pub memory_type_count: u32,
    pub memory_heap_count: u32,
}

/// Device limits captured from the adapter.
#[derive(Clone, Copy, Debug, PartialEq, Eq, Structural)]
pub struct Limits {
    pub max_image_dimension_2d: u32,
    pub max_framebuffer_width: u32,
    pub max_framebuffer_height: u32,
}

/// An opened logical device.
#[derive(Debug)]
pub struct Device {
    /// Native handle of the adapter the device was opened on.
    pub physical_device: u64,
    /// Native handle of the logical device.
    pub device: HandleSlot,
    /// Features the device was opened with.
    pub enabled_features: Vec<Feature>,
    pub memory_properties: MemoryProperties,
    pub limits: Limits,
    /// Queue families of the adapter, as enumerated at open time.
    pub families: Vec<QueueFamilyInfo>,
    /// The families chosen for each capability.
    pub selection: QueueSelection,
}

impl Device {
    /// A live device owns its handle and its selection is the one the
    /// policy yields for its families.
    pub open spec fn wf(self) -> bool {
        &&& self.device.is_held()
        &&& spec_select_queue_families(self.families@) == Ok::<
            QueueSelection,
            DeviceCreationError,
        >(self.selection)
    }

    /// Opens a device on one adapter: runs queue-family selection and,
    /// on success, takes ownership of the native device handle together
    /// with the captured feature, memory and limit descriptors. Fails
    /// exactly when no family satisfies a required capability, the
    /// surface requirement included.
    pub fn new(
        adapter: &Adapter,
        families: Vec<QueueFamilyInfo>,
        device_handle: u64,
        enabled_features: Vec<Feature>,
        memory_properties: MemoryProperties,
        limits: Limits,
    ) -> (r: Result<Device, DeviceCreationError>)
        requires
            families@.len() <= u32::MAX,
        ensures
            match r {
                Ok(d) => {
                    &&& d.wf()
                    &&& spec_select_queue_families(families@) == Ok::<
                        QueueSelection,
                        DeviceCreationError,
                    >(d.selection)
                    &&& d.physical_device == adapter.handle
                    &&& d.device.raw() == device_handle
                    &&& d.enabled_features@ == enabled_features@
                    &&& d.memory_properties == memory_properties
                    &&& d.limits == limits
                    &&& d.families@ == families@
                },
                Err(e) => spec_select_queue_families(families@) == Err::<
                    QueueSelection,
                    DeviceCreationError,
                >(e),
            },
    {
        let selection = match select_queue_families(&families) {
            Ok(sel) => sel,
            Err(e) => {
                return Err(e);
            },
        };
        Ok(
            Device {
                physical_device: adapter.handle,
                device: HandleSlot::new(device_handle),
                enabled_features,
                memory_properties,
                limits,
                families,
                selection,
            },
        )
    }

    /// Family index the graphics queue is drawn from.
    pub fn get_graphics_queue_index(&self) -> (r: u32)
        ensures
            r == self.selection.graphics_family,
    {
        self.selection.graphics_family
    }

    /// Family index the presentation queue is drawn from.
    pub fn get_present_queue_index(&self) -> (r: u32)
        ensures
            r == self.selection.present_family,
    {
        self.selection.present_family
    }

    /// Family index the compute queue is drawn from.
    pub fn get_compute_queue_index(&self) -> (r: u32)
        ensures
            r == self.selection.compute_family,
    {
        self.selection.compute_family
    }

    /// Family index the transfer queue is drawn from.
    pub fn get_transfer_queue_index(&self) -> (r: u32)
        ensures
            r == self.selection.transfer_family,
    {
        self.selection.transfer_family
    }

    /// Surrenders the logical-device handle for destruction.
    pub fn release(&mut self) -> (h: u64)
        requires
            old(self).device.is_held(),
        ensures
            !final(self).device.is_held(),
            h == old(self).device.raw(),
            final(self).families@ == old(self).families@,
            final(self).selection == old(self).selection,
    {
        self.device.take()
    }
}

} // verus!
