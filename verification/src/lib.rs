//! Verified core of a small presentation engine.
//!
//! The library owns the resource-ownership graph and the frame
//! synchronization protocol of a GPU renderer: which adapter, queue
//! family, color format and present mode get picked, how a swapchain is
//! sized, how a command buffer cycles through its recording states behind
//! a fence, and in which order every native handle is created and
//! released. Native driver objects are opaque `u64` handles supplied by
//! the (unverified) platform layer, which performs the actual driver
//! calls; every decision about those handles is made and proved here.

use vstd::prelude::*;

pub mod cmd;
pub mod device;
pub mod handle;
pub mod instance;
pub mod pass;
pub mod queue;
pub mod renderer;
pub mod search;
pub mod swapchain;
pub mod types;

use crate::search::first_where;
use crate::search::lemma_first_where_none;
use crate::search::lemma_first_where_some;
use crate::types::Adapter;
use crate::types::DeviceType;
use crate::types::Feature;
use crate::types::Format;
use crate::types::PresentMode;
use crate::types::adapter_outranks;
use crate::types::is_depth_stencil;
use crate::types::is_srgb;

verus! {

/// Hooks a concrete rendering example implements; the engine drives them
/// while it owns the frame loop.
pub trait Example {
    fn render(self);

    fn build_command_buffers(self);

    fn setup_depth_stencil(self);

    fn setup_framebuffer(self);

    fn setup_render_pass(self);

    fn get_enabled_features(self);
}

/// Predicate form of [`is_srgb`], shared by the spec and the proof of
/// [`select_color_format`].
pub open spec fn srgb_pred() -> spec_fn(Format) -> bool {
    |f: Format| is_srgb(f)
}

/// Predicate form of [`is_depth_stencil`].
pub open spec fn depth_stencil_pred() -> spec_fn(Format) -> bool {
    |f: Format| is_depth_stencil(f)
}

/// Color format chosen when the surface expresses no preference at all.
pub open spec fn default_color_format() -> Format {
    Format::Rgba8Srgb
}

/// The color format selection policy: the first sRGB-encoded entry if one
/// exists, else the first entry, else a default for an empty list.
pub open spec fn spec_fallback_color_format(s: Seq<Format>) -> Format {
    match first_where(s, srgb_pred()) {
        Some(i) => s[i],
        None => if s.len() > 0 {
            s[0]
        } else {
            default_color_format()
        },
    }
}

/// Full color format selection: a favored format that the surface offers
/// wins outright, otherwise the sRGB-first policy applies.
pub open spec fn spec_select_color_format(s: Seq<Format>, favored: Option<Format>) -> Format {
    match favored {
        Some(f) => if s.contains(f) {
            f
        } else {
            spec_fallback_color_format(s)
        },
        None => spec_fallback_color_format(s),
    }
}

/// Selects the color format a swapchain will be created with. If the
/// favored format is available it is returned; otherwise the first
/// sRGB-encoded format wins, then the list's first entry, then a default.
#[verifier::loop_isolation(false)]
pub fn select_color_format(formats: &Vec<Format>, favored: Option<Format>) -> (r: Format)
    ensures
        r == spec_select_color_format(formats@, favored),
{
    if let Some(f) = favored {
        let mut i: usize = 0;
        while i < formats.len()
            invariant
                i <= formats@.len(),
                forall|j: int| 0 <= j < i ==> formats@[j] != f,
            decreases formats@.len() - i,
        {
            if formats[i] == f {
                assert(formats@[i as int] == f);
                assert(formats@.contains(f));
                return f;
            }
            i += 1;
        }
        assert(!formats@.contains(f));
    }
    let mut i: usize = 0;
    while i < formats.len()
        invariant
            i <= formats@.len(),
            forall|j: int| 0 <= j < i ==> !srgb_pred()(formats@[j]),
        decreases formats@.len() - i,
    {
        if formats[i].has_srgb_encoding() {
            proof {
                assert(srgb_pred()(formats@[i as int]));
                lemma_first_where_some(formats@, srgb_pred(), i as int);
            }
            return formats[i];
        }
        i += 1;
    }
    proof {
        lemma_first_where_none(formats@, srgb_pred());
    }
    if formats.len() > 0 {
        formats[0]
    } else {
        Format::Rgba8Srgb
    }
}

/// The depth-stencil selection policy: a favored format wins if the
/// surface offers it and it really carries depth and stencil aspects;
/// otherwise the first depth-stencil entry; otherwise nothing.
pub open spec fn spec_select_depth_stencil_format(s: Seq<Format>, favored: Option<Format>) -> Option<
    Format,
> {
    match favored {
        Some(f) => if s.contains(f) && is_depth_stencil(f) {
            Some(f)
        } else {
            spec_fallback_depth_stencil(s)
        },
        None => spec_fallback_depth_stencil(s),
    }
}

/// First depth-stencil entry of the list, if any.
pub open spec fn spec_fallback_depth_stencil(s: Seq<Format>) -> Option<Format> {
    match first_where(s, depth_stencil_pred()) {
        Some(i) => Some(s[i]),
        None => None,
    }
}

/// Selects the depth-stencil format. A favored, offered depth-stencil
/// format wins; else the first offered depth-stencil format; else `None`.
#[verifier::loop_isolation(false)]
pub fn select_depth_stecil_format(formats: &Vec<Format>, favored: Option<Format>) -> (r: Option<
    Format,
>)
    ensures
        r == spec_select_depth_stencil_format(formats@, favored),
{
    if let Some(f) = favored {
        if f.has_depth_stencil_aspects() {
            let mut i: usize = 0;
            while i < formats.len()
                invariant
                    i <= formats@.len(),
                    forall|j: int| 0 <= j < i ==> formats@[j] != f,
                decreases formats@.len() - i,
            {
                if formats[i] == f {
                    assert(formats@[i as int] == f);
                    assert(formats@.contains(f));
                    return Some(f);
                }
                i += 1;
            }
            assert(!formats@.contains(f));
        }
    }
    let mut i: usize = 0;
    while i < formats.len()
        invariant
            i <= formats@.len(),
            forall|j: int| 0 <= j < i ==> !depth_stencil_pred()(formats@[j]),
        decreases formats@.len() - i,
    {
        if formats[i].has_depth_stencil_aspects() {
            proof {
                assert(depth_stencil_pred()(formats@[i as int]));
                lemma_first_where_some(formats@, depth_stencil_pred(), i as int);
            }
            return Some(formats[i]);
        }
        i += 1;
    }
    proof {
        lemma_first_where_none(formats@, depth_stencil_pred());
    }
    None
}

/// The present mode selection policy: a favored, offered mode wins; else
/// first-in-first-out pacing if offered; else the first offered mode; a
/// surface offering nothing falls back to first-in-first-out pacing.
pub open spec fn spec_select_present_mode(
    s: Seq<PresentMode>,
    favored: Option<PresentMode>,
) -> PresentMode {
    match favored {
        Some(m) => if s.contains(m) {
            m
        } else {
            spec_fallback_present_mode(s)
        },
        None => spec_fallback_present_mode(s),
    }
}

/// Fallback present mode: Fifo when offered, else the first entry, else
/// Fifo outright.
pub open spec fn spec_fallback_present_mode(s: Seq<PresentMode>) -> PresentMode {
    if s.contains(PresentMode::Fifo) {
        PresentMode::Fifo
    } else if s.len() > 0 {
        s[0]
    } else {
        PresentMode::Fifo
    }
}

/// Selects the present mode the swapchain will be created with.
#[verifier::loop_isolation(false)]
pub fn select_present_mode(present_modes: &Vec<PresentMode>, favored: Option<PresentMode>) -> (r:
    PresentMode)
    ensures
        r == spec_select_present_mode(present_modes@, favored),
{
    if let Some(m) = favored {
        if contains_present_mode(present_modes, m) {
            return m;
        }
    }
    if contains_present_mode(present_modes, PresentMode::Fifo) {
        PresentMode::Fifo
    } else if present_modes.len() > 0 {
        present_modes[0]
    } else {
        PresentMode::Fifo
    }
}

/// Membership scan for present modes.
#[verifier::loop_isolation(false)]
fn contains_present_mode(modes: &Vec<PresentMode>, m: PresentMode) -> (r: bool)
    ensures
        r == modes@.contains(m),
{
    let mut i: usize = 0;
    while i < modes.len()
        invariant
            i <= modes@.len(),
            forall|j: int| 0 <= j < i ==> modes@[j] != m,
        decreases modes@.len() - i,
    {
        if modes[i] == m {
            assert(modes@[i as int] == m);
            assert(modes@.contains(m));
            return true;
        }
        i += 1;
    }
    assert(!modes@.contains(m));
    false
}

/// `i` is the index adapter selection must return for the list `s`: no
/// adapter outranks it, and it strictly outranks everything before it
/// (so the first of several equally good adapters wins).
pub open spec fn is_selected_adapter(s: Seq<Adapter>, i: int) -> bool {
    &&& 0 <= i < s.len()
    &&& forall|j: int| 0 <= j < s.len() ==> !adapter_outranks(#[trigger] s[j], s[i])
    &&& forall|j: int| 0 <= j < i ==> adapter_outranks(s[i], #[trigger] s[j])
}

/// Selects the best physical adapter: a discrete GPU over an integrated
/// one, then by how many requested features the adapter supports; the
/// first of equally ranked candidates wins. Returns `None` only when no
/// adapter was enumerated at all.
#[verifier::loop_isolation(false)]
pub fn select_physical_device(adapters: &Vec<Adapter>) -> (r: Option<usize>)
    ensures
        match r {
            Some(i) => is_selected_adapter(adapters@, i as int),
            None => adapters@.len() == 0,
        },
{
    if adapters.len() == 0 {
        return None;
    }
    let mut best: usize = 0;
    let mut i: usize = 1;
    while i < adapters.len()
        invariant
            1 <= i <= adapters@.len(),
            best < i,
            forall|j: int| 0 <= j < i ==> !adapter_outranks(#[trigger] adapters@[j], adapters@[best as int]),
            forall|j: int| 0 <= j < best ==> adapter_outranks(adapters@[best as int], #[trigger] adapters@[j]),
        decreases adapters@.len() - i,
    {
        if outranks(&adapters[i], &adapters[best]) {
            assert forall|j: int| 0 <= j < i implies adapter_outranks(
                adapters@[i as int],
                #[trigger] adapters@[j],
            ) by {
                assert(!adapter_outranks(adapters@[j], adapters@[best as int]));
            }
            best = i;
        }
        i += 1;
    }
    Some(best)
}

/// Executable counterpart of [`adapter_outranks`].
fn outranks(a: &Adapter, b: &Adapter) -> (r: bool)
    ensures
        r == adapter_outranks(*a, *b),
{
    let ra = device_type_rank_exec(a.device_type);
    let rb = device_type_rank_exec(b.device_type);
    ra > rb || (ra == rb && a.supported_feature_count > b.supported_feature_count)
}

/// Executable counterpart of [`crate::types::device_type_rank`].
fn device_type_rank_exec(t: DeviceType) -> (r: u32)
    ensures
        r as int == crate::types::device_type_rank(t),
{
    match t {
        DeviceType::DiscreteGpu => 4,
        DeviceType::IntegratedGpu => 3,
        DeviceType::VirtualGpu => 2,
        DeviceType::Cpu => 1,
        DeviceType::Other => 0,
    }
}

/// With no discrete adapter enumerated and at least one integrated
/// adapter present, adapter selection still succeeds and settles on an
/// integrated adapter rather than giving up.
pub proof fn lemma_integrated_adapter_fallback(s: Seq<Adapter>, i: int)
    requires
        is_selected_adapter(s, i),
        forall|j: int| 0 <= j < s.len() ==> (#[trigger] s[j]).device_type
            != DeviceType::DiscreteGpu,
        exists|j: int| 0 <= j < s.len() && (#[trigger] s[j]).device_type
            == DeviceType::IntegratedGpu,
    ensures
        s[i].device_type == DeviceType::IntegratedGpu,
{
    let k = choose|j: int| 0 <= j < s.len() && (#[trigger] s[j]).device_type
        == DeviceType::IntegratedGpu;
    if s[i].device_type != DeviceType::IntegratedGpu {
        assert(adapter_outranks(s[k], s[i]));
        assert(false);
    }
}

/// Whether a given device feature is present in the enabled feature set of
/// an opened logical device.
#[verifier::loop_isolation(false)]
pub fn is_device_feature_present(enabled: &Vec<Feature>, feature: Feature) -> (r: bool)
    ensures
        r == enabled@.contains(feature),
{
    let mut i: usize = 0;
    while i < enabled.len()
        invariant
            i <= enabled@.len(),
            forall|j: int| 0 <= j < i ==> enabled@[j] != feature,
        decreases enabled@.len() - i,
    {
        if enabled[i] == feature {
            assert(enabled@[i as int] == feature);
            assert(enabled@.contains(feature));
            return true;
        }
        i += 1;
    }
    assert(!enabled@.contains(feature));
    false
}

} // verus!

