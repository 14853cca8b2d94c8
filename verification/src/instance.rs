//! The API instance: entry point of the driver, owner of the adapter
//! list and of the optional diagnostic-report hook.
//!
//! Creating the native instance is the platform layer's job; this module
//! decides whether creation may proceed (driver present, required
//! extensions offered, validation layer offered in debug builds) and owns
//! the resulting handles afterwards.

use vstd::prelude::*;

use crate::handle::HandleSlot;
use crate::is_selected_adapter;
use crate::select_physical_device;
use crate::types::Adapter;

verus! {

/// Why an instance failed to be created.
#[derive(Clone, Copy, Debug, PartialEq, Eq, Structural)]
pub enum InstanceCreationError {
    /// No compatible driver is installed on the host.
    MissingDriver,
    /// A required instance extension is not offered by the driver.
    MissingExtensions,
    /// A required validation layer is not offered; raised in debug
    /// configurations only, since only those request the layer.
    MissingLayers,
}

/// Instance-level extensions the engine may need to enable.
#[derive(Clone, Copy, Debug, PartialEq, Eq, Structural)]
pub enum InstanceExtension {
    /// Base surface support.
    Surface,
    /// X11 window surfaces.
    XlibSurface,
    /// Win32 window surfaces.
    Win32Surface,
    /// Diagnostic report callback.
    DebugReport,
}

/// The windowing platform the engine presents on.
#[derive(Clone, Copy, Debug, PartialEq, Eq, Structural)]
pub enum Platform {
    Xlib,
    Win32,
}

/// The surface extension a platform's windows require.
pub open spec fn platform_surface_extension(p: Platform) -> InstanceExtension {
    match p {
        Platform::Xlib => InstanceExtension::XlibSurface,
        Platform::Win32 => InstanceExtension::Win32Surface,
    }
}

/// Extensions an instance must enable: base surface support, the
/// platform's window surface extension, and the diagnostic-report
/// extension in debug configurations only.
pub open spec fn spec_required_instance_extensions(p: Platform, debug: bool) -> Seq<
    InstanceExtension,
> {
    let base = seq![InstanceExtension::Surface, platform_surface_extension(p)];
    if debug {
        base.push(InstanceExtension::DebugReport)
    } else {
        base
    }
}

/// Lists the instance extensions required for the given platform and
/// build configuration.
pub fn get_required_instance_extensions(platform: Platform, debug: bool) -> (r: Vec<
    InstanceExtension,
>)
    ensures
        r@ == spec_required_instance_extensions(platform, debug),
{
    let mut r: Vec<InstanceExtension> = Vec::new();
    r.push(InstanceExtension::Surface);
    match platform {
        Platform::Xlib => r.push(InstanceExtension::XlibSurface),
        Platform::Win32 => r.push(InstanceExtension::Win32Surface),
    }
    if debug {
        r.push(InstanceExtension::DebugReport);
    }
    proof {
        assert(r@ =~= spec_required_instance_extensions(platform, debug));
    }
    r
}

/// What the driver reports before any instance exists: whether a driver
/// is present at all, which instance extensions it offers, and whether
/// the standard validation layer is installed.
#[derive(Debug)]
pub struct InstanceSupport {
    pub driver_present: bool,
    pub available_extensions: Vec<InstanceExtension>,
    pub validation_layer_present: bool,
}

/// Every required extension is offered.
pub open spec fn all_extensions_available(
    required: Seq<InstanceExtension>,
    available: Seq<InstanceExtension>,
) -> bool {
    forall|i: int| 0 <= i < required.len() ==> available.contains(#[trigger] required[i])
}

/// The full admission rule for instance creation, with its error
/// taxonomy: a missing driver is reported first, then missing extensions,
/// then (in debug configurations) the missing validation layer.
pub open spec fn spec_check_instance_support(
    support: InstanceSupport,
    required: Seq<InstanceExtension>,
    debug: bool,
) -> Result<(), InstanceCreationError> {
    if !support.driver_present {
        Err(InstanceCreationError::MissingDriver)
    } else if !all_extensions_available(required, support.available_extensions@) {
        Err(InstanceCreationError::MissingExtensions)
    } else if debug && !support.validation_layer_present {
        Err(InstanceCreationError::MissingLayers)
    } else {
        Ok(())
    }
}

/// Membership scan for instance extensions.
#[verifier::loop_isolation(false)]
fn extension_available(available: &Vec<InstanceExtension>, e: InstanceExtension) -> (r: bool)
    ensures
        r == available@.contains(e),
{
    let mut i: usize = 0;
    while i < available.len()
        invariant
            i <= available@.len(),
            forall|j: int| 0 <= j < i ==> available@[j] != e,
        decreases available@.len() - i,
    {
        if available[i] == e {
            assert(available@[i as int] == e);
            assert(available@.contains(e));
            return true;
        }
        i += 1;
    }
    assert(!available@.contains(e));
    false
}

/// Decides whether instance creation may proceed, distinguishing a
/// missing driver, missing required extensions, and a missing validation
/// layer (the latter only in debug configurations).
#[verifier::loop_isolation(false)]
pub fn check_instance_support(
    support: &InstanceSupport,
    required: &Vec<InstanceExtension>,
    debug: bool,
) -> (r: Result<(), InstanceCreationError>)
    ensures
        r == spec_check_instance_support(*support, required@, debug),
{
    if !support.driver_present {
        return Err(InstanceCreationError::MissingDriver);
    }
    let mut i: usize = 0;
    while i < required.len()
        invariant
            i <= required@.len(),
            forall|j: int| 0 <= j < i ==> support.available_extensions@.contains(
                #[trigger] required@[j],
            ),
        decreases required@.len() - i,
    {
        if !extension_available(&support.available_extensions, required[i]) {
            assert(!all_extensions_available(required@, support.available_extensions@));
            return Err(InstanceCreationError::MissingExtensions);
        }
        i += 1;
    }
    assert(all_extensions_available(required@, support.available_extensions@));
    if debug && !support.validation_layer_present {
        return Err(InstanceCreationError::MissingLayers);
    }
    Ok(())
}

/// The created API instance: its native handle, the optional
/// diagnostic-report hook, and the cached adapter list.
#[derive(Debug)]
pub struct Instance {
    pub instance: HandleSlot,
    /// Present exactly in debug configurations.
    pub debug_report: Option<HandleSlot>,
    /// All physical adapters the driver enumerated, cached at creation.
    pub adapters: Vec<Adapter>,
}

impl Instance {
    /// A live instance still owns its handles.
    pub open spec fn wf(self) -> bool {
        &&& self.instance.is_held()
        &&& match self.debug_report {
            Some(s) => s.is_held(),
            None => true,
        }
    }

    /// Admits or refuses instance creation per the support rule and, on
    /// success, takes ownership of the native handles the platform layer
    /// created, caching the enumerated adapters.
    pub fn new(
        support: &InstanceSupport,
        required: &Vec<InstanceExtension>,
        debug: bool,
        instance_handle: u64,
        debug_report_handle: Option<u64>,
        adapters: Vec<Adapter>,
    ) -> (r: Result<Instance, InstanceCreationError>)
        requires
            debug <==> debug_report_handle is Some,
        ensures
            match r {
                Ok(inst) => {
                    &&& spec_check_instance_support(*support, required@, debug) is Ok
                    &&& inst.wf()
                    &&& inst.instance.raw() == instance_handle
                    &&& match (debug_report_handle, inst.debug_report) {
                        (Some(h), Some(s)) => s.is_held() && s.raw() == h,
                        (None, None) => true,
                        _ => false,
                    }
                    &&& inst.adapters@ == adapters@
                },
                Err(e) => spec_check_instance_support(*support, required@, debug) == Err::<
                    (),
                    InstanceCreationError,
                >(e),
            },
    {
        match check_instance_support(support, required, debug) {
            Ok(()) => {},
            Err(e) => {
                return Err(e);
            },
        }
        let debug_report = match debug_report_handle {
            Some(h) => Some(HandleSlot::new(h)),
            None => None,
        };
        Ok(Instance { instance: HandleSlot::new(instance_handle), debug_report, adapters })
    }

    /// Returns the cached adapter list.
    pub fn get_physical_devices(&self) -> (r: Vec<Adapter>)
        ensures
            r@ == self.adapters@,
    {
        let mut r: Vec<Adapter> = Vec::new();
        let mut i: usize = 0;
        while i < self.adapters.len()
            invariant
                i <= self.adapters@.len(),
                r@ == self.adapters@.take(i as int),
            decreases self.adapters@.len() - i,
        {
            r.push(self.adapters[i]);
            proof {
                assert(r@ =~= self.adapters@.take(i + 1 as int));
            }
            i += 1;
        }
        proof {
            assert(self.adapters@.take(self.adapters@.len() as int) =~= self.adapters@);
        }
        r
    }

    /// Picks the primary adapter by rank: discrete over integrated, then
    /// feature support, first of equals. `None` only without adapters.
    pub fn select_primary_physical_device(&self) -> (r: Option<Adapter>)
        ensures
            match r {
                Some(a) => exists|i: int|
                    is_selected_adapter(self.adapters@, i) && a == self.adapters@[i],
                None => self.adapters@.len() == 0,
            },
    {
        match select_physical_device(&self.adapters) {
            Some(i) => Some(self.adapters[i]),
            None => None,
        }
    }

    /// Surrenders the handles for destruction: the diagnostic-report
    /// hook first (it was created last), then the instance itself.
    pub fn release(&mut self) -> (r: (Option<u64>, u64))
        requires
            old(self).wf(),
        ensures
            !final(self).instance.is_held(),
            final(self).debug_report is None,
            r.1 == old(self).instance.raw(),
            match (old(self).debug_report, r.0) {
                (Some(s), Some(h)) => h == s.raw(),
                (None, None) => true,
                _ => false,
            },
    {
        let debug_handle = match &mut self.debug_report {
            Some(s) => Some(s.take()),
            None => None,
        };
        self.debug_report = None;
        let instance_handle = self.instance.take();
        (debug_handle, instance_handle)
    }
}

} // verus!
