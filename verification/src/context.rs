//! Per-window graphics-context bring-up and teardown.
//!
//! A context is built in a fixed order — driver entry point, validation
//! layers, instance, optional debug messenger, physical-device selection,
//! logical device, graphics queue — and every step's failure aborts all
//! later steps while releasing every resource the earlier steps acquired.
//! The driver's side of each step is summed up by a [`DriverHost`] value:
//! what the application observed the driver report or decide.  Every
//! acquisition and release is recorded in a [`DriverLog`], over which the
//! contracts state leak freedom.

use vstd::prelude::*;

use crate::debug::{classify_severity, spec_log_level, DebugRelay, DO_NOT_ABORT};
use crate::device::{
    is_first_graphics_family, is_first_suitable_device, pick_physical_device,
    spec_any_device_suitable, spec_device_suitable, PhysicalDeviceInfo,
    QueueFamilyIndices,
};
use crate::ledger::{DriverEvent, DriverLog};

verus! {

/// Tag standing for the required validation layer's name.
pub const VALIDATION_LAYER: u64 = 0x11;

/// Tag standing for the debug-utils instance extension.
pub const EXT_DEBUG_UTILS_EXTENSION: u64 = 0x21;

/// Tag standing for the physical-device-properties2 instance extension.
pub const KHR_GET_PHYSICAL_DEVICE_PROPERTIES2_EXTENSION: u64 = 0x22;

/// Tag standing for the portability-enumeration instance extension.
pub const KHR_PORTABILITY_ENUMERATION_EXTENSION: u64 = 0x23;

/// Tag standing for the portability-subset device extension.
pub const KHR_PORTABILITY_SUBSET_EXTENSION: u64 = 0x24;

/// Packed driver version from which the compatibility-shim platform needs
/// the portability extensions.
pub const PORTABILITY_MACOS_VERSION: u32 = (1u32 << 22) | (3u32 << 12) | 216u32;

/// A construction step that failed, aborting the context being built.
#[derive(Clone, Copy, Debug, PartialEq, Eq, Structural)]
pub enum InitError {
    /// The driver's shared library could not be located.
    DriverLoad,
    /// Diagnostics were requested but the validation layer is absent.
    MissingLayer,
    /// The driver rejected the instance configuration.
    InstanceCreation,
    /// No enumerated physical device passed the suitability check.
    NoSuitableDevice,
    /// The driver rejected the logical-device configuration.
    DeviceCreation,
}

/// Why one candidate device failed the suitability check.
#[derive(Clone, Copy, Debug)]
pub struct SuitabilityError(pub &'static str);

/// What the driver reported or decided at each bring-up step, as the
/// application observed it.
pub struct DriverHost {
    /// The driver's shared library could be located and loaded.
    pub entry_available: bool,
    /// Packed instance version the loaded entry point reports.
    pub driver_version: u32,
    /// Tags of the instance-level layers the driver enumerates.
    pub available_layers: Vec<u64>,
    /// The driver accepted the instance configuration.
    pub instance_accepted: bool,
    /// The driver accepted the debug-messenger configuration.
    pub messenger_accepted: bool,
    /// The physical devices the instance enumerates, in report order.
    pub devices: Vec<PhysicalDeviceInfo>,
    /// The driver accepted the logical-device configuration.
    pub device_accepted: bool,
}

/// Per-context configuration, passed in explicitly so that diagnostics can
/// be decided per context rather than process-wide.
pub struct CreateConfig {
    /// Whether validation layers and the debug messenger are enabled.
    pub diagnostics: bool,
    /// Whether the platform requires the portability compatibility shim.
    pub compat_platform: bool,
    /// Tags of the surface extensions the owning window requires.
    pub surface_extensions: Vec<u64>,
}

/// Handles gathered while building a context.
pub struct AppData {
    /// A debug messenger is installed on the instance.
    pub messenger: bool,
    /// Index of the selected physical device among the enumerated ones.
    pub physical_device: usize,
    /// Queue family index the graphics queue was retrieved from.
    pub graphics_queue: usize,
}

/// A fully constructed per-window graphics context: it exists only with
/// every field valid, and releases its instance, optional messenger and
/// device exactly once, through [`Context::destroy`].
pub struct Context {
    /// Whether diagnostics were enabled at construction.
    pub diagnostics: bool,
    /// Tags of the layers the instance was created with.
    pub instance_layers: Vec<u64>,
    /// Tags of the extensions the instance was created with.
    pub instance_extensions: Vec<u64>,
    /// Tags of the extensions the logical device was created with.
    pub device_extensions: Vec<u64>,
    /// Handles gathered during construction.
    pub data: AppData,
}

/// The validation layer is present whenever diagnostics demand it.
pub open spec fn spec_layers_ok(available_layers: Seq<u64>, diagnostics: bool) -> bool {
    !diagnostics || available_layers.contains(VALIDATION_LAYER)
}

/// The compatibility platform runs a driver at or past the threshold.
pub open spec fn spec_needs_shim(compat_platform: bool, driver_version: u32) -> bool {
    compat_platform && driver_version >= PORTABILITY_MACOS_VERSION
}

/// Layers enabled on the instance: the validation layer iff diagnostics.
pub open spec fn spec_instance_layers(diagnostics: bool) -> Seq<u64> {
    if diagnostics {
        seq![VALIDATION_LAYER]
    } else {
        Seq::<u64>::empty()
    }
}

/// Extensions enabled on the instance: the window's surface extensions,
/// then debug-utils iff diagnostics, then the portability pair iff the
/// compatibility shim applies.
pub open spec fn spec_instance_extensions(
    surface_extensions: Seq<u64>,
    diagnostics: bool,
    shim: bool,
) -> Seq<u64> {
    surface_extensions + (if diagnostics {
        seq![EXT_DEBUG_UTILS_EXTENSION]
    } else {
        Seq::<u64>::empty()
    }) + (if shim {
        seq![
            KHR_GET_PHYSICAL_DEVICE_PROPERTIES2_EXTENSION,
            KHR_PORTABILITY_ENUMERATION_EXTENSION,
        ]
    } else {
        Seq::<u64>::empty()
    })
}

/// Extensions enabled on the logical device: the portability subset iff
/// the compatibility shim applies.
pub open spec fn spec_device_extensions(shim: bool) -> Seq<u64> {
    if shim {
        seq![KHR_PORTABILITY_SUBSET_EXTENSION]
    } else {
        Seq::<u64>::empty()
    }
}

/// Construction succeeds exactly when every step succeeds.
pub open spec fn spec_create_succeeds(host: DriverHost, config: CreateConfig) -> bool {
    &&& host.entry_available
    &&& spec_layers_ok(host.available_layers@, config.diagnostics)
    &&& host.instance_accepted
    &&& (!config.diagnostics || host.messenger_accepted)
    &&& spec_any_device_suitable(host.devices@)
    &&& host.device_accepted
}

/// The error of the first failing step.
pub open spec fn spec_create_error(host: DriverHost, config: CreateConfig) -> InitError {
    if !host.entry_available {
        InitError::DriverLoad
    } else if !spec_layers_ok(host.available_layers@, config.diagnostics) {
        InitError::MissingLayer
    } else if !host.instance_accepted {
        InitError::InstanceCreation
    } else if config.diagnostics && !host.messenger_accepted {
        InitError::InstanceCreation
    } else if !spec_any_device_suitable(host.devices@) {
        InitError::NoSuitableDevice
    } else {
        InitError::DeviceCreation
    }
}

/// Acquisitions of a fully successful construction, in order.
pub open spec fn spec_success_create_events(diagnostics: bool) -> Seq<DriverEvent> {
    seq![DriverEvent::InstanceCreated] + (if diagnostics {
        seq![DriverEvent::MessengerCreated]
    } else {
        Seq::<DriverEvent>::empty()
    }) + seq![DriverEvent::DeviceCreated]
}

/// Events of a construction that fails after the instance exists: what was
/// acquired is released again, the messenger strictly before the instance.
pub open spec fn spec_aborted_create_events(diagnostics: bool) -> Seq<DriverEvent> {
    seq![DriverEvent::InstanceCreated] + (if diagnostics {
        seq![DriverEvent::MessengerCreated, DriverEvent::MessengerDestroyed]
    } else {
        Seq::<DriverEvent>::empty()
    }) + seq![DriverEvent::InstanceDestroyed]
}

/// Exactly which events one construction attempt appends to the log.
pub open spec fn spec_create_events(host: DriverHost, config: CreateConfig) -> Seq<DriverEvent> {
    if !host.entry_available || !spec_layers_ok(host.available_layers@, config.diagnostics)
        || !host.instance_accepted {
        Seq::<DriverEvent>::empty()
    } else if config.diagnostics && !host.messenger_accepted {
        seq![DriverEvent::InstanceCreated, DriverEvent::InstanceDestroyed]
    } else if !spec_any_device_suitable(host.devices@) || !host.device_accepted {
        spec_aborted_create_events(config.diagnostics)
    } else {
        spec_success_create_events(config.diagnostics)
    }
}

/// Releases of one context, in order: messenger iff present, then device,
/// then instance.
pub open spec fn spec_destroy_events(ctx: Context) -> Seq<DriverEvent> {
    (if ctx.data.messenger {
        seq![DriverEvent::MessengerDestroyed]
    } else {
        Seq::<DriverEvent>::empty()
    }) + seq![DriverEvent::DeviceDestroyed, DriverEvent::InstanceDestroyed]
}

/// A context as construction leaves it: diagnostics as configured, layers
/// and extensions as the policy computes them, the first suitable device
/// and its first graphics-capable queue family selected.
pub open spec fn spec_context_matches(ctx: Context, host: DriverHost, config: CreateConfig) -> bool {
    let shim = spec_needs_shim(config.compat_platform, host.driver_version);
    &&& ctx.diagnostics == config.diagnostics
    &&& ctx.instance_layers@ == spec_instance_layers(config.diagnostics)
    &&& ctx.instance_extensions@ == spec_instance_extensions(
        config.surface_extensions@,
        config.diagnostics,
        shim,
    )
    &&& ctx.device_extensions@ == spec_device_extensions(shim)
    &&& ctx.data.messenger == config.diagnostics
    &&& is_first_suitable_device(host.devices@, ctx.data.physical_device as int)
    &&& ctx.data.physical_device < host.devices@.len()
    &&& is_first_graphics_family(
        host.devices@[ctx.data.physical_device as int].queue_families@,
        ctx.data.graphics_queue as int,
    )
}

/// Pack a version number the way the driver compares versions.
pub fn make_version(major: u32, minor: u32, patch: u32) -> (r: u32)
    ensures
        r == (major << 22u32) | (minor << 12u32) | patch,
{
    (major << 22u32) | (minor << 12u32) | patch
}

/// Whether the portability compatibility shim applies: only on the
/// compatibility platform, and only from the threshold driver version on.
pub fn needs_portability_shim(compat_platform: bool, driver_version: u32) -> (r: bool)
    ensures
        r == spec_needs_shim(compat_platform, driver_version),
{
    compat_platform && driver_version >= PORTABILITY_MACOS_VERSION
}

/// Diagnostics demand the validation layer: absent, construction must fail
/// rather than silently downgrade.
pub fn check_validation_layers(available_layers: &Vec<u64>, diagnostics: bool) -> (r: Result<
    (),
    InitError,
>)
    ensures
        r is Ok <==> spec_layers_ok(available_layers@, diagnostics),
        r matches Err(e) ==> e == InitError::MissingLayer,
{
    if !diagnostics {
        return Ok(());
    }
    let mut i: usize = 0;
    while i < available_layers.len()
        invariant
            i <= available_layers@.len(),
            forall|j: int| 0 <= j < i ==> #[trigger] available_layers@[j] != VALIDATION_LAYER,
        decreases available_layers@.len() - i,
    {
        if available_layers[i] == VALIDATION_LAYER {
            return Ok(());
        }
        i = i + 1;
    }
    Err(InitError::MissingLayer)
}

/// Layers enabled on the instance and the logical device.
pub fn instance_layers(diagnostics: bool) -> (r: Vec<u64>)
    ensures
        r@ == spec_instance_layers(diagnostics),
{
    let mut layers: Vec<u64> = Vec::new();
    if diagnostics {
        layers.push(VALIDATION_LAYER);
    }
    proof {
        assert(layers@ =~= spec_instance_layers(diagnostics));
    }
    layers
}

/// Extensions enabled on the instance.
pub fn instance_extensions(surface_extensions: &Vec<u64>, diagnostics: bool, shim: bool) -> (r:
    Vec<u64>)
    ensures
        r@ == spec_instance_extensions(surface_extensions@, diagnostics, shim),
{
    let mut extensions: Vec<u64> = Vec::new();
    let mut i: usize = 0;
    while i < surface_extensions.len()
        invariant
            i <= surface_extensions@.len(),
            extensions@ == surface_extensions@.subrange(0, i as int),
        decreases surface_extensions@.len() - i,
    {
        extensions.push(surface_extensions[i]);
        proof {
            assert(extensions@ =~= surface_extensions@.subrange(0, i + 1int));
        }
        i = i + 1;
    }
    if diagnostics {
        extensions.push(EXT_DEBUG_UTILS_EXTENSION);
    }
    if shim {
        extensions.push(KHR_GET_PHYSICAL_DEVICE_PROPERTIES2_EXTENSION);
        extensions.push(KHR_PORTABILITY_ENUMERATION_EXTENSION);
    }
    proof {
        assert(extensions@ =~= spec_instance_extensions(surface_extensions@, diagnostics, shim));
    }
    extensions
}

/// Extensions enabled on the logical device.
pub fn device_extensions(shim: bool) -> (r: Vec<u64>)
    ensures
        r@ == spec_device_extensions(shim),
{
    let mut extensions: Vec<u64> = Vec::new();
    if shim {
        extensions.push(KHR_PORTABILITY_SUBSET_EXTENSION);
    }
    proof {
        assert(extensions@ =~= spec_device_extensions(shim));
    }
    extensions
}

impl Context {
    /// Build a context for one window, acquiring the driver entry point,
    /// instance, optional messenger, device selection and logical device
    /// in order; any step's failure aborts the later steps, releases what
    /// the earlier steps acquired, and leaks nothing.
    pub fn create(host: &DriverHost, config: &CreateConfig, log: &mut DriverLog) -> (r: Result<
        Context,
        InitError,
    >)
        ensures
            r is Ok <==> spec_create_succeeds(*host, *config),
            r matches Ok(ctx) ==> spec_context_matches(ctx, *host, *config),
            r matches Err(e) ==> e == spec_create_error(*host, *config),
            final(log).events@ == old(log).events@ + spec_create_events(*host, *config),
            r is Err ==> final(log).live_instances() == old(log).live_instances()
                && final(log).live_messengers() == old(log).live_messengers()
                && final(log).live_devices() == old(log).live_devices(),
            !host.entry_available || !spec_layers_ok(host.available_layers@, config.diagnostics)
                || !host.instance_accepted ==> final(log).events@ == old(log).events@,
            r is Ok ==> final(log).live_instances() == old(log).live_instances() + 1
                && final(log).live_devices() == old(log).live_devices() + 1
                && final(log).live_messengers() == old(log).live_messengers() + (
            if config.diagnostics {
                1int
            } else {
                0int
            }),
    {
        if !host.entry_available {
            proof {
                assert(old(log).events@ + spec_create_events(*host, *config) =~= old(log).events@);
            }
            return Err(InitError::DriverLoad);
        }
        if let Err(e) = check_validation_layers(&host.available_layers, config.diagnostics) {
            proof {
                assert(old(log).events@ + spec_create_events(*host, *config) =~= old(log).events@);
            }
            return Err(e);
        }
        let shim = needs_portability_shim(config.compat_platform, host.driver_version);
        let layers = instance_layers(config.diagnostics);
        let extensions = instance_extensions(&config.surface_extensions, config.diagnostics, shim);
        if !host.instance_accepted {
            proof {
                assert(old(log).events@ + spec_create_events(*host, *config) =~= old(log).events@);
            }
            return Err(InitError::InstanceCreation);
        }
        log.record(DriverEvent::InstanceCreated);
        let mut messenger = false;
        if config.diagnostics {
            if !host.messenger_accepted {
                log.record(DriverEvent::InstanceDestroyed);
                proof {
                    assert(log.events@ =~= old(log).events@ + spec_create_events(*host, *config));
                }
                return Err(InitError::InstanceCreation);
            }
            log.record(DriverEvent::MessengerCreated);
            messenger = true;
        }
        let selection = match pick_physical_device(&host.devices) {
            Ok(s) => s,
            Err(e) => {
                if messenger {
                    log.record(DriverEvent::MessengerDestroyed);
                }
                log.record(DriverEvent::InstanceDestroyed);
                proof {
                    assert(log.events@ =~= old(log).events@ + spec_create_events(*host, *config));
                }
                return Err(e);
            },
        };
        let families = &host.devices[selection.index].queue_families;
        let indices = match QueueFamilyIndices::get(families) {
            Ok(q) => q,
            Err(_) => {
                // The selected device passed the suitability check, which is
                // exactly the existence of a graphics-capable queue family.
                proof {
                    assert(spec_device_suitable(host.devices@[selection.index as int]));
                    assert(false);
                }
                if messenger {
                    log.record(DriverEvent::MessengerDestroyed);
                }
                log.record(DriverEvent::InstanceDestroyed);
                return Err(InitError::NoSuitableDevice);
            },
        };
        let dev_extensions = device_extensions(shim);
        if !host.device_accepted {
            if messenger {
                log.record(DriverEvent::MessengerDestroyed);
            }
            log.record(DriverEvent::InstanceDestroyed);
            proof {
                assert(log.events@ =~= old(log).events@ + spec_create_events(*host, *config));
            }
            return Err(InitError::DeviceCreation);
        }
        log.record(DriverEvent::DeviceCreated);
        let ctx = Context {
            diagnostics: config.diagnostics,
            instance_layers: layers,
            instance_extensions: extensions,
            device_extensions: dev_extensions,
            data: AppData {
                messenger,
                physical_device: selection.index,
                graphics_queue: indices.graphics,
            },
        };
        proof {
            assert(log.events@ =~= old(log).events@ + spec_create_events(*host, *config));
        }
        Ok(ctx)
    }

    /// The diagnostic callback's decision for one driver message: the
    /// host log level it is relayed at, the category bitmask to include
    /// with it, and the do-not-abort answer returned to the driver
    /// whatever the message was.
    pub fn debug_callback(severity: u32, message_types: u32) -> (r: DebugRelay)
        ensures
            r.level == spec_log_level(severity),
            r.categories == message_types,
            r.answer == DO_NOT_ABORT,
    {
        let level = classify_severity(severity);
        DebugRelay { level, categories: message_types, answer: DO_NOT_ABORT }
    }

    /// Release the context's resources, in order: debug messenger iff
    /// present, then logical device, then instance.  Consumes the context,
    /// so each one is destroyed at most once.
    pub fn destroy(self, log: &mut DriverLog)
        ensures
            final(log).events@ == old(log).events@ + spec_destroy_events(self),
            final(log).live_instances() == old(log).live_instances() - 1,
            final(log).live_devices() == old(log).live_devices() - 1,
            final(log).live_messengers() == old(log).live_messengers() - (
            if self.data.messenger {
                1int
            } else {
                0int
            }),
            final(log).instances_created() == old(log).instances_created(),
            final(log).messengers_created() == old(log).messengers_created(),
            final(log).devices_created() == old(log).devices_created(),
    {
        if self.data.messenger {
            log.record(DriverEvent::MessengerDestroyed);
        }
        log.record(DriverEvent::DeviceDestroyed);
        log.record(DriverEvent::InstanceDestroyed);
        proof {
            assert(log.events@ =~= old(log).events@ + spec_destroy_events(self));
        }
    }
}

} // verus!
