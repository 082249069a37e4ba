use gfx_bringup::context::{
    check_validation_layers, device_extensions, instance_extensions, instance_layers,
    make_version, needs_portability_shim, Context, CreateConfig, DriverHost, InitError,
    EXT_DEBUG_UTILS_EXTENSION, KHR_GET_PHYSICAL_DEVICE_PROPERTIES2_EXTENSION,
    KHR_PORTABILITY_ENUMERATION_EXTENSION, KHR_PORTABILITY_SUBSET_EXTENSION,
    PORTABILITY_MACOS_VERSION, VALIDATION_LAYER,
};
use gfx_bringup::debug::{
    classify_severity, LogLevel, DO_NOT_ABORT, MESSAGE_TYPE_GENERAL, MESSAGE_TYPE_PERFORMANCE,
    MESSAGE_TYPE_VALIDATION, SEVERITY_ERROR, SEVERITY_INFO, SEVERITY_VERBOSE, SEVERITY_WARNING,
};
use gfx_bringup::device::{PhysicalDeviceInfo, QUEUE_GRAPHICS_BIT, QUEUE_TRANSFER_BIT};
use gfx_bringup::ledger::{DriverEvent, DriverLog};

fn count(log: &DriverLog, e: DriverEvent) -> usize {
    log.events.iter().filter(|x| **x == e).count()
}

fn good_host() -> DriverHost {
    DriverHost {
        entry_available: true,
        driver_version: make_version(1, 3, 0),
        available_layers: vec![0x77, VALIDATION_LAYER],
        instance_accepted: true,
        messenger_accepted: true,
        devices: vec![
            PhysicalDeviceInfo { name_tag: 1, queue_families: vec![QUEUE_TRANSFER_BIT] },
            PhysicalDeviceInfo {
                name_tag: 2,
                queue_families: vec![QUEUE_TRANSFER_BIT, QUEUE_GRAPHICS_BIT],
            },
        ],
        device_accepted: true,
    }
}

fn diag_config() -> CreateConfig {
    CreateConfig { diagnostics: true, compat_platform: false, surface_extensions: vec![0x51, 0x52] }
}

#[test]
fn create_selects_first_suitable_device_and_family() {
    let host = good_host();
    let config = diag_config();
    let mut log = DriverLog::new();
    let ctx = Context::create(&host, &config, &mut log).unwrap();
    assert_eq!(ctx.data.physical_device, 1);
    assert_eq!(ctx.data.graphics_queue, 1);
    assert!(ctx.data.messenger);
    assert!(ctx.diagnostics);
    assert_eq!(ctx.instance_layers, vec![VALIDATION_LAYER]);
    assert_eq!(ctx.instance_extensions, vec![0x51, 0x52, EXT_DEBUG_UTILS_EXTENSION]);
    assert_eq!(ctx.device_extensions, Vec::<u64>::new());
    assert_eq!(
        log.events,
        vec![
            DriverEvent::InstanceCreated,
            DriverEvent::MessengerCreated,
            DriverEvent::DeviceCreated,
        ]
    );
}

#[test]
fn create_without_diagnostics_installs_no_messenger() {
    let host = good_host();
    let config = CreateConfig {
        diagnostics: false,
        compat_platform: false,
        surface_extensions: vec![0x51],
    };
    let mut log = DriverLog::new();
    let ctx = Context::create(&host, &config, &mut log).unwrap();
    assert!(!ctx.data.messenger);
    assert_eq!(log.events, vec![DriverEvent::InstanceCreated, DriverEvent::DeviceCreated]);
    assert_eq!(ctx.instance_layers, Vec::<u64>::new());
}

#[test]
fn create_on_compatibility_platform_enables_portability() {
    let mut host = good_host();
    host.driver_version = make_version(1, 3, 216);
    let config = CreateConfig {
        diagnostics: false,
        compat_platform: true,
        surface_extensions: vec![0x51],
    };
    let mut log = DriverLog::new();
    let ctx = Context::create(&host, &config, &mut log).unwrap();
    assert_eq!(
        ctx.instance_extensions,
        vec![
            0x51,
            KHR_GET_PHYSICAL_DEVICE_PROPERTIES2_EXTENSION,
            KHR_PORTABILITY_ENUMERATION_EXTENSION,
        ]
    );
    assert_eq!(ctx.device_extensions, vec![KHR_PORTABILITY_SUBSET_EXTENSION]);
}

#[test]
fn create_fails_when_driver_cannot_be_loaded() {
    let mut host = good_host();
    host.entry_available = false;
    let mut log = DriverLog::new();
    let r = Context::create(&host, &diag_config(), &mut log);
    assert!(matches!(r, Err(InitError::DriverLoad)));
    assert!(log.events.is_empty());
}

#[test]
fn missing_validation_layer_fails_before_any_instance_exists() {
    let mut host = good_host();
    host.available_layers = vec![0x77];
    let mut log = DriverLog::new();
    let r = Context::create(&host, &diag_config(), &mut log);
    assert!(matches!(r, Err(InitError::MissingLayer)));
    // No instance handle was ever produced.
    assert!(log.events.is_empty());
}

#[test]
fn missing_layer_is_tolerated_without_diagnostics() {
    let mut host = good_host();
    host.available_layers = vec![0x77];
    let config = CreateConfig {
        diagnostics: false,
        compat_platform: false,
        surface_extensions: Vec::new(),
    };
    let mut log = DriverLog::new();
    assert!(Context::create(&host, &config, &mut log).is_ok());
}

#[test]
fn rejected_instance_configuration_fails_cleanly() {
    let mut host = good_host();
    host.instance_accepted = false;
    let mut log = DriverLog::new();
    let r = Context::create(&host, &diag_config(), &mut log);
    assert!(matches!(r, Err(InitError::InstanceCreation)));
    assert!(log.events.is_empty());
}

#[test]
fn rejected_messenger_releases_the_instance() {
    let mut host = good_host();
    host.messenger_accepted = false;
    let mut log = DriverLog::new();
    let r = Context::create(&host, &diag_config(), &mut log);
    assert!(matches!(r, Err(InitError::InstanceCreation)));
    assert_eq!(log.events, vec![DriverEvent::InstanceCreated, DriverEvent::InstanceDestroyed]);
}

#[test]
fn rejected_messenger_is_irrelevant_without_diagnostics() {
    let mut host = good_host();
    host.messenger_accepted = false;
    let config = CreateConfig {
        diagnostics: false,
        compat_platform: false,
        surface_extensions: Vec::new(),
    };
    let mut log = DriverLog::new();
    assert!(Context::create(&host, &config, &mut log).is_ok());
}

#[test]
fn no_suitable_device_releases_instance_and_messenger() {
    let mut host = good_host();
    host.devices = vec![PhysicalDeviceInfo { name_tag: 1, queue_families: vec![QUEUE_TRANSFER_BIT] }];
    let mut log = DriverLog::new();
    let r = Context::create(&host, &diag_config(), &mut log);
    assert!(matches!(r, Err(InitError::NoSuitableDevice)));
    assert_eq!(
        log.events,
        vec![
            DriverEvent::InstanceCreated,
            DriverEvent::MessengerCreated,
            DriverEvent::MessengerDestroyed,
            DriverEvent::InstanceDestroyed,
        ]
    );
}

#[test]
fn device_creation_failure_leaks_no_handles() {
    let mut host = good_host();
    host.device_accepted = false;
    let mut log = DriverLog::new();
    let r = Context::create(&host, &diag_config(), &mut log);
    assert!(matches!(r, Err(InitError::DeviceCreation)));
    // Create and destroy calls balance for every handle kind.
    assert_eq!(count(&log, DriverEvent::InstanceCreated), 1);
    assert_eq!(count(&log, DriverEvent::InstanceDestroyed), 1);
    assert_eq!(count(&log, DriverEvent::MessengerCreated), 1);
    assert_eq!(count(&log, DriverEvent::MessengerDestroyed), 1);
    assert_eq!(count(&log, DriverEvent::DeviceCreated), 0);
    // The messenger is released strictly before its instance.
    assert_eq!(log.events.last(), Some(&DriverEvent::InstanceDestroyed));
}

#[test]
fn destroy_releases_messenger_then_device_then_instance() {
    let host = good_host();
    let config = diag_config();
    let mut log = DriverLog::new();
    let ctx = Context::create(&host, &config, &mut log).unwrap();
    ctx.destroy(&mut log);
    assert_eq!(
        log.events,
        vec![
            DriverEvent::InstanceCreated,
            DriverEvent::MessengerCreated,
            DriverEvent::DeviceCreated,
            DriverEvent::MessengerDestroyed,
            DriverEvent::DeviceDestroyed,
            DriverEvent::InstanceDestroyed,
        ]
    );
}

#[test]
fn instance_extension_policy() {
    let surface = vec![0x51, 0x52];
    assert_eq!(instance_extensions(&surface, false, false), vec![0x51, 0x52]);
    assert_eq!(
        instance_extensions(&surface, true, false),
        vec![0x51, 0x52, EXT_DEBUG_UTILS_EXTENSION]
    );
    assert_eq!(
        instance_extensions(&surface, true, true),
        vec![
            0x51,
            0x52,
            EXT_DEBUG_UTILS_EXTENSION,
            KHR_GET_PHYSICAL_DEVICE_PROPERTIES2_EXTENSION,
            KHR_PORTABILITY_ENUMERATION_EXTENSION,
        ]
    );
}

#[test]
fn device_extension_policy() {
    assert_eq!(device_extensions(false), Vec::<u64>::new());
    assert_eq!(device_extensions(true), vec![KHR_PORTABILITY_SUBSET_EXTENSION]);
}

#[test]
fn layer_policy() {
    assert_eq!(instance_layers(false), Vec::<u64>::new());
    assert_eq!(instance_layers(true), vec![VALIDATION_LAYER]);
    assert!(check_validation_layers(&vec![VALIDATION_LAYER], true).is_ok());
    assert!(check_validation_layers(&vec![0x77], false).is_ok());
    assert!(matches!(
        check_validation_layers(&vec![0x77], true),
        Err(InitError::MissingLayer)
    ));
}

#[test]
fn portability_shim_threshold() {
    assert_eq!(make_version(1, 3, 216), PORTABILITY_MACOS_VERSION);
    assert!(needs_portability_shim(true, make_version(1, 3, 216)));
    assert!(needs_portability_shim(true, make_version(1, 4, 0)));
    assert!(!needs_portability_shim(true, make_version(1, 3, 215)));
    assert!(!needs_portability_shim(false, make_version(1, 3, 216)));
}

#[test]
fn debug_callback_reclassifies_and_never_aborts() {
    assert_eq!(classify_severity(SEVERITY_ERROR), LogLevel::Error);
    assert_eq!(classify_severity(SEVERITY_WARNING), LogLevel::Warn);
    assert_eq!(classify_severity(SEVERITY_INFO), LogLevel::Debug);
    assert_eq!(classify_severity(SEVERITY_VERBOSE), LogLevel::Trace);
    let relay = Context::debug_callback(SEVERITY_ERROR, MESSAGE_TYPE_VALIDATION);
    assert_eq!(relay.level, LogLevel::Error);
    assert_eq!(relay.categories, MESSAGE_TYPE_VALIDATION);
    assert_eq!(relay.answer, DO_NOT_ABORT);
    let relay = Context::debug_callback(
        SEVERITY_VERBOSE,
        MESSAGE_TYPE_GENERAL | MESSAGE_TYPE_PERFORMANCE,
    );
    assert_eq!(relay.level, LogLevel::Trace);
    assert_eq!(relay.categories, MESSAGE_TYPE_GENERAL | MESSAGE_TYPE_PERFORMANCE);
    assert_eq!(relay.answer, DO_NOT_ABORT);
}
