use gonk_hal::hw_module::{hw_device_t, hw_module_methods_t, hw_module_t, DeviceEntry, ModuleRegistry};
use gonk_hal::lights::{light_device_t, lights_hardware_module_id, LightKind, LightsModule};

fn lights_module(open_table: Vec<DeviceEntry>) -> hw_module_t {
    hw_module_t {
        tag: 0x48574D54,
        module_api_version: 0x0100,
        hal_api_version: 0,
        id: lights_hardware_module_id(),
        name: b"lights hw".to_vec(),
        author: b"vendor".to_vec(),
        methods: Some(hw_module_methods_t { open_table }),
    }
}

fn backlight_device() -> light_device_t {
    light_device_t {
        common: hw_device_t { tag: 0x48574454, version: 1, has_close: true },
        set_light: true,
        set_status: 0,
    }
}

#[test]
fn lights_hardware_module_id_is_the_null_terminated_name() {
    assert_eq!(lights_hardware_module_id(), b"lights\0".to_vec());
}

#[test]
fn resolve_known_id_finds_the_module() {
    let mut registry = ModuleRegistry::new();
    registry.register(lights_module(Vec::new()));
    let found = registry.resolve(b"lights\0").expect("lights must resolve");
    assert_eq!(found.id, b"lights\0".to_vec());
    assert_eq!(found.module_api_version, 0x0100);
}

#[test]
fn resolve_unsupported_id_is_absence_not_panic() {
    let mut registry = ModuleRegistry::new();
    registry.register(lights_module(Vec::new()));
    assert!(registry.resolve(b"sensors\0").is_none());
    assert!(registry.resolve(b"\0").is_none());
    assert!(registry.resolve(b"").is_none());
    assert!(registry.resolve(b"lights").is_none());
    assert!(ModuleRegistry::new().resolve(b"lights\0").is_none());
}

#[test]
fn lights_module_new_requires_the_lights_entry() {
    let mut registry = ModuleRegistry::new();
    assert!(LightsModule::new(&registry).is_none());
    registry.register(lights_module(Vec::new()));
    let module = LightsModule::new(&registry).expect("module present");
    assert_eq!(module.module.id, b"lights\0".to_vec());
}

#[test]
fn get_device_finds_a_supported_kind() {
    let entry = DeviceEntry {
        kind: LightKind::Backlight.to_cstr(),
        device: backlight_device(),
    };
    let mut registry = ModuleRegistry::new();
    registry.register(lights_module(vec![entry]));
    let module = LightsModule::new(&registry).unwrap();
    let device = module.get_device(LightKind::Backlight).expect("backlight supported");
    assert_eq!(device.native_close_calls(), 0);
    assert!(device.request_log().is_empty());
}

#[test]
fn get_device_absent_kind_or_method_table_is_none() {
    let entry = DeviceEntry {
        kind: LightKind::Backlight.to_cstr(),
        device: backlight_device(),
    };
    let mut registry = ModuleRegistry::new();
    registry.register(lights_module(vec![entry]));
    let module = LightsModule::new(&registry).unwrap();
    assert!(module.get_device(LightKind::Battery).is_none());

    let mut bare = ModuleRegistry::new();
    let mut no_table = lights_module(Vec::new());
    no_table.methods = None;
    bare.register(no_table);
    let module = LightsModule::new(&bare).unwrap();
    assert!(module.get_device(LightKind::Backlight).is_none());
}

#[test]
fn to_cstr_names_every_kind() {
    assert_eq!(LightKind::Backlight.to_cstr(), b"backlight\0".to_vec());
    assert_eq!(LightKind::Keyboard.to_cstr(), b"keyboard\0".to_vec());
    assert_eq!(LightKind::Buttons.to_cstr(), b"buttons\0".to_vec());
    assert_eq!(LightKind::Battery.to_cstr(), b"battery\0".to_vec());
    assert_eq!(LightKind::Notifications.to_cstr(), b"notifications\0".to_vec());
    assert_eq!(LightKind::Attention.to_cstr(), b"attention\0".to_vec());
    assert_eq!(LightKind::Bluetooth.to_cstr(), b"bluetooth\0".to_vec());
    assert_eq!(LightKind::Wifi.to_cstr(), b"wifi\0".to_vec());
}

#[test]
fn default_module_record_is_the_zeroed_staging_value() {
    let staged: hw_module_t = Default::default();
    assert_eq!(staged.tag, 0);
    assert_eq!(staged.module_api_version, 0);
    assert_eq!(staged.hal_api_version, 0);
    assert!(staged.id.is_empty());
    assert!(staged.methods.is_none());
    let staged_device: hw_device_t = Default::default();
    assert_eq!(staged_device, hw_device_t { tag: 0, version: 0, has_close: false });
}
