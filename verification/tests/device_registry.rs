use chardev::errors::DeviceError;
use chardev::registry::DeviceRegistry;

#[test]
fn minors_are_consecutive_and_bounded() {
    let mut reg = DeviceRegistry::new(2);
    assert_eq!(reg.register(), Ok(0));
    assert_eq!(reg.register(), Ok(1));
    assert_eq!(reg.register(), Err(DeviceError::RegistrationFailure));
}

#[test]
fn unregister_all_releases_every_minor() {
    let mut reg = DeviceRegistry::new(1);
    assert_eq!(reg.register(), Ok(0));
    reg.unregister_all();
    assert_eq!(reg.register(), Ok(0));
}

#[test]
fn unregister_all_on_empty_registry_is_safe() {
    let mut reg = DeviceRegistry::new(3);
    reg.unregister_all();
    assert_eq!(reg.register(), Ok(0));
}

#[test]
fn module_init_registers_all_minors() {
    let mut reg = DeviceRegistry::new(3);
    assert_eq!(reg.register_all(2), Ok(()));
    assert_eq!(reg.register(), Ok(2));
}

#[test]
fn failed_init_releases_partial_registrations() {
    let mut reg = DeviceRegistry::new(2);
    assert_eq!(reg.register(), Ok(0));
    assert_eq!(reg.register_all(2), Err(DeviceError::RegistrationFailure));
    assert_eq!(reg.register(), Ok(1));
}
