use wasapi_host::default_device::{
    ChangeStep, DataFlow, DefaultDevice, DefaultDeviceChange, DefaultDeviceKind, DefaultDevices,
    Role, E_CAPTURE, E_CONSOLE, E_RENDER,
};
use wasapi_host::device::{Device, DeviceType};
use wasapi_host::host::Host;
use windows_core::{Error, HRESULT};

const E_MULTIMEDIA: i32 = 1;
const E_COMMUNICATIONS: i32 = 2;

fn error() -> Error {
    Error::from_hresult(HRESULT(-5))
}

fn change(flow: i32, role: i32, id_is_null: bool) -> DefaultDeviceChange {
    DefaultDeviceChange {
        flow: DataFlow(flow),
        role: Role(role),
        id_is_null,
    }
}

fn input(device: Option<u32>) -> DefaultDevice<u32> {
    DefaultDevice {
        flow: DataFlow(E_CAPTURE),
        role: Role(E_CONSOLE),
        device,
    }
}

#[test]
fn constants_of_flows_and_roles() {
    assert_eq!((E_RENDER, E_CAPTURE, E_CONSOLE), (0, 1, 0));
}

#[test]
fn default_device_without_endpoint() {
    let none: DefaultDevice<u32> =
        DefaultDevice::new(DataFlow(E_CAPTURE), Role(E_CONSOLE), Err(error()));
    assert_eq!(none.device, None);
    let some = DefaultDevice::new(DataFlow(E_RENDER), Role(E_CONSOLE), Ok(3u32));
    assert_eq!(some.device, Some(3));
    assert_eq!(some.flow, DataFlow(E_RENDER));
    assert_eq!(some.role, Role(E_CONSOLE));
}

#[test]
fn default_devices_of_the_host() {
    let devices = DefaultDevices::new(Ok(1u32), Err(error()));
    assert_eq!(devices.input_device.flow, DataFlow(E_CAPTURE));
    assert_eq!(devices.input_device.role, Role(E_CONSOLE));
    assert_eq!(devices.input_device.device, Some(1));
    assert_eq!(devices.output_device.flow, DataFlow(E_RENDER));
    assert_eq!(devices.output_device.role, Role(E_CONSOLE));
    assert_eq!(devices.output_device.device, None);
    assert_eq!(DefaultDeviceKind::Input.flow(), DataFlow(E_CAPTURE));
    assert_eq!(DefaultDeviceKind::Output.flow(), DataFlow(E_RENDER));
    assert_eq!(DefaultDeviceKind::Output.role(), Role(E_CONSOLE));
}

#[test]
fn foreign_change_is_ignored() {
    for (flow, role) in [
        (E_RENDER, E_CONSOLE),
        (E_RENDER, E_MULTIMEDIA),
        (E_CAPTURE, E_MULTIMEDIA),
        (E_CAPTURE, E_COMMUNICATIONS),
    ] {
        let mut device = input(Some(1));
        let foreign = change(flow, role, true);
        assert!(!device.needs_lookup(foreign));
        assert!(device.update_device(foreign, None).is_ok());
        assert_eq!(device.device, Some(1));
        let foreign = change(flow, role, false);
        assert!(!device.needs_lookup(foreign));
        assert!(device.update_device(foreign, Some(Ok(2))).is_ok());
        assert_eq!(device.device, Some(1));
    }
}

#[test]
fn own_change_is_followed() {
    let mut device = input(Some(1));
    let own = change(E_CAPTURE, E_CONSOLE, false);
    assert!(device.needs_lookup(own));
    assert!(device.update_device(own, Some(Ok(2))).is_ok());
    assert_eq!(device.device, Some(2));
    assert_eq!(device.flow, DataFlow(E_CAPTURE));
    assert_eq!(device.role, Role(E_CONSOLE));
}

#[test]
fn null_identifier_takes_the_device_away() {
    let mut device = input(Some(1));
    let removed = change(E_CAPTURE, E_CONSOLE, true);
    assert!(!device.needs_lookup(removed));
    assert!(device.update_device(removed, None).is_ok());
    assert_eq!(device.device, None);
    assert!(Device::<u32, ()>::from_default_device(device).is_none());
}

#[test]
fn failed_lookup_changes_nothing() {
    let mut device = input(Some(1));
    let changed = change(E_CAPTURE, E_CONSOLE, false);
    let result = device.update_device(changed, Some(Err(error())));
    assert_eq!(result.unwrap_err().code(), HRESULT(-5));
    assert_eq!(device.device, Some(1));
}

#[test]
fn last_change_decides() {
    let mut device = input(Some(1));
    let changed = change(E_CAPTURE, E_CONSOLE, false);
    assert!(device.update_device(changed, Some(Ok(2))).is_ok());
    assert!(device.update_device(changed, Some(Ok(3))).is_ok());
    assert_eq!(device.device, Some(3));
}

/// Deals with a notification and returns which default devices took a step.
fn notify(
    devices: &mut DefaultDevices<u32>,
    changed: DefaultDeviceChange,
    found: impl Fn() -> Result<u32, Error>,
) -> (Vec<DefaultDeviceKind>, Result<(), Error>) {
    let mut kinds = vec![DefaultDeviceKind::first_to_follow()];
    loop {
        let kind = kinds[kinds.len() - 1];
        let lookup = if devices.device(kind).needs_lookup(changed) {
            Some(found())
        } else {
            None
        };
        match devices.on_default_device_changed(kind, changed, lookup) {
            ChangeStep::Next(next) => kinds.push(next),
            ChangeStep::Done(result) => return (kinds, result),
        }
    }
}

/// Lets both default devices follow a change to the endpoint 7.
fn follow(devices: &mut DefaultDevices<u32>, changed: DefaultDeviceChange) {
    let (kinds, result) = notify(devices, changed, || Ok(7));
    assert_eq!(kinds, vec![DefaultDeviceKind::Input, DefaultDeviceKind::Output]);
    assert!(result.is_ok());
}

#[test]
fn change_is_for_its_device_alone() {
    let mut devices = DefaultDevices::new(Ok(1u32), Ok(2u32));
    follow(&mut devices, change(E_RENDER, E_CONSOLE, false));
    assert_eq!(devices.input_device.device, Some(1));
    assert_eq!(devices.output_device.device, Some(7));
    follow(&mut devices, change(E_RENDER, E_CONSOLE, true));
    assert_eq!(devices.input_device.device, Some(1));
    assert_eq!(devices.output_device.device, None);
    follow(&mut devices, change(E_CAPTURE, E_CONSOLE, false));
    assert_eq!(devices.input_device.device, Some(7));
    assert_eq!(devices.output_device.device, None);
}

#[test]
fn change_for_another_role_is_for_none() {
    let mut devices = DefaultDevices::new(Ok(1u32), Ok(2u32));
    follow(&mut devices, change(E_CAPTURE, E_COMMUNICATIONS, true));
    follow(&mut devices, change(E_RENDER, E_MULTIMEDIA, false));
    assert_eq!(devices.input_device.device, Some(1));
    assert_eq!(devices.output_device.device, Some(2));
}

#[test]
fn failed_input_lookup_ends_the_notification() {
    let mut devices = DefaultDevices::new(Ok(1u32), Ok(2u32));
    let changed = change(E_CAPTURE, E_CONSOLE, false);
    let (kinds, result) = notify(&mut devices, changed, || Err(error()));
    assert_eq!(kinds, vec![DefaultDeviceKind::Input]);
    assert_eq!(result.unwrap_err().code(), HRESULT(-5));
    assert_eq!(devices.input_device.device, Some(1));
    assert_eq!(devices.output_device.device, Some(2));
}

#[test]
fn failed_output_lookup_is_the_result() {
    let mut devices = DefaultDevices::new(Ok(1u32), Ok(2u32));
    let changed = change(E_RENDER, E_CONSOLE, false);
    let (kinds, result) = notify(&mut devices, changed, || Err(error()));
    assert_eq!(kinds, vec![DefaultDeviceKind::Input, DefaultDeviceKind::Output]);
    assert_eq!(result.unwrap_err().code(), HRESULT(-5));
    assert_eq!(devices.input_device.device, Some(1));
    assert_eq!(devices.output_device.device, Some(2));
}

#[test]
fn host_is_there() {
    let host = Host::new().unwrap();
    assert_eq!(host, Host);
    assert!(Host::is_available());
}

#[test]
fn host_has_the_default_devices() {
    let devices = DefaultDevices::new(Ok(1u32), Err(error()));
    let input: Option<Device<u32, ()>> = Host.default_input_device(devices.clone());
    let output: Option<Device<u32, ()>> = Host.default_output_device(devices);
    let input = input.unwrap();
    assert_eq!(input.device.get(), Some(1));
    assert!(matches!(input.device, DeviceType::Default(Some(_))));
    assert!(input.future_audio_client.is_none());
    assert!(output.is_none());
}
