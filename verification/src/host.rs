//! The audio host.
use crate::default_device::{
    DefaultDevice, DefaultDeviceChange, DefaultDeviceKind, DefaultDevices,
};
use crate::device::{Device, Devices};
use crate::error::{is_io_text_of, DevicesError, HostUnavailable};
use vstd::prelude::*;

verus! {

/// The WASAPI host, the audio host of Windows.
///
/// An output device that is opened as an input device is opened in loopback mode: what it
/// plays is heard.
#[derive(Clone, Copy, Debug, PartialEq, Eq, Structural)]
pub struct Host;

impl Host {
    /// Returns the host.
    pub fn new() -> (r: Result<Host, HostUnavailable>)
        ensures
            r == Ok::<_, HostUnavailable>(Host),
    {
        Ok(Host)
    }

    /// Tells whether the host can be used. Windows always has it.
    pub fn is_available() -> (r: bool)
        ensures
            r,
    {
        true
    }

    /// Returns the devices, from the system's list of them.
    pub fn devices<L>(
        &self,
        enumerated: Result<(L, u32), windows_core::Error>,
    ) -> (r: Result<Devices<L>, DevicesError>)
        ensures
            match enumerated {
                Ok((collection, count)) => r matches Ok(devices) && devices.wf()
                    && devices.collection == collection && devices.total_count == count
                    && devices.next_item == 0 && devices.to_come() == Seq::new(
                    count as nat,
                    |i: int| i as u32,
                ),
                Err(e) => r matches Err(DevicesError::BackendSpecific { err }) && is_io_text_of(
                    e,
                    err.description@,
                ),
            },
    {
        Devices::new(enumerated)
    }

    /// Returns a device that follows the default input device, unless there is none at
    /// this time.
    pub fn default_input_device<D, C>(&self, devices: DefaultDevices<D>) -> (r: Option<
        Device<D, C>,
    >)
        ensures
            r == Device::<D, C>::spec_from_default(devices.input_device),
    {
        Device::from_default_device(devices.input_device)
    }

    /// Returns a device that follows the default output device, unless there is none at
    /// this time.
    pub fn default_output_device<D, C>(&self, devices: DefaultDevices<D>) -> (r: Option<
        Device<D, C>,
    >)
        ensures
            r == Device::<D, C>::spec_from_default(devices.output_device),
    {
        Device::from_default_device(devices.output_device)
    }
}

/// The default devices of the host are those of the last notification: none where it took
/// the default device away, and the endpoint that was looked up where it named one.
pub proof fn lemma_default_device_follows<D, C>(
    devices: DefaultDevices<D>,
    kind: DefaultDeviceKind,
    change: DefaultDeviceChange,
    lookup: Option<Result<D, windows_core::Error>>,
)
    requires
        devices.spec_device(kind).concerned_by(change),
    ensures
        ({
            let after = devices.with_device(
                kind,
                devices.spec_device(kind).after(change, lookup),
            );
            let device = Device::<D, C>::spec_from_default(after.spec_device(kind));
            &&& change.id_is_null ==> device is None
            &&& !change.id_is_null ==> (lookup matches Some(Ok(endpoint)) ==> (device matches Some(
                d,
            ) && d.device.spec_endpoint() == Some(endpoint)))
        }),
{
}

/// A device that was made of a default device stands for its endpoint.
pub proof fn lemma_default_device_has_endpoint<D, C>(default: DefaultDevice<D>)
    ensures
        Device::<D, C>::spec_from_default(default) matches Some(device)
            ==> device.device.spec_endpoint() == default.device,
{
}

} // verus!
