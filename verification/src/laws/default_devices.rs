//! Laws on the default devices.
use crate::default_device::{
    ChangeStep, DataFlow, DefaultDevice, DefaultDeviceChange, DefaultDeviceKind, DefaultDevices,
    Role,
};
use crate::device::Device;
use crate::host::Host;
use crate::laws::devices::stands_for;
use vstd::prelude::*;

verus! {

/// A default device has the data flow and the role that it was made for, and the endpoint that
/// the system answered with, if any.
pub proof fn lemma_new_default_device<D>(
    flow: DataFlow,
    role: Role,
    endpoint: Result<D, windows_core::Error>,
    r: DefaultDevice<D>,
)
    requires
        call_ensures(DefaultDevice::<D>::new, (flow, role, endpoint), r),
    ensures
        r.flow.0 == flow.0 && r.role.0 == role.0,
        endpoint matches Ok(e) ==> r.device == Some(e),
        endpoint is Err ==> r.device is None,
{
}

/// The input device is the default one for data flow 1, the output device the one for data
/// flow 0, both for role 0, each with its own endpoint.
pub proof fn lemma_new_default_devices<D>(
    input: Result<D, windows_core::Error>,
    output: Result<D, windows_core::Error>,
    r: DefaultDevices<D>,
)
    requires
        call_ensures(DefaultDevices::<D>::new, (input, output), r),
    ensures
        r.input_device.flow.0 == 1 && r.input_device.role.0 == 0,
        r.output_device.flow.0 == 0 && r.output_device.role.0 == 0,
        input matches Ok(e) ==> r.input_device.device == Some(e),
        input is Err ==> r.input_device.device is None,
        output matches Ok(e) ==> r.output_device.device == Some(e),
        output is Err ==> r.output_device.device is None,
{
}

/// The numbers of the data flows and of the role, and which default device follows a
/// notification first.
pub proof fn lemma_default_device_numbers(
    kind: DefaultDeviceKind,
    flow: DataFlow,
    role: Role,
    first: DefaultDeviceKind,
)
    requires
        call_ensures(DefaultDeviceKind::flow, (kind,), flow),
        call_ensures(DefaultDeviceKind::role, (kind,), role),
        call_ensures(DefaultDeviceKind::first_to_follow, (), first),
    ensures
        kind is Input ==> flow.0 == 1,
        kind is Output ==> flow.0 == 0,
        role.0 == 0,
        first is Input,
{
}

/// The default device of a kind is the one for input or the one for output.
pub proof fn lemma_default_device_of_kind<D>(
    devices: DefaultDevices<D>,
    kind: DefaultDeviceKind,
    r: &DefaultDevice<D>,
)
    requires
        call_ensures(DefaultDevices::<D>::device, (&devices, kind), r),
    ensures
        kind is Input ==> *r == devices.input_device,
        kind is Output ==> *r == devices.output_device,
{
}

/// An endpoint is looked up exactly where the notification has the data flow and the role of
/// the default device and names an endpoint.
pub proof fn lemma_lookup_where_named<D>(
    device: DefaultDevice<D>,
    change: DefaultDeviceChange,
    r: bool,
)
    requires
        call_ensures(DefaultDevice::<D>::needs_lookup, (&device, change), r),
    ensures
        r <==> device.flow.0 == change.flow.0 && device.role.0 == change.role.0
            && !change.id_is_null,
{
}

/// What a notification makes of a default device: nothing where the data flow or the role is
/// another, no endpoint where it names none, the endpoint that was looked up where it names
/// one, and nothing but the error where the lookup failed. Data flow and role stay.
pub open spec fn follows<D>(
    before: DefaultDevice<D>,
    change: DefaultDeviceChange,
    lookup: Option<Result<D, windows_core::Error>>,
    after: DefaultDevice<D>,
    r: Result<(), windows_core::Error>,
) -> bool {
    let mine = before.flow.0 == change.flow.0 && before.role.0 == change.role.0;
    &&& after.flow.0 == before.flow.0
    &&& after.role.0 == before.role.0
    &&& !mine ==> after.device == before.device && r is Ok
    &&& mine && change.id_is_null ==> after.device is None && r is Ok
    &&& mine && !change.id_is_null ==> match lookup {
        Some(Ok(e)) => after.device == Some(e) && r is Ok,
        Some(Err(error)) => after.device == before.device && r == Err::<(), _>(error),
        None => true,
    }
}

/// A default device follows a notification.
pub proof fn lemma_default_device_follows_change<D>(
    change: DefaultDeviceChange,
    lookup: Option<Result<D, windows_core::Error>>,
)
    ensures
        forall|device: &mut DefaultDevice<D>, r: Result<(), windows_core::Error>|
            #![trigger call_ensures(
                DefaultDevice::<D>::update_device,
                (device, change, lookup),
                r,
            )]
            call_ensures(DefaultDevice::<D>::update_device, (device, change, lookup), r)
                ==> follows(*device, change, lookup, *final(device), r),
{
}

/// One default device follows a notification, and the other stays as it is. After the input
/// device comes the output device, unless the lookup failed; after the output device the
/// notification is dealt with. A failed lookup ends it with its error.
pub proof fn lemma_one_default_device_at_a_time<D>(
    change: DefaultDeviceChange,
    lookup: Option<Result<D, windows_core::Error>>,
)
    ensures
        forall|devices: &mut DefaultDevices<D>, r: ChangeStep|
            #![trigger call_ensures(
                DefaultDevices::<D>::on_default_device_changed,
                (devices, DefaultDeviceKind::Input, change, lookup),
                r,
            )]
            lookup is Some && call_ensures(
                DefaultDevices::<D>::on_default_device_changed,
                (devices, DefaultDeviceKind::Input, change, lookup),
                r,
            ) ==> {
                &&& final(devices).output_device == devices.output_device
                &&& match r {
                    ChangeStep::Next(next) => next is Output && follows(
                        devices.input_device,
                        change,
                        lookup,
                        final(devices).input_device,
                        Ok(()),
                    ),
                    ChangeStep::Done(result) => result is Err && follows(
                        devices.input_device,
                        change,
                        lookup,
                        final(devices).input_device,
                        result,
                    ),
                }
            },
        forall|devices: &mut DefaultDevices<D>, r: ChangeStep|
            #![trigger call_ensures(
                DefaultDevices::<D>::on_default_device_changed,
                (devices, DefaultDeviceKind::Output, change, lookup),
                r,
            )]
            lookup is Some && call_ensures(
                DefaultDevices::<D>::on_default_device_changed,
                (devices, DefaultDeviceKind::Output, change, lookup),
                r,
            ) ==> {
                &&& final(devices).input_device == devices.input_device
                &&& r matches ChangeStep::Done(result) && follows(
                    devices.output_device,
                    change,
                    lookup,
                    final(devices).output_device,
                    result,
                )
            },
{
}

/// A notification without an endpoint, or one that is about neither default device, needs no
/// lookup. It takes the endpoint from the default device that it is about, and is dealt with
/// once the output device has followed.
pub proof fn lemma_change_without_lookup<D>(change: DefaultDeviceChange)
    ensures
        forall|devices: &mut DefaultDevices<D>, r: ChangeStep|
            #![trigger call_ensures(
                DefaultDevices::<D>::on_default_device_changed,
                (devices, DefaultDeviceKind::Input, change, None),
                r,
            )]
            (change.id_is_null || devices.input_device.flow.0 != change.flow.0
                || devices.input_device.role.0 != change.role.0) && call_ensures(
                DefaultDevices::<D>::on_default_device_changed,
                (devices, DefaultDeviceKind::Input, change, None),
                r,
            ) ==> {
                &&& r matches ChangeStep::Next(DefaultDeviceKind::Output)
                &&& final(devices).output_device == devices.output_device
                &&& follows(
                    devices.input_device,
                    change,
                    None,
                    final(devices).input_device,
                    Ok(()),
                )
            },
        forall|devices: &mut DefaultDevices<D>, r: ChangeStep|
            #![trigger call_ensures(
                DefaultDevices::<D>::on_default_device_changed,
                (devices, DefaultDeviceKind::Output, change, None),
                r,
            )]
            (change.id_is_null || devices.output_device.flow.0 != change.flow.0
                || devices.output_device.role.0 != change.role.0) && call_ensures(
                DefaultDevices::<D>::on_default_device_changed,
                (devices, DefaultDeviceKind::Output, change, None),
                r,
            ) ==> {
                &&& r matches ChangeStep::Done(Ok(_))
                &&& final(devices).input_device == devices.input_device
                &&& follows(
                    devices.output_device,
                    change,
                    None,
                    final(devices).output_device,
                    Ok(()),
                )
            },
{
}

/// Once the default devices have followed a notification, the host hands out a device for the
/// endpoint that was looked up; where the notification took the default device away, it hands
/// out none.
pub proof fn lemma_new_default_is_handed_out<D, C>(
    host: Host,
    e: D,
    before: DefaultDevice<D>,
    after: DefaultDevices<D>,
    change: DefaultDeviceChange,
    r: Result<(), windows_core::Error>,
    input: Option<Device<D, C>>,
    output: Option<Device<D, C>>,
)
    requires
        before.flow.0 == change.flow.0,
        before.role.0 == change.role.0,
        call_ensures(Host::default_input_device::<D, C>, (&host, after), input),
        call_ensures(Host::default_output_device::<D, C>, (&host, after), output),
    ensures
        follows(before, change, Some(Ok(e)), after.input_device, r) ==> if change.id_is_null {
            input is None
        } else {
            input matches Some(device) && stands_for(device.device, e)
        },
        follows(before, change, Some(Ok(e)), after.output_device, r) ==> if change.id_is_null {
            output is None
        } else {
            output matches Some(device) && stands_for(device.device, e)
        },
{
}

} // verus!
