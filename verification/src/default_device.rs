//! The default devices, and how they follow the notifications of the system.
use vstd::prelude::*;

verus! {

/// `eRender`: sound goes from the program to the endpoint.
pub const E_RENDER: i32 = 0;

/// `eCapture`: sound goes from the endpoint to the program.
pub const E_CAPTURE: i32 = 1;

/// `eConsole`: games, system sounds and voice commands.
pub const E_CONSOLE: i32 = 0;

/// The direction in which sound goes through an endpoint, as Windows numbers it.
#[derive(Clone, Copy, Debug, PartialEq, Eq, Structural)]
pub struct DataFlow(pub i32);

/// What an endpoint is used for, as Windows numbers it.
#[derive(Clone, Copy, Debug, PartialEq, Eq, Structural)]
pub struct Role(pub i32);

/// The default device for a data flow and a role. Which endpoint that is may change at
/// any time, and there may be none. `D` stands for the endpoint.
#[derive(Clone, Debug)]
pub struct DefaultDevice<D> {
    pub flow: DataFlow,
    pub role: Role,
    pub device: Option<D>,
}

/// A notification that the default device for a data flow and a role has changed.
#[derive(Clone, Copy, Debug, PartialEq, Eq, Structural)]
pub struct DefaultDeviceChange {
    pub flow: DataFlow,
    pub role: Role,
    /// There is no default device any more.
    pub id_is_null: bool,
}

/// The endpoint, where the system has one.
pub open spec fn endpoint_of<D>(endpoint: Result<D, windows_core::Error>) -> Option<D> {
    match endpoint {
        Ok(device) => Some(device),
        Err(_) => None,
    }
}

impl<D> DefaultDevice<D> {
    /// The notification is about the default device for this data flow and this role.
    pub open spec fn concerned_by(self, change: DefaultDeviceChange) -> bool {
        self.flow == change.flow && self.role == change.role
    }

    /// The default device after a notification, with what looking up the new endpoint
    /// gave.
    pub open spec fn after(
        self,
        change: DefaultDeviceChange,
        lookup: Option<Result<D, windows_core::Error>>,
    ) -> DefaultDevice<D> {
        if !self.concerned_by(change) {
            self
        } else if change.id_is_null {
            DefaultDevice { device: None, ..self }
        } else {
            match lookup {
                Some(Ok(device)) => DefaultDevice { device: Some(device), ..self },
                _ => self,
            }
        }
    }

    /// What comes of following a notification.
    pub open spec fn outcome(
        self,
        change: DefaultDeviceChange,
        lookup: Option<Result<D, windows_core::Error>>,
    ) -> Result<(), windows_core::Error> {
        if self.concerned_by(change) && !change.id_is_null {
            match lookup->0 {
                Ok(_) => Ok(()),
                Err(e) => Err(e),
            }
        } else {
            Ok(())
        }
    }

    /// Makes a default device of what the system answers when it is asked for the endpoint
    /// for the data flow and the role. An error means that there is none.
    pub fn new(
        flow: DataFlow,
        role: Role,
        endpoint: Result<D, windows_core::Error>,
    ) -> (r: DefaultDevice<D>)
        ensures
            r.flow == flow,
            r.role == role,
            r.device == endpoint_of(endpoint),
    {
        DefaultDevice { flow, role, device: endpoint.ok() }
    }

    /// Tells whether the endpoint that a notification names has to be looked up.
    pub fn needs_lookup(&self, change: DefaultDeviceChange) -> (r: bool)
        ensures
            r == (self.concerned_by(change) && !change.id_is_null),
    {
        self.flow == change.flow && self.role == change.role && !change.id_is_null
    }

    /// Follows a notification. `lookup` is what looking up the endpoint gave, where it had
    /// to be looked up; an error of that is handed back, and the default device stays as
    /// it was.
    pub fn update_device(
        &mut self,
        change: DefaultDeviceChange,
        lookup: Option<Result<D, windows_core::Error>>,
    ) -> (r: Result<(), windows_core::Error>)
        requires
            old(self).concerned_by(change) && !change.id_is_null ==> lookup is Some,
        ensures
            *final(self) == old(self).after(change, lookup),
            r == old(self).outcome(change, lookup),
    {
        if self.flow != change.flow || self.role != change.role {
            return Ok(());
        }
        if change.id_is_null {
            self.device = None;
            return Ok(());
        }
        match lookup {
            Some(Ok(device)) => {
                self.device = Some(device);
                Ok(())
            },
            Some(Err(e)) => Err(e),
            None => Ok(()),
        }
    }
}

/// The default devices of the host.
#[derive(Clone, Debug)]
pub struct DefaultDevices<D> {
    pub input_device: DefaultDevice<D>,
    pub output_device: DefaultDevice<D>,
}

/// One of the default devices of the host.
#[derive(Clone, Copy, Debug, PartialEq, Eq, Structural)]
pub enum DefaultDeviceKind {
    Input,
    Output,
}

impl DefaultDeviceKind {
    /// The data flow of the default device.
    pub open spec fn spec_flow(self) -> DataFlow {
        match self {
            DefaultDeviceKind::Input => DataFlow(E_CAPTURE),
            DefaultDeviceKind::Output => DataFlow(E_RENDER),
        }
    }

    /// Returns the default device that follows a notification first.
    pub fn first_to_follow() -> (r: DefaultDeviceKind)
        ensures
            r == DefaultDeviceKind::Input,
    {
        DefaultDeviceKind::Input
    }

    /// Returns the data flow of the default device.
    pub fn flow(self) -> (r: DataFlow)
        ensures
            r == self.spec_flow(),
    {
        match self {
            DefaultDeviceKind::Input => DataFlow(E_CAPTURE),
            DefaultDeviceKind::Output => DataFlow(E_RENDER),
        }
    }

    /// Returns the role of the default device.
    pub fn role(self) -> (r: Role)
        ensures
            r == Role(E_CONSOLE),
    {
        Role(E_CONSOLE)
    }
}

/// Where a notification stands after one default device has followed it.
pub enum ChangeStep {
    /// The other default device is to follow it.
    Next(DefaultDeviceKind),
    /// It is dealt with.
    Done(Result<(), windows_core::Error>),
}

impl<D> DefaultDevices<D> {
    /// Each default device has its own data flow and the role of the console.
    pub open spec fn wf(self) -> bool {
        &&& self.input_device.flow == DataFlow(E_CAPTURE)
        &&& self.input_device.role == Role(E_CONSOLE)
        &&& self.output_device.flow == DataFlow(E_RENDER)
        &&& self.output_device.role == Role(E_CONSOLE)
    }

    /// Makes the default devices of what the system answers when it is asked for their
    /// endpoints.
    pub fn new(
        input: Result<D, windows_core::Error>,
        output: Result<D, windows_core::Error>,
    ) -> (r: DefaultDevices<D>)
        ensures
            r.wf(),
            r.input_device.device == endpoint_of(input),
            r.output_device.device == endpoint_of(output),
    {
        DefaultDevices {
            input_device: DefaultDevice::new(
                DefaultDeviceKind::Input.flow(),
                DefaultDeviceKind::Input.role(),
                input,
            ),
            output_device: DefaultDevice::new(
                DefaultDeviceKind::Output.flow(),
                DefaultDeviceKind::Output.role(),
                output,
            ),
        }
    }

    /// One of the default devices.
    pub open spec fn spec_device(self, kind: DefaultDeviceKind) -> DefaultDevice<D> {
        match kind {
            DefaultDeviceKind::Input => self.input_device,
            DefaultDeviceKind::Output => self.output_device,
        }
    }

    /// The same with one of the default devices replaced.
    pub open spec fn with_device(self, kind: DefaultDeviceKind, device: DefaultDevice<D>) -> Self {
        match kind {
            DefaultDeviceKind::Input => DefaultDevices { input_device: device, ..self },
            DefaultDeviceKind::Output => DefaultDevices { output_device: device, ..self },
        }
    }

    /// The default devices after one of them has followed a notification, and what is left
    /// to do of it.
    pub open spec fn spec_step(
        self,
        kind: DefaultDeviceKind,
        change: DefaultDeviceChange,
        lookup: Option<Result<D, windows_core::Error>>,
    ) -> (Self, ChangeStep) {
        (
            self.with_device(kind, self.spec_device(kind).after(change, lookup)),
            match self.spec_device(kind).outcome(change, lookup) {
                Err(e) => ChangeStep::Done(Err(e)),
                Ok(_) => match kind {
                    DefaultDeviceKind::Input => ChangeStep::Next(DefaultDeviceKind::Output),
                    DefaultDeviceKind::Output => ChangeStep::Done(Ok(())),
                },
            },
        )
    }

    /// The default devices after a notification, and what came of it, where the given default
    /// device is the first to follow it: each step says which one is next, or that it is
    /// done.
    pub open spec fn after_notification(
        self,
        kind: DefaultDeviceKind,
        change: DefaultDeviceChange,
        input_lookup: Option<Result<D, windows_core::Error>>,
        output_lookup: Option<Result<D, windows_core::Error>>,
    ) -> (Self, Result<(), windows_core::Error>)
        decreases (if kind is Input { 1int } else { 0int }),
    {
        let lookup = match kind {
            DefaultDeviceKind::Input => input_lookup,
            DefaultDeviceKind::Output => output_lookup,
        };
        match self.spec_step(kind, change, lookup) {
            (devices, ChangeStep::Done(result)) => (devices, result),
            (devices, ChangeStep::Next(next)) => devices.after_notification(
                next,
                change,
                input_lookup,
                output_lookup,
            ),
        }
    }

    /// Returns one of the default devices.
    pub fn device(&self, kind: DefaultDeviceKind) -> (r: &DefaultDevice<D>)
        ensures
            *r == self.spec_device(kind),
    {
        match kind {
            DefaultDeviceKind::Input => &self.input_device,
            DefaultDeviceKind::Output => &self.output_device,
        }
    }

    /// Lets one default device follow a notification. The input device comes first, and
    /// the output device after it, unless the input device's new endpoint could not be
    /// looked up.
    pub fn on_default_device_changed(
        &mut self,
        kind: DefaultDeviceKind,
        change: DefaultDeviceChange,
        lookup: Option<Result<D, windows_core::Error>>,
    ) -> (r: ChangeStep)
        requires
            old(self).spec_device(kind).concerned_by(change) && !change.id_is_null
                ==> lookup is Some,
        ensures
            (*final(self), r) == old(self).spec_step(kind, change, lookup),
            old(self).wf() ==> final(self).wf(),
    {
        match kind {
            DefaultDeviceKind::Input => match self.input_device.update_device(change, lookup) {
                Ok(()) => ChangeStep::Next(DefaultDeviceKind::Output),
                Err(e) => ChangeStep::Done(Err(e)),
            },
            DefaultDeviceKind::Output => ChangeStep::Done(
                self.output_device.update_device(change, lookup),
            ),
        }
    }
}

/// A default device keeps its data flow and its role, whatever the notifications.
pub proof fn lemma_flow_and_role_stay<D>(
    device: DefaultDevice<D>,
    change: DefaultDeviceChange,
    lookup: Option<Result<D, windows_core::Error>>,
)
    ensures
        device.after(change, lookup).flow == device.flow,
        device.after(change, lookup).role == device.role,
{
}

/// A notification with another data flow or another role changes nothing.
pub proof fn lemma_foreign_change_ignored<D>(
    device: DefaultDevice<D>,
    change: DefaultDeviceChange,
    lookup: Option<Result<D, windows_core::Error>>,
)
    requires
        device.flow != change.flow || device.role != change.role,
    ensures
        device.after(change, lookup) == device,
        device.outcome(change, lookup) is Ok,
{
}

/// The last notification decides: following a notification that takes the default device
/// away, or one whose endpoint was found, gives the same as following it alone.
pub proof fn lemma_last_change_decides<D>(
    device: DefaultDevice<D>,
    earlier: DefaultDeviceChange,
    earlier_lookup: Option<Result<D, windows_core::Error>>,
    change: DefaultDeviceChange,
    lookup: Option<Result<D, windows_core::Error>>,
)
    requires
        device.concerned_by(change),
        change.id_is_null || lookup matches Some(Ok(_)),
    ensures
        device.after(earlier, earlier_lookup).after(change, lookup) == device.after(
            change,
            lookup,
        ),
{
}

/// A lookup that fails changes nothing, and its error comes out.
pub proof fn lemma_failed_lookup_changes_nothing<D>(
    device: DefaultDevice<D>,
    change: DefaultDeviceChange,
    e: windows_core::Error,
)
    requires
        device.concerned_by(change),
        !change.id_is_null,
    ensures
        device.after(change, Some(Err(e))) == device,
        device.outcome(change, Some(Err(e))) == Err::<(), _>(e),
{
}

/// A whole notification, which starts with the input device: both default devices follow
/// it, and it succeeds unless a lookup fails. A failed lookup of the input device ends it
/// with that error and leaves both as they were; one of the output device ends it with that
/// error once the input device has followed.
pub proof fn lemma_whole_notification<D>(
    devices: DefaultDevices<D>,
    change: DefaultDeviceChange,
    input_lookup: Option<Result<D, windows_core::Error>>,
    output_lookup: Option<Result<D, windows_core::Error>>,
)
    ensures
        ({
            let (after, result) = devices.after_notification(
                DefaultDeviceKind::Input,
                change,
                input_lookup,
                output_lookup,
            );
            match devices.input_device.outcome(change, input_lookup) {
                Err(e) => after == devices && result == Err::<(), _>(e),
                Ok(_) => {
                    &&& after.input_device == devices.input_device.after(change, input_lookup)
                    &&& after.output_device == devices.output_device.after(change, output_lookup)
                    &&& result == devices.output_device.outcome(change, output_lookup)
                    &&& result is Err ==> after.output_device == devices.output_device
                },
            }
        }),
{
    reveal_with_fuel(DefaultDevices::after_notification, 2);
}

/// Where the input device's new endpoint cannot be looked up, the notification changes
/// neither default device.
pub proof fn lemma_failed_input_lookup_changes_neither<D>(
    devices: DefaultDevices<D>,
    change: DefaultDeviceChange,
    e: windows_core::Error,
)
    requires
        devices.input_device.concerned_by(change),
        !change.id_is_null,
    ensures
        devices.with_device(
            DefaultDeviceKind::Input,
            devices.input_device.after(change, Some(Err(e))),
        ) == devices,
{
}

/// A notification is about the default device of its data flow, where its role is that of
/// the console: a change of the default output device leaves the input device alone, and
/// the other way round, and a change for another role leaves both alone.
pub proof fn lemma_change_concerns_its_device<D>(
    devices: DefaultDevices<D>,
    change: DefaultDeviceChange,
    kind: DefaultDeviceKind,
)
    requires
        devices.wf(),
    ensures
        devices.spec_device(kind).concerned_by(change) <==> change.flow == kind.spec_flow()
            && change.role == Role(E_CONSOLE),
{
}

/// No notification is about both default devices.
pub proof fn lemma_no_change_concerns_both<D>(
    devices: DefaultDevices<D>,
    change: DefaultDeviceChange,
)
    requires
        devices.wf(),
    ensures
        !(devices.input_device.concerned_by(change) && devices.output_device.concerned_by(change)),
{
}

} // verus!
